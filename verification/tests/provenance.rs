use sql_infer::parser::{find_fields, Column};
use sql_infer::adapter::to_ast;
use sql_infer::syntax::Stmt;

const TABLES: &[&str] = &["a", "b", "c", "d", "e", "f"];
const COLUMNS: &[&str] = &["a", "b", "c"];
const ALIAS: &str = "x";
const OTHER_TABLE: &str = "x";

pub fn find_source(ast: &[Stmt], field_name: &str) -> Column {
    let fields = find_fields(&ast[0]).unwrap();
    fields.get(field_name).unwrap().clone()
}

#[test]
fn basic_ident_find_source() {
    for &column in COLUMNS {
        for &table in TABLES {
            let query = format!("select {column} from {table}");
            let ast = to_ast(&query).unwrap();
            let source = find_source(&ast, column);
            assert_eq!(source, Column::depends_on(table, column));
        }
    }
}

#[test]
fn compound_ident_find_source() {
    for &column in COLUMNS {
        for &table in TABLES {
            let query = format!("select {table}.{column} from {table}");
            let ast = to_ast(&query).unwrap();
            let source = find_source(&ast, column);
            assert_eq!(source, Column::depends_on(table, column));
        }
    }
}

#[test]
fn basic_ident_alias_find_source() {
    for &column in COLUMNS {
        for &table in TABLES {
            let query = format!("select {column} as {ALIAS} from {table}");
            let ast = to_ast(&query).unwrap();
            let source = find_source(&ast, ALIAS);
            assert_eq!(source, Column::depends_on(table, column));
        }
    }
}

#[test]
fn compound_ident_alias_find_source() {
    for &column in COLUMNS {
        for &table in TABLES {
            let query = format!("select {table}.{column} as {ALIAS} from {table}");
            let ast = to_ast(&query).unwrap();
            let source = find_source(&ast, ALIAS);
            assert_eq!(source, Column::depends_on(table, column));
        }
    }
}

#[test]
fn basic_ident_find_source_with_join() {
    for &column in COLUMNS {
        for (idx, &table_a) in TABLES.iter().enumerate() {
            for &table_b in &TABLES[idx + 1..] {
                let query = format!("select {column} from {table_a} join {table_b}");
                let ast = to_ast(&query).unwrap();
                let source = find_source(&ast, column);
                assert_eq!(
                    source,
                    Column::either(
                        Column::depends_on(table_a, column),
                        Column::depends_on(table_b, column),
                    )
                );
            }
        }
    }
}

#[test]
fn compound_ident_find_source_with_join() {
    for &column in COLUMNS {
        for &table in TABLES {
            let query = format!("select {table}.{column} from {table} join {OTHER_TABLE}");
            let ast = to_ast(&query).unwrap();
            let source = find_source(&ast, column);
            assert_eq!(source, Column::depends_on(table, column));
        }
    }
}

#[test]
fn left_join_wraps_right_side_in_maybe() {
    let ast = to_ast("select c from a left join b").unwrap();
    let source = find_source(&ast, "c");
    assert_eq!(
        source,
        Column::either(
            Column::depends_on("a", "c"),
            Column::depends_on("b", "c").maybe(),
        )
    );
}

#[test]
fn either_equality_is_commutative() {
    let one = Column::either(Column::depends_on("a", "c"), Column::depends_on("b", "c"));
    let two = Column::either(Column::depends_on("b", "c"), Column::depends_on("a", "c"));
    assert!(one.equals(&two));
    assert!(two.equals(&one));
    let three = Column::either(Column::depends_on("a", "c"), Column::depends_on("b", "d"));
    assert!(!one.equals(&three));
}

#[test]
fn count_projects_an_integer_literal() {
    let ast = to_ast("select count(*) as n from orders").unwrap();
    let source = find_source(&ast, "n");
    assert_eq!(source, Column::value(sql_infer::parser::ValueType::Int));
}

#[test]
fn with_clause_is_refused() {
    let ast = to_ast("with t as (select 1 as x) select x from t").unwrap();
    let fields = find_fields(&ast[0]);
    assert!(matches!(
        fields,
        Err(sql_infer::parser::ParserError::UnsupportedQueryElement { .. })
    ));
}

#[test]
fn insert_returning_resolves_against_the_target_table() {
    let ast = to_ast("insert into t (a) values (1) returning a").unwrap();
    let source = find_source(&ast, "a");
    assert_eq!(source, Column::depends_on("t", "a"));
}

#[test]
fn update_returning_resolves_against_the_updated_table() {
    let ast = to_ast("update t set a = 1 returning a").unwrap();
    let source = find_source(&ast, "a");
    assert_eq!(source, Column::depends_on("t", "a"));
}

#[test]
fn delete_returning_resolves_against_the_from_tables() {
    let ast = to_ast("delete from t returning a").unwrap();
    let source = find_source(&ast, "a");
    assert_eq!(source, Column::depends_on("t", "a"));
}

#[test]
fn quoted_table_names_are_unescaped() {
    let ast = to_ast("select c from \"My \"\"Table\"\"\"").unwrap();
    let source = find_source(&ast, "c");
    assert_eq!(source, Column::depends_on("My \"Table\"", "c"));
}

#[test]
fn casts_wrap_their_source() {
    let ast = to_ast("select price::numeric(10,2) as p from items").unwrap();
    let source = find_source(&ast, "p");
    match source {
        Column::Cast { source, .. } => {
            assert_eq!(*source, Column::depends_on("items", "price"));
        }
        other => panic!("expected a cast, got {other:?}"),
    }
}

#[test]
fn qualified_identifier_narrows_in_left_join() {
    let ast = to_ast("select a.x from a left join b on a.id = b.a_id").unwrap();
    let source = find_source(&ast, "x");
    assert_eq!(source, Column::depends_on("a", "x"));
}

#[test]
fn unsupported_statements_are_refused() {
    let ast = to_ast("create table t (a int)").unwrap();
    assert!(matches!(
        find_fields(&ast[0]),
        Err(sql_infer::parser::ParserError::UnsupportedStatement { .. })
    ));
    let ast = to_ast("select a from t union select a from u").unwrap();
    assert!(matches!(
        find_fields(&ast[0]),
        Err(sql_infer::parser::ParserError::UnsupportedStatement { .. })
    ));
}

#[test]
fn rejected_text_reports_the_parser_message() {
    let parsed = to_ast("select from from from");
    assert!(matches!(
        parsed,
        Err(sql_infer::parser::ParserError::ParseFailed { .. })
    ));
}

#[test]
fn wildcards_contribute_no_field() {
    let ast = to_ast("select *, c from t").unwrap();
    let fields = find_fields(&ast[0]).unwrap();
    assert!(fields.get("c").is_some());
    assert!(fields.get("*").is_none());
}
