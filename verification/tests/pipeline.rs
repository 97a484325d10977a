//! The inference pipeline run end to end against driver and catalog
//! answers supplied as values, the way the surrounding program hands them
//! in after its database round-trips.

use sql_infer::inference::{
    collect_info, schema_requests, DriverColumn, DriverType, InformationSchema, Nullability,
    QueryItem, SchemaMap, SqlType,
};
use sql_infer::parser::find_fields;
use sql_infer::utils::parse_into_postgres;
use sql_infer::{inputs_from_driver, outputs_from_driver, Pass, SqlInferBuilder};

fn plain(name: &str) -> DriverType {
    DriverType { reported_name: name.to_string(), enum_tags: None }
}

fn column(name: &str, ty: &str) -> DriverColumn {
    DriverColumn { name: name.to_string(), data_type: plain(ty) }
}

fn not_null_row() -> InformationSchema {
    InformationSchema {
        is_nullable: Some(false),
        character_maximum_length: None,
        numeric_precision: None,
        numeric_precision_radix: None,
        numeric_scale: None,
        column_default: None,
    }
}

/// Runs the rewritten query's provenance and passes for one output item.
fn refine(
    raw_query: &str,
    item: &mut QueryItem,
    passes: &[Pass],
    catalog: &dyn Fn(&str, &str) -> Option<InformationSchema>,
) {
    let ast = sql_infer::adapter::to_ast(raw_query).unwrap();
    let fields = find_fields(&ast[0]).unwrap();
    let source = match fields.get(item.name.as_str()) {
        Some(col) => col.clone(),
        None => return,
    };
    let mut results: Vec<Option<InformationSchema>> = Vec::new();
    for (table, col) in schema_requests(&source) {
        results.push(catalog(&table, &col));
    }
    let mut map = SchemaMap::new();
    collect_info(&source, &results, 0, &mut map);
    let mut builder = SqlInferBuilder::default();
    for p in passes {
        builder.add_information_schema_pass(*p);
    }
    let infer = builder.build();
    infer.update_with_info(&map, &source, item);
}

#[test]
fn simple_select_with_parameter() {
    let q = "select name from users where id = :uid";
    let rewritten = parse_into_postgres(q);
    assert_eq!(rewritten.raw_query, "select name from users where id = $1");
    assert_eq!(rewritten.params, vec!["uid".to_string()]);

    let inputs = inputs_from_driver(&rewritten.params, &vec![plain("INT4")]);
    assert_eq!(inputs.len(), 1);
    assert_eq!(inputs[0].name, "uid");
    assert_eq!(inputs[0].sql_type, SqlType::Int4);
    assert_eq!(inputs[0].nullable, Nullability::Unknown);

    let mut outputs = outputs_from_driver(&vec![column("name", "TEXT")]);
    assert_eq!(outputs.len(), 1);
    assert_eq!(outputs[0].sql_type, SqlType::Text);
    assert_eq!(outputs[0].nullable, Nullability::Unknown);

    refine(
        &rewritten.raw_query,
        &mut outputs[0],
        &[Pass::Nullability],
        &|table, col| {
            if table == "users" && col == "name" {
                Some(not_null_row())
            } else {
                None
            }
        },
    );
    assert_eq!(outputs[0].nullable, Nullability::False);
}

#[test]
fn decimal_precision_is_read_through_a_cast() {
    let q = "select price::numeric(10,2) as p from items";
    let rewritten = parse_into_postgres(q);
    assert_eq!(rewritten.raw_query, q);

    let mut outputs = outputs_from_driver(&vec![column("p", "NUMERIC")]);
    assert_eq!(
        outputs[0].sql_type,
        SqlType::Decimal { precision: None, precision_radix: None }
    );

    refine(
        &rewritten.raw_query,
        &mut outputs[0],
        &[Pass::Nullability, Pass::DecimalPrecision, Pass::TextLength],
        &|table, col| {
            if table == "items" && col == "price" {
                Some(InformationSchema {
                    is_nullable: Some(true),
                    character_maximum_length: None,
                    numeric_precision: Some(10),
                    numeric_precision_radix: Some(2),
                    numeric_scale: Some(2),
                    column_default: None,
                })
            } else {
                None
            }
        },
    );
    assert_eq!(
        outputs[0].sql_type,
        SqlType::Decimal { precision: Some(10), precision_radix: Some(2) }
    );
}

#[test]
fn left_join_keeps_the_left_side_not_null() {
    let q = "select a.x from a left join b on a.id = b.a_id";
    let mut outputs = outputs_from_driver(&vec![column("x", "INT4")]);
    refine(q, &mut outputs[0], &[Pass::Nullability], &|table, col| {
        if table == "a" && col == "x" {
            Some(not_null_row())
        } else {
            None
        }
    });
    assert_eq!(outputs[0].nullable, Nullability::False);
}

#[test]
fn count_star_is_never_null() {
    let q = "select count(*) as n from orders";
    let mut outputs = outputs_from_driver(&vec![column("n", "INT8")]);
    assert_eq!(outputs[0].sql_type, SqlType::Int8);
    refine(q, &mut outputs[0], &[Pass::Nullability], &|_, _| None);
    assert_eq!(outputs[0].nullable, Nullability::False);
}

#[test]
fn cast_parameter_keeps_its_name_and_type() {
    let q = "select :v::text as v";
    let rewritten = parse_into_postgres(q);
    assert_eq!(rewritten.raw_query, "select $1::text as v");
    assert_eq!(rewritten.params, vec!["v".to_string()]);

    let inputs = inputs_from_driver(&rewritten.params, &vec![plain("TEXT")]);
    assert_eq!(inputs[0].name, "v");
    assert_eq!(inputs[0].sql_type, SqlType::Text);
    assert_eq!(inputs[0].nullable, Nullability::Unknown);

    let mut outputs = outputs_from_driver(&vec![column("v", "TEXT")]);
    refine(&rewritten.raw_query, &mut outputs[0], &[Pass::Nullability], &|_, _| None);
    assert_eq!(outputs[0].sql_type, SqlType::Text);
    // a placeholder has no provenance, so its nullability stays unknown
    assert_eq!(outputs[0].nullable, Nullability::Unknown);
}
