use sql_infer::inference::datatypes::{DecimalPrecision, TextLength};
use sql_infer::inference::nullability::ColumnNullability;
use sql_infer::inference::{InformationSchema, Nullability, QueryItem, SchemaMap, SqlType};
use sql_infer::parser::{Column, ValueType};

fn row(is_nullable: Option<bool>) -> InformationSchema {
    InformationSchema {
        is_nullable,
        character_maximum_length: None,
        numeric_precision: None,
        numeric_precision_radix: None,
        numeric_scale: None,
        column_default: None,
    }
}

fn item(sql_type: SqlType) -> QueryItem {
    QueryItem { name: "out".to_string(), sql_type, nullable: Nullability::Unknown }
}

#[test]
fn nullability_reads_the_catalog_row() {
    let source = Column::depends_on("users", "name");
    let mut schemas = SchemaMap::new();
    schemas.insert(Column::depends_on("users", "name"), row(Some(false)));
    let mut it = item(SqlType::Text);
    ColumnNullability.apply(&schemas, &source, &mut it);
    assert_eq!(it.nullable, Nullability::False);

    let mut schemas = SchemaMap::new();
    schemas.insert(Column::depends_on("users", "name"), row(Some(true)));
    let mut it = item(SqlType::Text);
    ColumnNullability.apply(&schemas, &source, &mut it);
    assert_eq!(it.nullable, Nullability::True);

    let schemas = SchemaMap::new();
    let mut it = item(SqlType::Text);
    ColumnNullability.apply(&schemas, &source, &mut it);
    assert_eq!(it.nullable, Nullability::Unknown);
}

#[test]
fn nullability_of_maybe_is_true_whatever_it_wraps() {
    let schemas = SchemaMap::new();
    for source in [
        Column::depends_on("a", "x").maybe(),
        Column::value(ValueType::Int).maybe(),
        Column::Unknown { sql: "f(x)".to_string() }.maybe(),
    ] {
        let mut it = item(SqlType::Text);
        ColumnNullability.apply(&schemas, &source, &mut it);
        assert_eq!(it.nullable, Nullability::True);
    }
}

#[test]
fn nullability_of_literals() {
    let schemas = SchemaMap::new();
    let mut it = item(SqlType::Text);
    ColumnNullability.apply(&schemas, &Column::value(ValueType::Null), &mut it);
    assert_eq!(it.nullable, Nullability::True);
    for v in [ValueType::Boolean, ValueType::Int, ValueType::Float, ValueType::Str] {
        let mut it = item(SqlType::Text);
        ColumnNullability.apply(&schemas, &Column::value(v), &mut it);
        assert_eq!(it.nullable, Nullability::False);
    }
}

#[test]
fn nullability_of_either_prefers_a_definite_answer() {
    let left = Column::depends_on("a", "x");
    let right = Column::depends_on("b", "x");
    let source = Column::either(left, right);
    let mut schemas = SchemaMap::new();
    schemas.insert(Column::depends_on("a", "x"), row(Some(false)));
    schemas.insert(Column::depends_on("b", "x"), row(Some(true)));
    let mut it = item(SqlType::Text);
    ColumnNullability.apply(&schemas, &source, &mut it);
    assert_eq!(it.nullable, Nullability::True);
}

#[test]
fn width_passes_change_nothing_without_a_cast() {
    let source = Column::depends_on("items", "price");
    let mut schemas = SchemaMap::new();
    schemas.insert(
        Column::depends_on("items", "price"),
        InformationSchema {
            is_nullable: Some(true),
            character_maximum_length: Some(42),
            numeric_precision: Some(10),
            numeric_precision_radix: Some(2),
            numeric_scale: Some(2),
            column_default: None,
        },
    );
    let mut it = item(SqlType::VarChar { length: None });
    TextLength.apply(&schemas, &source, &mut it);
    assert_eq!(it.sql_type, SqlType::VarChar { length: None });

    let mut it = item(SqlType::Decimal { precision: None, precision_radix: None });
    DecimalPrecision.apply(&schemas, &source, &mut it);
    assert_eq!(it.sql_type, SqlType::Decimal { precision: None, precision_radix: None });
}

#[test]
fn width_passes_refine_under_a_cast() {
    let source = Column::depends_on("items", "price").cast("numeric(10,2)".to_string());
    let info = InformationSchema {
        is_nullable: Some(true),
        character_maximum_length: Some(42),
        numeric_precision: Some(10),
        numeric_precision_radix: Some(2),
        numeric_scale: Some(2),
        column_default: None,
    };
    let mut schemas = SchemaMap::new();
    schemas.insert(
        Column::depends_on("items", "price").cast("numeric(10,2)".to_string()),
        info.clone(),
    );
    let mut it = item(SqlType::Decimal { precision: None, precision_radix: None });
    DecimalPrecision.apply(&schemas, &source, &mut it);
    assert_eq!(
        it.sql_type,
        SqlType::Decimal { precision: Some(10), precision_radix: Some(2) }
    );

    let text_source = Column::depends_on("users", "code").cast("varchar(42)".to_string());
    let mut schemas = SchemaMap::new();
    schemas.insert(
        Column::depends_on("users", "code").cast("varchar(42)".to_string()),
        info,
    );
    let mut it = item(SqlType::VarChar { length: None });
    TextLength.apply(&schemas, &text_source, &mut it);
    assert_eq!(it.sql_type, SqlType::VarChar { length: Some(42) });
}
