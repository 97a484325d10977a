use sql_infer::inference::{Nullability, SqlType};
use std::cmp::Ordering;

#[test]
fn driver_names_map_to_the_type_table() {
    assert_eq!(SqlType::from_str("BOOL"), SqlType::Bool);
    assert_eq!(SqlType::from_str("SMALLINT"), SqlType::Int2);
    assert_eq!(SqlType::from_str("INT2"), SqlType::Int2);
    assert_eq!(SqlType::from_str("INT"), SqlType::Int4);
    assert_eq!(SqlType::from_str("INT4"), SqlType::Int4);
    assert_eq!(SqlType::from_str("INT8"), SqlType::Int8);
    assert_eq!(SqlType::from_str("SMALLSERIAL"), SqlType::SmallSerial);
    assert_eq!(SqlType::from_str("SERIAL"), SqlType::Serial);
    assert_eq!(SqlType::from_str("BIGSERIAL"), SqlType::BigSerial);
    assert_eq!(
        SqlType::from_str("NUMERIC"),
        SqlType::Decimal { precision: None, precision_radix: None }
    );
    assert_eq!(SqlType::from_str("TIMESTAMP"), SqlType::Timestamp { tz: false });
    assert_eq!(SqlType::from_str("TIMESTAMPTZ"), SqlType::Timestamp { tz: true });
    assert_eq!(SqlType::from_str("TIME"), SqlType::Time { tz: false });
    assert_eq!(SqlType::from_str("TIMETZ"), SqlType::Time { tz: true });
    assert_eq!(SqlType::from_str("DATE"), SqlType::Date);
    assert_eq!(SqlType::from_str("CHAR"), SqlType::Char { length: None });
    assert_eq!(SqlType::from_str("VARCHAR"), SqlType::VarChar { length: None });
    assert_eq!(SqlType::from_str("BIT"), SqlType::Bit { length: None });
    assert_eq!(SqlType::from_str("VARBIT"), SqlType::VarBit { length: None });
    assert_eq!(SqlType::from_str("TEXT"), SqlType::Text);
    assert_eq!(SqlType::from_str("JSON"), SqlType::Json);
    assert_eq!(SqlType::from_str("JSONB"), SqlType::Jsonb);
    assert_eq!(SqlType::from_str("DOUBLE PRECISION"), SqlType::Float8);
    assert_eq!(SqlType::from_str("FLOAT8"), SqlType::Float8);
    assert_eq!(SqlType::from_str("REAL"), SqlType::Float4);
    assert_eq!(SqlType::from_str("FLOAT4"), SqlType::Float4);
    assert_eq!(SqlType::from_str("INTERVAL"), SqlType::Interval);
    assert_eq!(SqlType::from_str("POINT"), SqlType::Unknown);
}

#[test]
fn numeric_and_text_classification() {
    assert!(SqlType::Int2.is_numeric());
    assert!(SqlType::Serial.is_numeric());
    assert!(SqlType::Float8.is_numeric());
    assert!(SqlType::Decimal { precision: None, precision_radix: None }.is_numeric());
    assert!(!SqlType::Bool.is_numeric());
    assert!(!SqlType::Text.is_numeric());
    assert!(SqlType::Text.is_text());
    assert!(SqlType::Char { length: None }.is_text());
    assert!(SqlType::VarChar { length: Some(4) }.is_text());
    assert!(!SqlType::Json.is_text());
}

#[test]
fn numeric_rank_orders_promotions() {
    assert_eq!(SqlType::Int2.numeric_compare(&SqlType::Int4), Some(Ordering::Less));
    assert_eq!(SqlType::Int8.numeric_compare(&SqlType::Int4), Some(Ordering::Greater));
    assert_eq!(SqlType::Serial.numeric_compare(&SqlType::Int4), Some(Ordering::Equal));
    assert_eq!(
        SqlType::Decimal { precision: None, precision_radix: None }
            .numeric_compare(&SqlType::Float4),
        Some(Ordering::Less)
    );
    assert_eq!(SqlType::Text.numeric_compare(&SqlType::Int4), None);
}

#[test]
fn enum_types_carry_their_labels() {
    let t = SqlType::from_driver_type(
        "mood",
        Some(vec!["sad".to_string(), "ok".to_string(), "happy".to_string()]),
    );
    assert_eq!(
        t,
        SqlType::Enum {
            name: "mood".to_string(),
            tags: vec!["sad".to_string(), "ok".to_string(), "happy".to_string()],
        }
    );
    assert_eq!(SqlType::from_driver_type("TEXT", None), SqlType::Text);
}

#[test]
fn nullability_has_three_values() {
    assert_ne!(Nullability::True, Nullability::False);
    assert_ne!(Nullability::True, Nullability::Unknown);
    assert_ne!(Nullability::False, Nullability::Unknown);
}
