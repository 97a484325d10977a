use sql_infer::codegen::json::JsonCodeGen;
use sql_infer::codegen::py_utils::escape_string;
use sql_infer::codegen::sqlalchemy_v2::{to_pascal, ArgumentMode, SqlAlchemyV2CodeGen, TypeGen};
use sql_infer::codegen::QueryDefinition;
use sql_infer::config::{CodeGenSource, CodeGenerator, Features, SqlInferConfig, TomlConfig};
use sql_infer::inference::{Nullability, QueryItem, SqlType};
use sql_infer::schema::lint::{Lint, TimeWithTimezone, TimestampWithoutTimezone};
use sql_infer::schema::{ColumnSchema, DbSchema, TableSchema};

fn item(name: &str, sql_type: SqlType, nullable: Nullability) -> QueryItem {
    QueryItem { name: name.to_string(), sql_type, nullable }
}

#[test]
fn pascal_case_conversion() {
    assert_eq!(to_pascal("my_query_output"), "MyQueryOutput");
    assert_eq!(to_pascal("mixedCase"), "MixedCase");
    assert_eq!(to_pascal("simple"), "Simple");
    assert_eq!(to_pascal(""), "");
}

#[test]
fn python_string_escaping() {
    assert_eq!(escape_string("a'b\"c"), "a\\'b\\\"c");
    assert_eq!(escape_string("plain"), "plain");
}

#[test]
fn type_display_text() {
    assert_eq!(
        SqlType::Decimal { precision: Some(10), precision_radix: Some(2) }.display_text(),
        "decimal(10, 2)"
    );
    assert_eq!(
        SqlType::Decimal { precision: None, precision_radix: None }.display_text(),
        "decimal"
    );
    assert_eq!(
        SqlType::Timestamp { tz: true }.display_text(),
        "timestamp with time zone"
    );
    assert_eq!(SqlType::Bit { length: None }.display_text(), "bit(1)");
    assert_eq!(SqlType::VarChar { length: Some(12) }.display_text(), "varchar(12)");
    assert_eq!(SqlType::Int8.display_text(), "i64");
    assert_eq!(
        SqlType::Enum {
            name: "mood".to_string(),
            tags: vec!["sad".to_string(), "happy".to_string()],
        }
        .display_text(),
        "mood: sad, happy"
    );
}

#[test]
fn json_manifest_is_sorted_and_tagged() {
    let mut gen = JsonCodeGen::new();
    gen.push(
        "second",
        QueryDefinition {
            query: "select 1 as one".to_string(),
            inputs: vec![],
            outputs: vec![item("one", SqlType::Int4, Nullability::False)],
        },
    );
    gen.push(
        "first",
        QueryDefinition {
            query: "select name from users where id = :uid".to_string(),
            inputs: vec![item("uid", SqlType::Int4, Nullability::Unknown)],
            outputs: vec![item("name", SqlType::Text, Nullability::False)],
        },
    );
    let out = gen.finalize();
    let mut expected = String::new();
    expected.push_str("{\"first\":{\"query\":\"select name from users where id = :uid\",");
    expected.push_str("\"inputs\":[{\"name\":\"uid\",\"sql_type\":\"Int4\",\"nullable\":\"Unknown\"}],");
    expected.push_str("\"outputs\":[{\"name\":\"name\",\"sql_type\":\"Text\",\"nullable\":\"False\"}]},");
    expected.push_str("\"second\":{\"query\":\"select 1 as one\",\"inputs\":[],");
    expected.push_str("\"outputs\":[{\"name\":\"one\",\"sql_type\":\"Int4\",\"nullable\":\"False\"}]}}");
    assert_eq!(out, expected);
}

#[test]
fn json_escapes_quotes_and_newlines() {
    let mut gen = JsonCodeGen::new();
    gen.push(
        "q",
        QueryDefinition {
            query: "select \"col\"\nfrom t".to_string(),
            inputs: vec![],
            outputs: vec![],
        },
    );
    assert_eq!(
        gen.finalize(),
        "{\"q\":{\"query\":\"select \\\"col\\\"\\nfrom t\",\"inputs\":[],\"outputs\":[]}}"
    );
}

#[test]
fn sqlalchemy_wrapper_text() {
    let gen = SqlAlchemyV2CodeGen::new(false, ArgumentMode::Positional, TypeGen::Python);
    let q = QueryDefinition {
        query: "select name from users where id = $1".to_string(),
        inputs: vec![item("uid", SqlType::Int4, Nullability::Unknown)],
        outputs: vec![item("name", SqlType::Text, Nullability::False)],
    };
    let text = gen.query_to_sql_alchemy("get_user", &q);
    let mut expected = String::new();
    expected.push_str("@dataclass\n");
    expected.push_str("class GetUserOutput:\n");
    expected.push_str("    name: str\n");
    expected.push_str("\n\n");
    expected.push_str("async def get_user(conn: Connection, uid: int | None) -> DbOutput[GetUserOutput]:\n");
    expected.push_str("    result = await conn.execute(text(\"\"\"select name from users where id = $1\"\"\"), ");
    expected.push_str("{\"uid\": uid})\n");
    expected.push_str("    return DbOutput(GetUserOutput(*row) for row in result) # type: ignore\n");
    assert_eq!(text, expected);
}

#[test]
fn keyword_mode_inserts_a_star() {
    let gen = SqlAlchemyV2CodeGen::new(true, ArgumentMode::Keyword, TypeGen::Python);
    let q = QueryDefinition {
        query: "delete from t where id = $1".to_string(),
        inputs: vec![item("id", SqlType::Int8, Nullability::False)],
        outputs: vec![],
    };
    let text = gen.query_to_sql_alchemy("drop_row", &q);
    let mut expected = String::new();
    expected.push_str("\n\n");
    expected.push_str("async def drop_row(conn: AsyncConnection, *, id: int) -> None:\n");
    expected.push_str("    result = await conn.execute(text(\"\"\"delete from t where id = $1\"\"\"), ");
    expected.push_str("{\"id\": id})\n");
    assert_eq!(text, expected);
}

#[test]
fn config_normalizes_sources() {
    let single = TomlConfig {
        path: CodeGenSource::Single("queries".to_string()),
        target: "out.json".to_string(),
        mode: CodeGenerator::Json,
        experimental_features: Features {
            infer_nullability: Some(true),
            precise_output_datatypes: None,
        },
    };
    let config = SqlInferConfig::from_toml_config(single);
    assert_eq!(config.source, vec!["queries".to_string()]);
    assert!(config.experimental_features.nullability());
    assert!(!config.experimental_features.text_length());
    assert!(!config.experimental_features.decimal_precision());

    let list = TomlConfig {
        path: CodeGenSource::List(vec!["a".to_string(), "b".to_string()]),
        target: "out.json".to_string(),
        mode: CodeGenerator::Json,
        experimental_features: Features {
            infer_nullability: None,
            precise_output_datatypes: Some(true),
        },
    };
    let config = SqlInferConfig::from_toml_config(list);
    assert_eq!(config.source, vec!["a".to_string(), "b".to_string()]);
    assert!(config.experimental_features.text_length());
}

fn sample_schema() -> DbSchema {
    DbSchema {
        tables: vec![TableSchema {
            name: "events".to_string(),
            columns: vec![
                ColumnSchema {
                    name: "at".to_string(),
                    data_type: SqlType::Timestamp { tz: true },
                    nullable: false,
                },
                ColumnSchema {
                    name: "t".to_string(),
                    data_type: SqlType::Time { tz: false },
                    nullable: true,
                },
            ],
        }],
    }
}

#[test]
fn lints_flag_their_columns() {
    let db = sample_schema();
    let stamped = TimestampWithoutTimezone.lint(&db);
    assert_eq!(stamped.len(), 1);
    assert_eq!(stamped[0].msg, "timestamp has no timezone");
    let timed = TimeWithTimezone.lint(&db);
    assert_eq!(timed.len(), 1);
    assert_eq!(timed[0].msg, "time has timezone");
}

#[test]
fn schema_renders_aligned_rows() {
    let db = sample_schema();
    let text = db.render();
    let mut expected = String::new();
    expected.push_str("events\n");
    expected.push_str("at                        |  t?                    \n");
    expected.push_str("timestamp with time zone  |  time without time zone\n");
    expected.push_str("\n");
    assert_eq!(text, expected);
}

#[test]
fn finalize_emits_the_runtime_preamble() {
    let mut gen = SqlAlchemyV2CodeGen::new(false, ArgumentMode::Positional, TypeGen::Python);
    gen.push(
        "one",
        QueryDefinition { query: "select 1 as one".to_string(), inputs: vec![], outputs: vec![] },
    );
    let out = gen.finalize();
    assert!(out.starts_with("from dataclasses import dataclass\n"));
    assert!(out.contains("from sqlalchemy.engine import Connection\n"));
    assert!(out.contains("class DbOutput(Generic[T]):"));
    assert!(out.contains("async def one(conn: Connection) -> None:\n"));
    assert!(!out.contains("pydantic"));

    let mut gen = SqlAlchemyV2CodeGen::new(true, ArgumentMode::Positional, TypeGen::Pydantic);
    gen.push(
        "one",
        QueryDefinition { query: "select 1 as one".to_string(), inputs: vec![], outputs: vec![] },
    );
    let out = gen.finalize();
    assert!(out.contains("from sqlalchemy.ext.asyncio import AsyncConnection\n"));
    assert!(out.contains("\nfrom pydantic import AwareDatetime, NaiveDatetime\n"));
}

#[test]
fn enum_labels_are_escaped_in_annotations() {
    let gen = SqlAlchemyV2CodeGen::new(false, ArgumentMode::Positional, TypeGen::Python);
    let q = QueryDefinition {
        query: "select 1 from t where mood = $1".to_string(),
        inputs: vec![item(
            "mood",
            SqlType::Enum {
                name: "mood".to_string(),
                tags: vec!["pl\"ain".to_string(), "back\\slash".to_string()],
            },
            Nullability::False,
        )],
        outputs: vec![],
    };
    let text = gen.query_to_sql_alchemy("by_mood", &q);
    assert!(text.contains("mood: Literal[\"pl\\\"ain\", \"back\\\\slash\"]"));
}
