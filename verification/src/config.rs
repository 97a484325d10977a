//! Configuration as the surrounding program hands it in, after file
//! reading and TOML decoding have happened elsewhere.

use vstd::prelude::*;

use crate::codegen::sqlalchemy_v2::{ArgumentMode, TypeGen};

verus! {

/// What can be wrong with the configuration.
#[derive(Debug, Clone, PartialEq, Eq)]
pub enum ConfigError {
    DbUrlNotFound,
}

impl ConfigError {
    /// The message shown for this error.
    pub fn message(&self) -> (r: String)
        ensures
            r@
                == "Database URL not found, please set the DATABASE_URL environment variable."@,
    {
        let mut out = String::new();
        out.append(
            "Database URL not found, please set the DATABASE_URL environment variable.",
        );
        out
    }
}

/// Which experimental refinements are switched on; an absent entry means
/// off.
#[derive(Debug, Clone, Copy, PartialEq, Eq, Structural)]
pub struct Features {
    pub infer_nullability: Option<bool>,
    pub precise_output_datatypes: Option<bool>,
}

impl Features {
    /// Whether the nullability pass runs.
    pub fn nullability(&self) -> (r: bool)
        ensures
            r == (self.infer_nullability == Some(true)),
    {
        match self.infer_nullability {
            Some(b) => b,
            None => false,
        }
    }

    /// Whether the text-length pass runs.
    pub fn text_length(&self) -> (r: bool)
        ensures
            r == (self.precise_output_datatypes == Some(true)),
    {
        match self.precise_output_datatypes {
            Some(b) => b,
            None => false,
        }
    }

    /// Whether the decimal-precision pass runs.
    pub fn decimal_precision(&self) -> (r: bool)
        ensures
            r == (self.precise_output_datatypes == Some(true)),
    {
        match self.precise_output_datatypes {
            Some(b) => b,
            None => false,
        }
    }
}

/// Which emitter produces the output artifact.
#[derive(Debug, Clone, PartialEq, Eq)]
pub enum CodeGenerator {
    Json,
    SqlAlchemyV2 { is_async: bool, argument_mode: ArgumentMode, type_gen: TypeGen },
}

/// Where the query files come from: one directory or several.
#[derive(Debug, Clone, PartialEq, Eq)]
pub enum CodeGenSource {
    Single(String),
    List(Vec<String>),
}

/// The configuration file's shape.
#[derive(Debug, PartialEq, Eq)]
pub struct TomlConfig {
    pub path: CodeGenSource,
    pub target: String,
    pub mode: CodeGenerator,
    pub experimental_features: Features,
}

/// The configuration after normalization: always a list of sources.
#[derive(Debug, PartialEq, Eq)]
pub struct SqlInferConfig {
    pub source: Vec<String>,
    pub target: String,
    pub mode: CodeGenerator,
    pub experimental_features: Features,
}

impl SqlInferConfig {
    /// Normalizes the configuration file: a single path becomes a list of
    /// one.
    pub fn from_toml_config(config: TomlConfig) -> (r: SqlInferConfig)
        ensures
            (match config.path {
                CodeGenSource::Single(item) => r.source@ == seq![item],
                CodeGenSource::List(items) => r.source == items,
            }),
            r.target == config.target,
            r.mode == config.mode,
            r.experimental_features == config.experimental_features,
    {
        let source = match config.path {
            CodeGenSource::Single(item) => {
                let mut v: Vec<String> = Vec::new();
                v.push(item);
                proof {
                    assert(v@ =~= seq![v@[0]]);
                }
                v
            },
            CodeGenSource::List(items) => items,
        };
        SqlInferConfig {
            source,
            target: config.target,
            mode: config.mode,
            experimental_features: config.experimental_features,
        }
    }
}

} // verus!
