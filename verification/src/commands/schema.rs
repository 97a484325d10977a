//! Arguments of the schema command: inspect or lint the live database
//! schema.

use vstd::prelude::*;

verus! {

/// What the schema command does.
#[derive(Debug, Clone, Copy, PartialEq, Eq, Structural)]
pub enum Analysis {
    Display,
    Lint,
}

/// One schema run: the chosen action and the configuration file to read,
/// when not the default.
#[derive(Debug, PartialEq, Eq)]
pub struct Schema {
    pub analysis: Analysis,
    pub config: Option<String>,
}

} // verus!
