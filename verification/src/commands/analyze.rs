//! Arguments of the analysis command: print provenance findings for
//! queries given on the command line or in files.

use vstd::prelude::*;

verus! {

/// What the analysis prints.
#[derive(Debug, Clone, Copy, PartialEq, Eq, Structural)]
pub enum Analysis {
    Columns,
    ColumnsWithDb,
    Tables,
}

/// One analysis run: the chosen report and the queries to analyze.
#[derive(Debug, PartialEq, Eq)]
pub struct Analyze {
    pub analysis: Analysis,
    pub query: Vec<String>,
}

} // verus!
