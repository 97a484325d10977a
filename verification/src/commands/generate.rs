//! Arguments of the generation command: read the configuration and write
//! the output artifact.

use vstd::prelude::*;

verus! {

/// One generation run: the configuration file to read, when not the
/// default.
#[derive(Debug, PartialEq, Eq)]
pub struct Generate {
    pub config: Option<String>,
}

} // verus!
