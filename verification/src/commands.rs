//! The commands the command-line program offers; each struct carries the
//! arguments its runner in the surrounding program works from.

pub mod analyze;
pub mod generate;
pub mod schema;
