//! Emitters: consume inferred query signatures and produce output text, a
//! JSON manifest or Python bindings.

pub mod json;
pub mod py_utils;
pub mod sqlalchemy_v2;

use vstd::prelude::*;

use crate::inference::{QueryItem, QueryItemV};

verus! {

/// One query as handed to an emitter: its raw SQL text, its inputs under
/// their declared placeholder names, and its outputs.
#[derive(Debug, PartialEq, Eq)]
pub struct QueryDefinition {
    pub query: String,
    pub inputs: Vec<QueryItem>,
    pub outputs: Vec<QueryItem>,
}

/// The mathematical shape of a `QueryDefinition`.
pub ghost struct QueryDefinitionV {
    pub query: Seq<char>,
    pub inputs: Seq<QueryItemV>,
    pub outputs: Seq<QueryItemV>,
}

impl View for QueryDefinition {
    type V = QueryDefinitionV;

    open spec fn view(&self) -> QueryDefinitionV {
        QueryDefinitionV {
            query: self.query@,
            inputs: self.inputs.deep_view(),
            outputs: self.outputs.deep_view(),
        }
    }
}

/// An emitter: queries go in one by one under their logical names, the
/// finished artifact comes out as text.
pub trait CodeGen {
    fn push(&mut self, name: &str, query: QueryDefinition);

    fn finalize(&self) -> String;
}

/// The views of a (name, query) entry list.
pub open spec fn entry_views_of(entries: Seq<(String, QueryDefinition)>) -> Seq<
    (Seq<char>, QueryDefinitionV),
> {
    Seq::new(entries.len(), |i: int| (entries[i].0@, entries[i].1@))
}

/// Inserts into a name-sorted entry list, replacing an entry with the
/// same name.
pub open spec fn spec_map_insert(
    entries: Seq<(Seq<char>, QueryDefinitionV)>,
    name: Seq<char>,
    q: QueryDefinitionV,
) -> Seq<(Seq<char>, QueryDefinitionV)>
    decreases entries.len(),
{
    if entries.len() == 0 {
        seq![(name, q)]
    } else if entries.last().0 == name {
        entries.drop_last().push((name, q))
    } else if crate::utils::spec_str_lt(entries.last().0, name) {
        entries.push((name, q))
    } else {
        spec_map_insert(entries.drop_last(), name, q).push(entries.last())
    }
}

} // verus!
