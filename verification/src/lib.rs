//! Static type inference for parameterized PostgreSQL queries.
//!
//! Given a query that uses named `:placeholder` parameters, the library
//! rewrites it to PostgreSQL's positional `$N` form, resolves each projected
//! column to an algebraic provenance expression over the physical tables,
//! and refines driver-reported column types with catalog metadata
//! (nullability, text length, decimal precision).

pub mod adapter;
pub mod codegen;
pub mod commands;
pub mod config;
pub mod inference;
pub mod parser;
pub mod schema;
pub mod syntax;
pub mod utils;

use vstd::prelude::*;

use crate::inference::datatypes::{spec_decimal_precision, spec_text_length};
use crate::inference::nullability::spec_column_nullable;
use crate::inference::{
    spec_type_of_name, DriverColumn, DriverType, InfoV, QueryItem, QueryItemV, SchemaMap,
};
use crate::parser::{Column, ColumnV};

verus! {

/// One registered refinement pass.
#[derive(Debug, Clone, Copy, PartialEq, Eq, Structural)]
pub enum Pass {
    Nullability,
    TextLength,
    DecimalPrecision,
}

/// What one pass does to one output item.
pub open spec fn spec_apply_pass(
    p: Pass,
    schemas: Seq<(ColumnV, InfoV)>,
    c: ColumnV,
    item: QueryItemV,
) -> QueryItemV {
    match p {
        Pass::Nullability => QueryItemV {
            name: item.name,
            sql_type: item.sql_type,
            nullable: spec_column_nullable(c, schemas),
        },
        Pass::TextLength => spec_text_length(schemas, c, item),
        Pass::DecimalPrecision => spec_decimal_precision(schemas, c, item),
    }
}

/// The passes applied left to right; a later pass sees what the earlier
/// ones made of the item.
pub open spec fn spec_apply_passes(
    passes: Seq<Pass>,
    schemas: Seq<(ColumnV, InfoV)>,
    c: ColumnV,
    item: QueryItemV,
) -> QueryItemV
    decreases passes.len(),
{
    if passes.len() == 0 {
        item
    } else {
        spec_apply_passes(
            passes.drop_first(),
            schemas,
            c,
            spec_apply_pass(passes.first(), schemas, c, item),
        )
    }
}

/// Collects the passes an inference run will apply, in order.
pub struct SqlInferBuilder {
    passes: Vec<Pass>,
}

impl View for SqlInferBuilder {
    type V = Seq<Pass>;

    closed spec fn view(&self) -> Seq<Pass> {
        self.passes@
    }
}

impl Default for SqlInferBuilder {
    /// A builder with no pass registered.
    fn default() -> (r: Self)
        ensures
            r@ == Seq::<Pass>::empty(),
    {
        let r = SqlInferBuilder { passes: Vec::new() };
        proof {
            assert(r@ =~= Seq::<Pass>::empty());
        }
        r
    }
}

impl SqlInferBuilder {
    /// Registers one more catalog-driven pass.
    pub fn add_information_schema_pass(&mut self, pass: Pass)
        ensures
            final(self)@ == old(self)@.push(pass),
    {
        self.passes.push(pass);
    }

    /// Freezes the pass list.
    pub fn build(self) -> (r: SqlInfer)
        ensures
            r@ == self@,
    {
        SqlInfer { passes: self.passes }
    }
}

/// An inference configuration: the passes to run on each output item.
pub struct SqlInfer {
    passes: Vec<Pass>,
}

impl View for SqlInfer {
    type V = Seq<Pass>;

    closed spec fn view(&self) -> Seq<Pass> {
        self.passes@
    }
}

impl SqlInfer {
    /// Refines one output item by every registered pass, in registration
    /// order, against the catalog rows collected for its provenance.
    pub fn update_with_info(
        &self,
        schemas: &SchemaMap,
        source: &Column,
        item: &mut QueryItem,
    )
        ensures
            final(item)@ == spec_apply_passes(self@, schemas@, source@, old(item)@),
    {
        let n = self.passes.len();
        let mut i: usize = 0;
        proof {
            assert(self@.skip(0) =~= self@);
        }
        while i < n
            invariant
                n == self.passes.len(),
                i <= n,
                spec_apply_passes(self@, schemas@, source@, old(item)@) == spec_apply_passes(
                    self@.skip(i as int),
                    schemas@,
                    source@,
                    item@,
                ),
            decreases n - i,
        {
            proof {
                assert(self@.skip(i as int).first() == self@[i as int]);
                assert(self@.skip(i as int).drop_first() =~= self@.skip(i + 1));
            }
            match self.passes[i] {
                Pass::Nullability => {
                    let pass = crate::inference::nullability::ColumnNullability;
                    pass.apply(schemas, source, item);
                },
                Pass::TextLength => {
                    let pass = crate::inference::datatypes::TextLength;
                    pass.apply(schemas, source, item);
                },
                Pass::DecimalPrecision => {
                    let pass = crate::inference::datatypes::DecimalPrecision;
                    pass.apply(schemas, source, item);
                },
            }
            i = i + 1;
        }
        proof {
            assert(self@.skip(n as int) =~= Seq::<Pass>::empty());
        }
    }
}

/// The item a driver-reported column or parameter stands for before any
/// pass runs: its reported type, nullability unknown.
pub open spec fn spec_driver_item(name: Seq<char>, t: DriverType) -> QueryItemV {
    QueryItemV {
        name,
        sql_type: match t.enum_tags {
            Some(tags) => crate::inference::SqlTypeV::Enum {
                name: t.reported_name@,
                tags: tags.deep_view(),
            },
            None => spec_type_of_name(t.reported_name@)@,
        },
        nullable: crate::inference::Nullability::Unknown,
    }
}

/// Builds the base output items from the driver's column metadata, in
/// the driver's order.
pub fn outputs_from_driver(columns: &Vec<DriverColumn>) -> (r: Vec<QueryItem>)
    ensures
        r.deep_view().len() == columns@.len(),
        forall|i: int|
            0 <= i < columns@.len() ==> r.deep_view()[i] == spec_driver_item(
                columns@[i].name@,
                columns@[i].data_type,
            ),
{
    let mut out: Vec<QueryItem> = Vec::new();
    let n = columns.len();
    let mut i: usize = 0;
    while i < n
        invariant
            n == columns.len(),
            i <= n,
            out.len() == i,
            forall|j: int|
                0 <= j < i ==> out.deep_view()[j] == spec_driver_item(
                    columns@[j].name@,
                    columns@[j].data_type,
                ),
        decreases n - i,
    {
        let c = &columns[i];
        let tags: Option<Vec<String>> = match &c.data_type.enum_tags {
            Some(ts) => Some(crate::inference::clone_string_vec(ts)),
            None => None,
        };
        let item = QueryItem {
            name: c.name.clone(),
            sql_type: crate::inference::SqlType::from_driver_type(
                c.data_type.reported_name.as_str(),
                tags,
            ),
            nullable: crate::inference::Nullability::Unknown,
        };
        let ghost item_view = item@;
        let ghost prev = out@;
        let ghost prev_deep = out.deep_view();
        out.push(item);
        proof {
            assert(out@[i as int]@ == item_view);
            assert forall|j: int| 0 <= j < i + 1 implies out.deep_view()[j] == spec_driver_item(
                columns@[j].name@,
                columns@[j].data_type,
            ) by {
                assert(out.deep_view()[j] == out@[j].deep_view());
                if j < i {
                    assert(out@[j] == prev[j]);
                    assert(prev_deep[j] == prev[j].deep_view());
                }
            }
        }
        i = i + 1;
    }
    out
}

/// Builds the base input items: the rewriter's parameter names paired
/// with the driver's parameter types, in order; the shorter list bounds
/// the result.
pub fn inputs_from_driver(names: &Vec<String>, types: &Vec<DriverType>) -> (r: Vec<QueryItem>)
    ensures
        r.deep_view().len() == vstd::math::min(names@.len() as int, types@.len() as int),
        forall|i: int|
            0 <= i < r.deep_view().len() ==> r.deep_view()[i] == spec_driver_item(
                names@[i]@,
                types@[i],
            ),
{
    let mut out: Vec<QueryItem> = Vec::new();
    let n = if names.len() < types.len() {
        names.len()
    } else {
        types.len()
    };
    let mut i: usize = 0;
    while i < n
        invariant
            n == vstd::math::min(names@.len() as int, types@.len() as int),
            i <= n,
            out.len() == i,
            forall|j: int|
                0 <= j < i ==> out.deep_view()[j] == spec_driver_item(names@[j]@, types@[j]),
        decreases n - i,
    {
        let t = &types[i];
        let tags: Option<Vec<String>> = match &t.enum_tags {
            Some(ts) => Some(crate::inference::clone_string_vec(ts)),
            None => None,
        };
        let item = QueryItem {
            name: names[i].clone(),
            sql_type: crate::inference::SqlType::from_driver_type(t.reported_name.as_str(), tags),
            nullable: crate::inference::Nullability::Unknown,
        };
        let ghost item_view = item@;
        let ghost prev = out@;
        let ghost prev_deep = out.deep_view();
        out.push(item);
        proof {
            assert(out@[i as int]@ == item_view);
            assert forall|j: int| 0 <= j < i + 1 implies out.deep_view()[j] == spec_driver_item(
                names@[j]@,
                types@[j],
            ) by {
                assert(out.deep_view()[j] == out@[j].deep_view());
                if j < i {
                    assert(out@[j] == prev[j]);
                    assert(prev_deep[j] == prev[j].deep_view());
                }
            }
        }
        i = i + 1;
    }
    out
}

} // verus!

verus! {

/// Doubles every `"` in `s`, the escape PostgreSQL uses inside quoted
/// identifiers.
pub open spec fn spec_double_quotes(s: Seq<char>) -> Seq<char>
    decreases s.len(),
{
    if s.len() == 0 {
        Seq::empty()
    } else if s.last() == '"' {
        spec_double_quotes(s.drop_last()) + seq!['"', '"']
    } else {
        spec_double_quotes(s.drop_last()) + seq![s.last()]
    }
}

/// The quoted form of an identifier: `"` + the identifier with every inner
/// `"` doubled + `"`.
pub open spec fn spec_escape_ident(s: Seq<char>) -> Seq<char> {
    seq!['"'] + spec_double_quotes(s) + seq!['"']
}

/// Quotes an identifier so it can be spliced into SQL text: wraps it in
/// double quotes and doubles any double quote it contains.
pub fn escape_ident(ident: &str) -> (r: String)
    ensures
        r@ == spec_escape_ident(ident@),
{
    let mut out = String::new();
    out.append("\"");
    proof {
        reveal_strlit("\"");
        assert(out@ =~= seq!['"'] + spec_double_quotes(ident@.take(0)));
    }
    let len = ident.unicode_len();
    let mut i: usize = 0;
    while i < len
        invariant
            len == ident@.len(),
            i <= len,
            out@ == seq!['"'] + spec_double_quotes(ident@.take(i as int)),
        decreases len - i,
    {
        let ghost prefix = ident@.take(i as int);
        let c = ident.get_char(i);
        if c == '"' {
            out.append("\"\"");
        } else {
            let piece = ident.substring_char(i, i + 1);
            out.append(piece);
        }
        proof {
            reveal_strlit("\"");
            reveal_strlit("\"\"");
            assert(ident@.take(i + 1 as int).drop_last() =~= prefix);
            assert(ident@.take(i + 1 as int).last() == c);
            if c == '"' {
                assert(out@ =~= seq!['"'] + spec_double_quotes(ident@.take(i + 1 as int)));
            } else {
                assert(out@ =~= seq!['"'] + spec_double_quotes(ident@.take(i + 1 as int)));
            }
        }
        i = i + 1;
    }
    out.append("\"");
    proof {
        reveal_strlit("\"");
        assert(ident@.take(len as int) =~= ident@);
        assert(out@ =~= spec_escape_ident(ident@));
    }
    out
}

} // verus!
