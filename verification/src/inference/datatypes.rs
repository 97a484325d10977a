//! The width-refinement passes: text length and decimal precision, both
//! guarded by an explicit cast in the provenance — the syntactic witness
//! that the projection preserves the underlying column's declared shape.

use vstd::prelude::*;

use crate::inference::{
    spec_schema_lookup, InfoV, QueryItem, QueryItemV, SchemaMap, SqlType, SqlTypeV,
};
use crate::parser::{Column, ColumnV};

verus! {

/// Whether the provenance includes an explicit cast; `None` when the
/// shape does not support the question (operators, literals, unknowns).
pub open spec fn spec_includes_cast(c: ColumnV) -> Option<bool>
    decreases c,
{
    match c {
        ColumnV::DependsOn { .. } => Some(false),
        ColumnV::Maybe { column } => spec_includes_cast(*column),
        ColumnV::Either { left, right } => match (
            spec_includes_cast(*left),
            spec_includes_cast(*right),
        ) {
            (Some(a), Some(b)) => Some(a || b),
            _ => None,
        },
        ColumnV::Cast { .. } => Some(true),
        ColumnV::BinaryOp { .. } => None,
        ColumnV::Unknown { .. } => None,
        ColumnV::Value { .. } => None,
    }
}

/// Whether the provenance holds a `Cast` node anywhere.
pub open spec fn spec_contains_cast(c: ColumnV) -> bool
    decreases c,
{
    match c {
        ColumnV::DependsOn { .. } => false,
        ColumnV::Maybe { column } => spec_contains_cast(*column),
        ColumnV::Either { left, right } => spec_contains_cast(*left) || spec_contains_cast(*right),
        ColumnV::Cast { .. } => true,
        ColumnV::BinaryOp { left, right, .. } => spec_contains_cast(*left) || spec_contains_cast(
            *right,
        ),
        ColumnV::Unknown { .. } => false,
        ColumnV::Value { .. } => false,
    }
}

fn includes_cast(col: &Column) -> (r: Option<bool>)
    ensures
        r == spec_includes_cast(col@),
    decreases col,
{
    match col {
        Column::DependsOn { .. } => Some(false),
        Column::Maybe { column } => includes_cast(column),
        Column::Either { left, right } => {
            match (includes_cast(left), includes_cast(right)) {
                (Some(a), Some(b)) => Some(a || b),
                _ => None,
            }
        },
        Column::Cast { .. } => Some(true),
        Column::BinaryOp { .. } => None,
        Column::Unknown { .. } => None,
        Column::Value(..) => None,
    }
}

/// What the text-length pass does to one item: when the catalog answered
/// for the provenance, the cast guard holds, and the item is a character
/// type, the declared maximum length is taken over.
pub open spec fn spec_text_length(
    schemas: Seq<(ColumnV, InfoV)>,
    c: ColumnV,
    item: QueryItemV,
) -> QueryItemV {
    match spec_schema_lookup(schemas, c) {
        None => item,
        Some(info) => if spec_includes_cast(c) != Some(true) {
            item
        } else {
            match item.sql_type {
                SqlTypeV::Char { .. } => match info.character_maximum_length {
                    Some(l) => QueryItemV {
                        name: item.name,
                        sql_type: SqlTypeV::Char { length: Some(l as u32) },
                        nullable: item.nullable,
                    },
                    None => item,
                },
                SqlTypeV::VarChar { .. } => match info.character_maximum_length {
                    Some(l) => QueryItemV {
                        name: item.name,
                        sql_type: SqlTypeV::VarChar { length: Some(l as u32) },
                        nullable: item.nullable,
                    },
                    None => item,
                },
                _ => item,
            }
        },
    }
}

/// What the decimal-precision pass does to one item: when the catalog
/// answered, the cast guard holds, the item is a decimal, and the catalog
/// declares both precision and radix, both are taken over.
pub open spec fn spec_decimal_precision(
    schemas: Seq<(ColumnV, InfoV)>,
    c: ColumnV,
    item: QueryItemV,
) -> QueryItemV {
    match spec_schema_lookup(schemas, c) {
        None => item,
        Some(info) => if spec_includes_cast(c) != Some(true) {
            item
        } else {
            match item.sql_type {
                SqlTypeV::Decimal { .. } => match (
                    info.numeric_precision,
                    info.numeric_precision_radix,
                ) {
                    (Some(p), Some(rad)) => QueryItemV {
                        name: item.name,
                        sql_type: SqlTypeV::Decimal {
                            precision: Some(p as u32),
                            precision_radix: Some(rad as u32),
                        },
                        nullable: item.nullable,
                    },
                    _ => item,
                },
                _ => item,
            }
        },
    }
}

/// The pass that refines a character type's length from the catalog.
pub struct TextLength;

impl TextLength {
    /// Overwrites a character type's length from the catalog, under the
    /// cast guard; everything else stays as it was.
    pub fn apply(&self, schemas: &SchemaMap, column: &Column, item: &mut QueryItem)
        ensures
            final(item)@ == spec_text_length(schemas@, column@, old(item)@),
    {
        let info = match schemas.get(column) {
            Some(info) => info,
            None => {
                return ;
            },
        };
        match includes_cast(column) {
            Some(true) => {},
            _ => {
                return ;
            },
        }
        match &item.sql_type {
            SqlType::Char { .. } => {
                match info.character_maximum_length {
                    Some(l) => {
                        item.sql_type = SqlType::Char {
                            length: Some(#[verifier::truncate] (l as u32)),
                        };
                    },
                    None => {},
                }
            },
            SqlType::VarChar { .. } => {
                match info.character_maximum_length {
                    Some(l) => {
                        item.sql_type = SqlType::VarChar {
                            length: Some(#[verifier::truncate] (l as u32)),
                        };
                    },
                    None => {},
                }
            },
            _ => {},
        }
    }
}

/// The pass that refines a decimal's precision and radix from the
/// catalog.
pub struct DecimalPrecision;

impl DecimalPrecision {
    /// Overwrites a decimal's precision and radix from the catalog, under
    /// the cast guard; everything else stays as it was.
    pub fn apply(&self, schemas: &SchemaMap, column: &Column, item: &mut QueryItem)
        ensures
            final(item)@ == spec_decimal_precision(schemas@, column@, old(item)@),
    {
        let info = match schemas.get(column) {
            Some(info) => info,
            None => {
                return ;
            },
        };
        match includes_cast(column) {
            Some(true) => {},
            _ => {
                return ;
            },
        }
        match &item.sql_type {
            SqlType::Decimal { .. } => {
                match (info.numeric_precision, info.numeric_precision_radix) {
                    (Some(p), Some(rad)) => {
                        item.sql_type = SqlType::Decimal {
                            precision: Some(#[verifier::truncate] (p as u32)),
                            precision_radix: Some(#[verifier::truncate] (rad as u32)),
                        };
                    },
                    _ => {},
                }
            },
            _ => {},
        }
    }
}

proof fn lemma_no_cast_includes(c: ColumnV)
    requires
        !spec_contains_cast(c),
    ensures
        spec_includes_cast(c) != Some(true),
    decreases c,
{
    match c {
        ColumnV::Maybe { column } => {
            lemma_no_cast_includes(*column);
        },
        ColumnV::Either { left, right } => {
            lemma_no_cast_includes(*left);
            lemma_no_cast_includes(*right);
        },
        _ => {},
    }
}

/// Pass law, the cast guard: the width passes leave an item unchanged
/// whenever its provenance holds no `Cast` node.
pub proof fn lemma_cast_guard(schemas: Seq<(ColumnV, InfoV)>, c: ColumnV, item: QueryItemV)
    requires
        !spec_contains_cast(c),
    ensures
        spec_text_length(schemas, c, item) == item,
        spec_decimal_precision(schemas, c, item) == item,
{
    lemma_no_cast_includes(c);
}

} // verus!
