//! The nullability pass: folds a provenance expression into a trivalent
//! answer, reading catalog rows for the physical columns involved.

use vstd::prelude::*;

use crate::inference::{
    spec_schema_lookup, InfoV, Nullability, QueryItem, QueryItemV, SchemaMap,
};
use crate::parser::{BinaryOpDataV, Column, ColumnV, ValueType};

verus! {

/// Whether an operator guarantees a non-null result whatever its
/// arguments; none of the classified operators does.
pub open spec fn spec_op_not_null(op: BinaryOpDataV) -> Option<bool> {
    Some(false)
}

/// Nullability as a fold over provenance: a physical column answers with
/// its catalog row, a `Maybe` is nullable outright, an `Either` is
/// nullable when its first alternative is and falls back to the second
/// when the first is certainly not null, a cast is as nullable as its
/// source, a binary operation folds like `Either` unless its operator
/// rules nullability out, a literal is nullable exactly when it is
/// `NULL`, and anything unknown stays unknown.
pub open spec fn spec_column_nullable(
    c: ColumnV,
    schemas: Seq<(ColumnV, InfoV)>,
) -> Nullability
    decreases c,
{
    match c {
        ColumnV::DependsOn { .. } => match spec_schema_lookup(schemas, c) {
            Some(info) => match info.is_nullable {
                Some(true) => Nullability::True,
                Some(false) => Nullability::False,
                None => Nullability::Unknown,
            },
            None => Nullability::Unknown,
        },
        ColumnV::Maybe { .. } => Nullability::True,
        ColumnV::Either { left, right } => match spec_column_nullable(*left, schemas) {
            Nullability::True => Nullability::True,
            Nullability::False => spec_column_nullable(*right, schemas),
            Nullability::Unknown => Nullability::Unknown,
        },
        ColumnV::Unknown { .. } => Nullability::Unknown,
        ColumnV::Cast { source, .. } => spec_column_nullable(*source, schemas),
        ColumnV::BinaryOp { op, left, right } => if spec_op_not_null(op) == Some(true) {
            Nullability::False
        } else {
            match spec_column_nullable(*left, schemas) {
                Nullability::True => Nullability::True,
                Nullability::False => spec_column_nullable(*right, schemas),
                Nullability::Unknown => Nullability::Unknown,
            }
        },
        ColumnV::Value { value } => match value {
            ValueType::Null => Nullability::True,
            _ => Nullability::False,
        },
    }
}

fn column_is_nullable(col: &Column, schemas: &SchemaMap) -> (r: Nullability)
    ensures
        r == spec_column_nullable(col@, schemas@),
    decreases col,
{
    match col {
        Column::DependsOn { .. } => {
            match schemas.get(col) {
                Some(info) => {
                    match info.is_nullable {
                        Some(true) => Nullability::True,
                        Some(false) => Nullability::False,
                        None => Nullability::Unknown,
                    }
                },
                None => Nullability::Unknown,
            }
        },
        Column::Maybe { .. } => Nullability::True,
        Column::Either { left, right } => {
            match column_is_nullable(left, schemas) {
                Nullability::True => Nullability::True,
                Nullability::False => column_is_nullable(right, schemas),
                Nullability::Unknown => Nullability::Unknown,
            }
        },
        Column::Unknown { .. } => Nullability::Unknown,
        Column::Cast { source, .. } => column_is_nullable(source, schemas),
        Column::BinaryOp { op, left, right } => {
            match op.not_null() {
                Some(true) => Nullability::False,
                _ => {
                    match column_is_nullable(left, schemas) {
                        Nullability::True => Nullability::True,
                        Nullability::False => column_is_nullable(right, schemas),
                        Nullability::Unknown => Nullability::Unknown,
                    }
                },
            }
        },
        Column::Value(value) => {
            match value {
                ValueType::Null => Nullability::True,
                _ => Nullability::False,
            }
        },
    }
}

/// The pass that sets an output item's nullability from its provenance.
pub struct ColumnNullability;

impl ColumnNullability {
    /// Sets the item's nullability to the provenance fold; name and type
    /// stay as they were.
    pub fn apply(&self, schemas: &SchemaMap, source: &Column, item: &mut QueryItem)
        ensures
            final(item)@ == (QueryItemV {
                nullable: spec_column_nullable(source@, schemas@),
                ..old(item)@
            }),
    {
        item.nullable = column_is_nullable(source, schemas);
    }
}

/// Pass law: a column resolved to a physical catalog column is nullable
/// exactly as the catalog says, and unknown when the catalog gave no row.
pub proof fn lemma_nullability_depends_on(
    table: Seq<char>,
    column: Seq<char>,
    schemas: Seq<(ColumnV, InfoV)>,
)
    ensures
        ({
            let c = ColumnV::DependsOn { table, column };
            match spec_schema_lookup(schemas, c) {
                Some(info) => (info.is_nullable == Some(false)
                    ==> spec_column_nullable(c, schemas) == Nullability::False) && (
                info.is_nullable == Some(true) ==> spec_column_nullable(c, schemas)
                    == Nullability::True),
                None => spec_column_nullable(c, schemas) == Nullability::Unknown,
            }
        }),
{
}

/// Pass law: a provenance wrapped in `Maybe` is nullable, whatever it
/// wraps.
pub proof fn lemma_nullability_maybe(inner: ColumnV, schemas: Seq<(ColumnV, InfoV)>)
    ensures
        spec_column_nullable(ColumnV::Maybe { column: Box::new(inner) }, schemas)
            == Nullability::True,
{
}

/// Pass law: a `NULL` literal is nullable; every other literal is not.
pub proof fn lemma_nullability_value(value: ValueType, schemas: Seq<(ColumnV, InfoV)>)
    ensures
        spec_column_nullable(ColumnV::Value { value }, schemas) == (if value == ValueType::Null {
            Nullability::True
        } else {
            Nullability::False
        }),
{
}

} // verus!
