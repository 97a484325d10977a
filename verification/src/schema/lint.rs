//! Schema lints: checks over the read-back schema, each yielding one
//! finding per flagged column.

use vstd::prelude::*;

use crate::inference::SqlTypeV;
use crate::schema::{ColumnSchema, DbSchema, TableSchema};

verus! {

/// How a lint's findings are treated.
#[derive(Debug, Clone, Copy, PartialEq, Eq, Structural)]
pub enum LintSetting {
    Allow,
    Warn,
    Deny,
}

/// What a finding points at.
#[derive(Debug, PartialEq, Eq)]
pub enum Source {
    Table(String),
    Column { table: String, column: String },
}

/// One finding: where, and what is wrong.
#[derive(Debug, PartialEq, Eq)]
pub struct LintError {
    pub source: Source,
    pub msg: String,
}

/// The (table, column) pair a finding points at; a table finding repeats
/// the table name.
pub open spec fn err_pair(e: LintError) -> (Seq<char>, Seq<char>) {
    match e.source {
        Source::Table(t) => (t@, t@),
        Source::Column { table, column } => (table@, column@),
    }
}

/// The pairs of a finding list, in order.
pub open spec fn err_pairs(s: Seq<LintError>) -> Seq<(Seq<char>, Seq<char>)> {
    Seq::new(s.len(), |j: int| err_pair(s[j]))
}

/// Whether a column's type is what the lint looks for.
pub open spec fn spec_col_flagged(t: SqlTypeV, timestamps: bool) -> bool {
    if timestamps {
        t matches SqlTypeV::Timestamp { tz: true }
    } else {
        t matches SqlTypeV::Time { tz: false }
    }
}

/// The flagged (table, column) pairs of one table's columns, from `i` on.
pub open spec fn spec_cols_flags(
    tname: Seq<char>,
    cols: Seq<ColumnSchema>,
    i: int,
    timestamps: bool,
) -> Seq<(Seq<char>, Seq<char>)>
    decreases cols.len() - i,
{
    if !(0 <= i < cols.len()) {
        Seq::empty()
    } else {
        let here: Seq<(Seq<char>, Seq<char>)> = if spec_col_flagged(cols[i].data_type@, timestamps) {
            seq![(tname, cols[i].name@)]
        } else {
            Seq::empty()
        };
        here + spec_cols_flags(tname, cols, i + 1, timestamps)
    }
}

/// The flagged pairs of a whole schema, from table `k` on.
pub open spec fn spec_db_flags(tables: Seq<TableSchema>, k: int, timestamps: bool) -> Seq<
    (Seq<char>, Seq<char>),
>
    decreases tables.len() - k,
{
    if !(0 <= k < tables.len()) {
        Seq::empty()
    } else {
        spec_cols_flags(tables[k].name@, tables[k].columns@, 0, timestamps) + spec_db_flags(
            tables,
            k + 1,
            timestamps,
        )
    }
}

fn run_lint(db: &DbSchema, timestamps: bool, msg: &str) -> (r: Vec<LintError>)
    ensures
        err_pairs(r@) == spec_db_flags(db.tables@, 0, timestamps),
        forall|j: int| 0 <= j < r@.len() ==> #[trigger] r@[j].msg@ == msg@,
        forall|j: int|
            0 <= j < r@.len() ==> (#[trigger] r@[j].source matches Source::Column { .. }),
{
    let mut out: Vec<LintError> = Vec::new();
    let nt = db.tables.len();
    let mut k: usize = 0;
    proof {
        assert(err_pairs(out@) =~= Seq::<(Seq<char>, Seq<char>)>::empty());
        assert(err_pairs(out@) + spec_db_flags(db.tables@, 0, timestamps) =~= spec_db_flags(
            db.tables@,
            0,
            timestamps,
        ));
    }
    while k < nt
        invariant
            nt == db.tables@.len(),
            k <= nt,
            spec_db_flags(db.tables@, 0, timestamps) == err_pairs(out@) + spec_db_flags(
                db.tables@,
                k as int,
                timestamps,
            ),
            forall|j: int| 0 <= j < out@.len() ==> #[trigger] out@[j].msg@ == msg@,
            forall|j: int|
                0 <= j < out@.len() ==> (#[trigger] out@[j].source matches Source::Column { .. }),
        decreases nt - k,
    {
        let table = &db.tables[k];
        let nc = table.columns.len();
        let mut i: usize = 0;
        while i < nc
            invariant
                nt == db.tables@.len(),
                k < nt,
                *table == db.tables@[k as int],
                nc == table.columns@.len(),
                i <= nc,
                spec_db_flags(db.tables@, 0, timestamps) == err_pairs(out@) + spec_cols_flags(
                    db.tables@[k as int].name@,
                    db.tables@[k as int].columns@,
                    i as int,
                    timestamps,
                ) + spec_db_flags(db.tables@, k + 1, timestamps),
                forall|j: int| 0 <= j < out@.len() ==> #[trigger] out@[j].msg@ == msg@,
                forall|j: int|
                    0 <= j < out@.len() ==> (#[trigger] out@[j].source matches Source::Column {
                        ..
                    }),
            decreases nc - i,
        {
            let col = &table.columns[i];
            let flagged = if timestamps {
                matches!(col.data_type, crate::inference::SqlType::Timestamp { tz: true })
            } else {
                matches!(col.data_type, crate::inference::SqlType::Time { tz: false })
            };
            proof {
                assert(*col == db.tables@[k as int].columns@[i as int]);
                assert(flagged == spec_col_flagged(
                    db.tables@[k as int].columns@[i as int].data_type@,
                    timestamps,
                ));
            }
            if flagged {
                let ghost prev = out@;
                out.push(
                    LintError {
                        source: Source::Column { table: table.name.clone(), column: col.name.clone() },
                        msg: msg.to_owned(),
                    },
                );
                proof {
                    assert(err_pairs(out@) =~= err_pairs(prev).push(
                        (db.tables@[k as int].name@, db.tables@[k as int].columns@[i as int].name@),
                    ));
                    assert(err_pairs(prev).push(
                        (db.tables@[k as int].name@, db.tables@[k as int].columns@[i as int].name@),
                    ) + spec_cols_flags(
                        db.tables@[k as int].name@,
                        db.tables@[k as int].columns@,
                        i + 1,
                        timestamps,
                    ) =~= err_pairs(prev) + spec_cols_flags(
                        db.tables@[k as int].name@,
                        db.tables@[k as int].columns@,
                        i as int,
                        timestamps,
                    ));
                }
            } else {
                proof {
                    assert(err_pairs(out@) + spec_cols_flags(
                        db.tables@[k as int].name@,
                        db.tables@[k as int].columns@,
                        i + 1,
                        timestamps,
                    ) =~= err_pairs(out@) + spec_cols_flags(
                        db.tables@[k as int].name@,
                        db.tables@[k as int].columns@,
                        i as int,
                        timestamps,
                    ));
                }
            }
            i = i + 1;
        }
        proof {
            assert(spec_cols_flags(
                db.tables@[k as int].name@,
                db.tables@[k as int].columns@,
                nc as int,
                timestamps,
            ) =~= Seq::<(Seq<char>, Seq<char>)>::empty());
            assert(err_pairs(out@) + Seq::<(Seq<char>, Seq<char>)>::empty() =~= err_pairs(out@));
        }
        k = k + 1;
    }
    proof {
        assert(spec_db_flags(db.tables@, nt as int, timestamps) =~= Seq::<
            (Seq<char>, Seq<char>),
        >::empty());
        assert(err_pairs(out@) + Seq::<(Seq<char>, Seq<char>)>::empty() =~= err_pairs(out@));
    }
    out
}

/// A schema check.
pub trait Lint {
    fn lint(&self, db: &DbSchema) -> Vec<LintError>;
}

/// Flags every `timestamp with time zone` column.
pub struct TimestampWithoutTimezone;

impl TimestampWithoutTimezone {
    /// One finding per column whose type is `Timestamp { tz: true }`, in
    /// schema order.
    pub fn lint(&self, db: &DbSchema) -> (r: Vec<LintError>)
        ensures
            err_pairs(r@) == spec_db_flags(db.tables@, 0, true),
            forall|j: int|
                0 <= j < r@.len() ==> #[trigger] r@[j].msg@ == "timestamp has no timezone"@,
            forall|j: int|
                0 <= j < r@.len() ==> (#[trigger] r@[j].source matches Source::Column { .. }),
    {
        run_lint(db, true, "timestamp has no timezone")
    }
}

impl Lint for TimestampWithoutTimezone {
    fn lint(&self, db: &DbSchema) -> Vec<LintError> {
        TimestampWithoutTimezone::lint(self, db)
    }
}

/// Flags every `time without time zone` column.
pub struct TimeWithTimezone;

impl TimeWithTimezone {
    /// One finding per column whose type is `Time { tz: false }`, in
    /// schema order.
    pub fn lint(&self, db: &DbSchema) -> (r: Vec<LintError>)
        ensures
            err_pairs(r@) == spec_db_flags(db.tables@, 0, false),
            forall|j: int|
                0 <= j < r@.len() ==> #[trigger] r@[j].msg@ == "time has timezone"@,
            forall|j: int|
                0 <= j < r@.len() ==> (#[trigger] r@[j].source matches Source::Column { .. }),
    {
        run_lint(db, false, "time has timezone")
    }
}

impl Lint for TimeWithTimezone {
    fn lint(&self, db: &DbSchema) -> Vec<LintError> {
        TimeWithTimezone::lint(self, db)
    }
}

} // verus!
