//! The live database schema as the schema command reads it back: tables,
//! their columns, and the declared types.

pub mod lint;

use vstd::prelude::*;

use crate::inference::SqlType;

verus! {

/// One table with its columns.
#[derive(Debug, PartialEq, Eq)]
pub struct TableSchema {
    pub name: String,
    pub columns: Vec<ColumnSchema>,
}

/// One column: its name, declared type, and nullability.
#[derive(Debug, PartialEq, Eq)]
pub struct ColumnSchema {
    pub name: String,
    pub data_type: SqlType,
    pub nullable: bool,
}

/// A whole schema.
#[derive(Debug, PartialEq, Eq)]
pub struct DbSchema {
    pub tables: Vec<TableSchema>,
}


/// `n` spaces.
pub open spec fn spec_spaces(n: nat) -> Seq<char>
    decreases n,
{
    if n == 0 {
        Seq::empty()
    } else {
        spec_spaces((n - 1) as nat) + seq![' ']
    }
}

/// `s` padded with spaces to width `w`; a string already that wide stays
/// as it is.
pub open spec fn spec_pad(s: Seq<char>, w: nat) -> Seq<char> {
    if w >= s.len() {
        s + spec_spaces((w - s.len()) as nat)
    } else {
        s
    }
}

/// The label of a column in the display: its name, with `?` appended when
/// it is nullable.
pub open spec fn spec_col_label(c: ColumnSchema) -> Seq<char> {
    if c.nullable {
        c.name@ + "?"@
    } else {
        c.name@
    }
}

/// The display width of a column: whichever of its label and its type
/// text is longer.
pub open spec fn spec_col_width(c: ColumnSchema) -> nat {
    let label = spec_col_label(c).len();
    let ty = crate::inference::spec_display_text(c.data_type@).len();
    if label >= ty {
        label
    } else {
        ty
    }
}

/// One table's block in the display: its name, then the padded column
/// labels, then the padded type texts, then a blank line.
pub open spec fn spec_table_block(t: TableSchema) -> Seq<char> {
    let labels = Seq::new(
        t.columns@.len(),
        |i: int| spec_pad(spec_col_label(t.columns@[i]), spec_col_width(t.columns@[i])),
    );
    let types = Seq::new(
        t.columns@.len(),
        |i: int|
            spec_pad(
                crate::inference::spec_display_text(t.columns@[i].data_type@),
                spec_col_width(t.columns@[i]),
            ),
    );
    t.name@ + "\n"@ + crate::utils::spec_join(labels, "  |  "@) + "\n"@ + crate::utils::spec_join(
        types,
        "  |  "@,
    ) + "\n"@ + "\n"@
}

/// The display of the tables from `k` on.
pub open spec fn spec_db_render(tables: Seq<TableSchema>, k: int) -> Seq<char>
    decreases tables.len() - k,
{
    if !(0 <= k < tables.len()) {
        Seq::empty()
    } else {
        spec_table_block(tables[k]) + spec_db_render(tables, k + 1)
    }
}

fn spaces(n: usize) -> (r: String)
    ensures
        r@ == spec_spaces(n as nat),
{
    let mut out = String::new();
    let mut i: usize = 0;
    while i < n
        invariant
            i <= n,
            out@ == spec_spaces(i as nat),
        decreases n - i,
    {
        out.append(" ");
        proof {
            reveal_strlit(" ");
            assert(out@ =~= spec_spaces((i + 1) as nat));
        }
        i = i + 1;
    }
    out
}

fn pad(s: &str, w: usize) -> (r: String)
    ensures
        r@ == spec_pad(s@, w as nat),
{
    let len = s.unicode_len();
    let mut out = String::new();
    out.append(s);
    if w >= len {
        let filler = spaces(w - len);
        out.append(filler.as_str());
    }
    out
}

impl DbSchema {
    /// Renders the schema as a table-per-block text: each table's name,
    /// then its column labels and type texts in two aligned rows.
    pub fn render(&self) -> (r: String)
        ensures
            r@ == spec_db_render(self.tables@, 0),
    {
        let mut out = String::new();
        let nt = self.tables.len();
        let mut k: usize = 0;
        while k < nt
            invariant
                nt == self.tables@.len(),
                k <= nt,
                spec_db_render(self.tables@, 0) == out@ + spec_db_render(self.tables@, k as int),
            decreases nt - k,
        {
            let table = &self.tables[k];
            let nc = table.columns.len();
            let mut labels: Vec<String> = Vec::new();
            let mut types: Vec<String> = Vec::new();
            let mut i: usize = 0;
            while i < nc
                invariant
                    nc == table.columns@.len(),
                    i <= nc,
                    labels.len() == i,
                    types.len() == i,
                    forall|j: int|
                        0 <= j < i ==> labels.deep_view()[j] == spec_pad(
                            spec_col_label(table.columns@[j]),
                            spec_col_width(table.columns@[j]),
                        ),
                    forall|j: int|
                        0 <= j < i ==> types.deep_view()[j] == spec_pad(
                            crate::inference::spec_display_text(table.columns@[j].data_type@),
                            spec_col_width(table.columns@[j]),
                        ),
                decreases nc - i,
            {
                let col = &table.columns[i];
                let mut label = String::new();
                label.append(col.name.as_str());
                if col.nullable {
                    label.append("?");
                }
                let ty = col.data_type.display_text();
                let lw = label.unicode_len();
                let tw = ty.unicode_len();
                let w = if lw >= tw {
                    lw
                } else {
                    tw
                };
                proof {
                    assert(*col == table.columns@[i as int]);
                    assert(label@ =~= spec_col_label(table.columns@[i as int]));
                    assert(w as nat == spec_col_width(table.columns@[i as int]));
                }
                let padded_label = pad(label.as_str(), w);
                let padded_type = pad(ty.as_str(), w);
                let ghost plv = padded_label@;
                let ghost ptv = padded_type@;
                let ghost prev_l = labels@;
                let ghost prev_l_deep = labels.deep_view();
                let ghost prev_t = types@;
                let ghost prev_t_deep = types.deep_view();
                labels.push(padded_label);
                types.push(padded_type);
                proof {
                    assert(labels@[i as int]@ == plv);
                    assert(types@[i as int]@ == ptv);
                    assert forall|j: int| 0 <= j < i + 1 implies labels.deep_view()[j] == spec_pad(
                        spec_col_label(table.columns@[j]),
                        spec_col_width(table.columns@[j]),
                    ) by {
                        assert(labels.deep_view()[j] == labels@[j].deep_view());
                        if j < i {
                            assert(labels@[j] == prev_l[j]);
                            assert(prev_l_deep[j] == prev_l[j].deep_view());
                        }
                    }
                    assert forall|j: int| 0 <= j < i + 1 implies types.deep_view()[j] == spec_pad(
                        crate::inference::spec_display_text(table.columns@[j].data_type@),
                        spec_col_width(table.columns@[j]),
                    ) by {
                        assert(types.deep_view()[j] == types@[j].deep_view());
                        if j < i {
                            assert(types@[j] == prev_t[j]);
                            assert(prev_t_deep[j] == prev_t[j].deep_view());
                        }
                    }
                }
                i = i + 1;
            }
            let ghost block = spec_table_block(self.tables@[k as int]);
            out.append(table.name.as_str());
            out.append("\n");
            let joined_labels = crate::utils::join_strings(&labels, "  |  ");
            out.append(joined_labels.as_str());
            out.append("\n");
            let joined_types = crate::utils::join_strings(&types, "  |  ");
            out.append(joined_types.as_str());
            out.append("\n");
            out.append("\n");
            proof {
                assert(*table == self.tables@[k as int]);
                assert(labels.deep_view() =~= Seq::new(
                    table.columns@.len(),
                    |i: int| spec_pad(
                        spec_col_label(table.columns@[i]),
                        spec_col_width(table.columns@[i]),
                    ),
                ));
                assert(types.deep_view() =~= Seq::new(
                    table.columns@.len(),
                    |i: int|
                        spec_pad(
                            crate::inference::spec_display_text(table.columns@[i].data_type@),
                            spec_col_width(table.columns@[i]),
                        ),
                ));
                assert(spec_db_render(self.tables@, k as int) == block + spec_db_render(
                    self.tables@,
                    k + 1,
                ));
                assert(spec_db_render(self.tables@, 0) =~= out@ + spec_db_render(
                    self.tables@,
                    (k + 1) as int,
                ));
            }
            k = k + 1;
        }
        proof {
            assert(spec_db_render(self.tables@, nt as int) =~= Seq::<char>::empty());
            assert(out@ =~= spec_db_render(self.tables@, 0));
        }
        out
    }
}

} // verus!
