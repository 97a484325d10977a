//! The JSON emitter: renders the query manifest as one JSON object whose
//! keys are the logical query names, sorted, with types as tagged
//! variants and nullability as `"True" | "False" | "Unknown"`.

use vstd::prelude::*;

use crate::codegen::{spec_map_insert, QueryDefinition, QueryDefinitionV};
use crate::inference::{Nullability, QueryItem, QueryItemV, SqlType, SqlTypeV};
use crate::utils::{join_strings, spec_dec_digits, spec_join, usize_to_dec};

verus! {

/// The hexadecimal digit character for `d`, which must be below sixteen.
pub open spec fn hex_char(d: nat) -> char {
    if d < 10 {
        crate::utils::digit_char(d)
    } else if d == 10 {
        'a'
    } else if d == 11 {
        'b'
    } else if d == 12 {
        'c'
    } else if d == 13 {
        'd'
    } else if d == 14 {
        'e'
    } else {
        'f'
    }
}

/// One character as it stands inside a JSON string: quotes and
/// backslashes are escaped, control characters take the `\u00XX` form.
pub open spec fn spec_json_char(c: char) -> Seq<char> {
    if c == '"' {
        seq!['\\', '"']
    } else if c == '\\' {
        seq!['\\', '\\']
    } else if c == '\n' {
        seq!['\\', 'n']
    } else if c == '\r' {
        seq!['\\', 'r']
    } else if c == '\t' {
        seq!['\\', 't']
    } else if (c as u32) < 32 {
        "\\u00"@ + seq![hex_char((c as u32 / 16) as nat), hex_char((c as u32 % 16) as nat)]
    } else {
        seq![c]
    }
}

/// A character sequence escaped for JSON.
pub open spec fn spec_json_escape(s: Seq<char>) -> Seq<char>
    decreases s.len(),
{
    if s.len() == 0 {
        Seq::empty()
    } else {
        spec_json_escape(s.drop_last()) + spec_json_char(s.last())
    }
}

/// A JSON string literal.
pub open spec fn spec_json_string(s: Seq<char>) -> Seq<char> {
    seq!['"'] + spec_json_escape(s) + seq!['"']
}

fn hex_str(d: u32) -> (r: &'static str)
    requires
        d < 16,
    ensures
        r@ =~= seq![hex_char(d as nat)],
{
    proof {
        reveal_strlit("a");
        reveal_strlit("b");
        reveal_strlit("c");
        reveal_strlit("d");
        reveal_strlit("e");
        reveal_strlit("f");
    }
    if d < 10 {
        crate::utils::digit_str_of(d)
    } else if d == 10 {
        "a"
    } else if d == 11 {
        "b"
    } else if d == 12 {
        "c"
    } else if d == 13 {
        "d"
    } else if d == 14 {
        "e"
    } else {
        "f"
    }
}

/// Escapes a string for inclusion in JSON text.
pub fn json_escape(s: &str) -> (r: String)
    ensures
        r@ == spec_json_escape(s@),
{
    let len = s.unicode_len();
    let mut out = String::new();
    let mut i: usize = 0;
    while i < len
        invariant
            len == s@.len(),
            i <= len,
            out@ == spec_json_escape(s@.take(i as int)),
        decreases len - i,
    {
        let c = s.get_char(i);
        proof {
            assert(s@.take(i + 1).drop_last() =~= s@.take(i as int));
            assert(s@.take(i + 1).last() == c);
        }
        if c == '"' {
            out.append("\\\"");
            proof {
                reveal_strlit("\\\"");
                assert("\\\""@ =~= spec_json_char(c));
            }
        } else if c == '\\' {
            out.append("\\\\");
            proof {
                reveal_strlit("\\\\");
                assert("\\\\"@ =~= spec_json_char(c));
            }
        } else if c == '\n' {
            out.append("\\n");
            proof {
                reveal_strlit("\\n");
                assert("\\n"@ =~= spec_json_char(c));
            }
        } else if c == '\r' {
            out.append("\\r");
            proof {
                reveal_strlit("\\r");
                assert("\\r"@ =~= spec_json_char(c));
            }
        } else if c == '\t' {
            out.append("\\t");
            proof {
                reveal_strlit("\\t");
                assert("\\t"@ =~= spec_json_char(c));
            }
        } else if (c as u32) < 32 {
            out.append("\\u00");
            out.append(hex_str((c as u32) / 16));
            out.append(hex_str((c as u32) % 16));
        } else {
            let piece = s.substring_char(i, i + 1);
            out.append(piece);
            proof {
                assert(piece@ =~= seq![c]);
            }
        }
        proof {
            assert(out@ =~= spec_json_escape(s@.take(i + 1)));
        }
        i = i + 1;
    }
    proof {
        assert(s@.take(len as int) =~= s@);
    }
    out
}

/// Quotes and escapes a string as a JSON string literal.
pub fn json_string(s: &str) -> (r: String)
    ensures
        r@ == spec_json_string(s@),
{
    let mut out = String::new();
    out.append("\"");
    let escaped = json_escape(s);
    out.append(escaped.as_str());
    out.append("\"");
    proof {
        reveal_strlit("\"");
        assert(out@ =~= spec_json_string(s@));
    }
    out
}

/// An optional length or precision: `null` or the number.
pub open spec fn spec_json_opt_u32(v: Option<u32>) -> Seq<char> {
    match v {
        Some(n) => spec_dec_digits(n as nat),
        None => "null"@,
    }
}

/// A flag as JSON.
pub open spec fn spec_json_bool(b: bool) -> Seq<char> {
    if b {
        "true"@
    } else {
        "false"@
    }
}

/// A type as a serde-style tagged variant: plain variants are their
/// names, variants with fields become one-entry objects.
pub open spec fn spec_json_sqltype(t: SqlTypeV) -> Seq<char> {
    match t {
        SqlTypeV::Bool => "\"Bool\""@,
        SqlTypeV::Int2 => "\"Int2\""@,
        SqlTypeV::Int4 => "\"Int4\""@,
        SqlTypeV::Int8 => "\"Int8\""@,
        SqlTypeV::SmallSerial => "\"SmallSerial\""@,
        SqlTypeV::Serial => "\"Serial\""@,
        SqlTypeV::BigSerial => "\"BigSerial\""@,
        SqlTypeV::Decimal { precision, precision_radix } => "{\"Decimal\":{\"precision\":"@
            + spec_json_opt_u32(precision) + ",\"precision_radix\":"@ + spec_json_opt_u32(
            precision_radix,
        ) + "}}"@,
        SqlTypeV::Timestamp { tz } => "{\"Timestamp\":{\"tz\":"@ + spec_json_bool(tz) + "}}"@,
        SqlTypeV::Date => "\"Date\""@,
        SqlTypeV::Time { tz } => "{\"Time\":{\"tz\":"@ + spec_json_bool(tz) + "}}"@,
        SqlTypeV::Interval => "\"Interval\""@,
        SqlTypeV::Char { length } => "{\"Char\":{\"length\":"@ + spec_json_opt_u32(length)
            + "}}"@,
        SqlTypeV::VarChar { length } => "{\"VarChar\":{\"length\":"@ + spec_json_opt_u32(length)
            + "}}"@,
        SqlTypeV::Bit { length } => "{\"Bit\":{\"length\":"@ + spec_json_opt_u32(length) + "}}"@,
        SqlTypeV::VarBit { length } => "{\"VarBit\":{\"length\":"@ + spec_json_opt_u32(length)
            + "}}"@,
        SqlTypeV::Text => "\"Text\""@,
        SqlTypeV::Json => "\"Json\""@,
        SqlTypeV::Jsonb => "\"Jsonb\""@,
        SqlTypeV::Float4 => "\"Float4\""@,
        SqlTypeV::Float8 => "\"Float8\""@,
        SqlTypeV::Enum { name, tags } => "{\"Enum\":{\"name\":"@ + spec_json_string(name)
            + ",\"tags\":["@ + spec_join(
            Seq::new(tags.len(), |i: int| spec_json_string(tags[i])),
            ","@,
        ) + "]}}"@,
        SqlTypeV::Unknown => "\"Unknown\""@,
    }
}

/// Nullability as its three names.
pub open spec fn spec_json_nullability(n: Nullability) -> Seq<char> {
    match n {
        Nullability::True => "\"True\""@,
        Nullability::False => "\"False\""@,
        Nullability::Unknown => "\"Unknown\""@,
    }
}

/// One query item as JSON.
pub open spec fn spec_json_item(item: QueryItemV) -> Seq<char> {
    "{\"name\":"@ + spec_json_string(item.name) + ",\"sql_type\":"@ + spec_json_sqltype(
        item.sql_type,
    ) + ",\"nullable\":"@ + spec_json_nullability(item.nullable) + "}"@
}

/// A list of query items as a JSON array.
pub open spec fn spec_json_items(items: Seq<QueryItemV>) -> Seq<char> {
    "["@ + spec_join(Seq::new(items.len(), |i: int| spec_json_item(items[i])), ","@) + "]"@
}

/// One query definition as JSON.
pub open spec fn spec_json_qdef(q: QueryDefinitionV) -> Seq<char> {
    "{\"query\":"@ + spec_json_string(q.query) + ",\"inputs\":"@ + spec_json_items(q.inputs)
        + ",\"outputs\":"@ + spec_json_items(q.outputs) + "}"@
}

/// The whole manifest: an object keyed by the sorted logical names.
pub open spec fn spec_json_manifest(entries: Seq<(Seq<char>, QueryDefinitionV)>) -> Seq<char> {
    "{"@ + spec_join(
        Seq::new(
            entries.len(),
            |i: int| spec_json_string(entries[i].0) + ":"@ + spec_json_qdef(entries[i].1),
        ),
        ","@,
    ) + "}"@
}

fn json_opt_u32(v: &Option<u32>) -> (r: String)
    ensures
        r@ == spec_json_opt_u32(*v),
{
    match v {
        Some(n) => usize_to_dec(*n as usize),
        None => {
            let mut out = String::new();
            out.append("null");
            out
        },
    }
}

fn json_sqltype(t: &SqlType) -> (r: String)
    ensures
        r@ == spec_json_sqltype(t@),
{
    let mut out = String::new();
    match t {
        SqlType::Bool => out.append("\"Bool\""),
        SqlType::Int2 => out.append("\"Int2\""),
        SqlType::Int4 => out.append("\"Int4\""),
        SqlType::Int8 => out.append("\"Int8\""),
        SqlType::SmallSerial => out.append("\"SmallSerial\""),
        SqlType::Serial => out.append("\"Serial\""),
        SqlType::BigSerial => out.append("\"BigSerial\""),
        SqlType::Decimal { precision, precision_radix } => {
            out.append("{\"Decimal\":{\"precision\":");
            let p = json_opt_u32(precision);
            out.append(p.as_str());
            out.append(",\"precision_radix\":");
            let pr = json_opt_u32(precision_radix);
            out.append(pr.as_str());
            out.append("}}");
        },
        SqlType::Timestamp { tz } => {
            out.append("{\"Timestamp\":{\"tz\":");
            if *tz {
                out.append("true");
            } else {
                out.append("false");
            }
            out.append("}}");
        },
        SqlType::Date => out.append("\"Date\""),
        SqlType::Time { tz } => {
            out.append("{\"Time\":{\"tz\":");
            if *tz {
                out.append("true");
            } else {
                out.append("false");
            }
            out.append("}}");
        },
        SqlType::Interval => out.append("\"Interval\""),
        SqlType::Char { length } => {
            out.append("{\"Char\":{\"length\":");
            let l = json_opt_u32(length);
            out.append(l.as_str());
            out.append("}}");
        },
        SqlType::VarChar { length } => {
            out.append("{\"VarChar\":{\"length\":");
            let l = json_opt_u32(length);
            out.append(l.as_str());
            out.append("}}");
        },
        SqlType::Bit { length } => {
            out.append("{\"Bit\":{\"length\":");
            let l = json_opt_u32(length);
            out.append(l.as_str());
            out.append("}}");
        },
        SqlType::VarBit { length } => {
            out.append("{\"VarBit\":{\"length\":");
            let l = json_opt_u32(length);
            out.append(l.as_str());
            out.append("}}");
        },
        SqlType::Text => out.append("\"Text\""),
        SqlType::Json => out.append("\"Json\""),
        SqlType::Jsonb => out.append("\"Jsonb\""),
        SqlType::Float4 => out.append("\"Float4\""),
        SqlType::Float8 => out.append("\"Float8\""),
        SqlType::Enum { name, tags } => {
            out.append("{\"Enum\":{\"name\":");
            let n = json_string(name.as_str());
            out.append(n.as_str());
            out.append(",\"tags\":[");
            let mut quoted: Vec<String> = Vec::new();
            let count = tags.len();
            let mut i: usize = 0;
            while i < count
                invariant
                    count == tags.len(),
                    i <= count,
                    quoted.len() == i,
                    forall|j: int|
                        0 <= j < i ==> quoted.deep_view()[j] == spec_json_string(
                            tags.deep_view()[j],
                        ),
                decreases count - i,
            {
                let q = json_string(tags[i].as_str());
                let ghost qv = q@;
                let ghost prev = quoted@;
                let ghost prev_deep = quoted.deep_view();
                quoted.push(q);
                proof {
                    assert(quoted@[i as int]@ == qv);
                    assert(tags.deep_view()[i as int] == tags@[i as int]@);
                    assert forall|j: int| 0 <= j < i + 1 implies quoted.deep_view()[j]
                        == spec_json_string(tags.deep_view()[j]) by {
                        assert(quoted.deep_view()[j] == quoted@[j].deep_view());
                        if j < i {
                            assert(quoted@[j] == prev[j]);
                            assert(prev_deep[j] == prev[j].deep_view());
                        }
                    }
                }
                i = i + 1;
            }
            let joined = join_strings(&quoted, ",");
            proof {
                assert(quoted.deep_view() =~= Seq::new(
                    tags.deep_view().len(),
                    |i: int| spec_json_string(tags.deep_view()[i]),
                ));
                reveal_strlit(",");
            reveal_strlit(",");
        assert(","@ =~= seq![',']);
            }
            out.append(joined.as_str());
            out.append("]}}");
        },
        SqlType::Unknown => out.append("\"Unknown\""),
    }
    proof {
        assert(out@ =~= spec_json_sqltype(t@));
    }
    out
}

fn json_item(item: &QueryItem) -> (r: String)
    ensures
        r@ == spec_json_item(item@),
{
    let mut out = String::new();
    out.append("{\"name\":");
    let n = json_string(item.name.as_str());
    out.append(n.as_str());
    out.append(",\"sql_type\":");
    let t = json_sqltype(&item.sql_type);
    out.append(t.as_str());
    out.append(",\"nullable\":");
    match item.nullable {
        Nullability::True => out.append("\"True\""),
        Nullability::False => out.append("\"False\""),
        Nullability::Unknown => out.append("\"Unknown\""),
    }
    out.append("}");
    proof {
        assert(out@ =~= spec_json_item(item@));
    }
    out
}

fn json_items(items: &Vec<QueryItem>) -> (r: String)
    ensures
        r@ == spec_json_items(items.deep_view()),
{
    let mut rendered: Vec<String> = Vec::new();
    let n = items.len();
    let mut i: usize = 0;
    while i < n
        invariant
            n == items.len(),
            i <= n,
            rendered.len() == i,
            forall|j: int|
                0 <= j < i ==> rendered.deep_view()[j] == spec_json_item(items.deep_view()[j]),
        decreases n - i,
    {
        let r = json_item(&items[i]);
        let ghost rv = r@;
        let ghost prev = rendered@;
        let ghost prev_deep = rendered.deep_view();
        rendered.push(r);
        proof {
            assert(rendered@[i as int]@ == rv);
            assert(items.deep_view()[i as int] == items@[i as int]@);
            assert forall|j: int| 0 <= j < i + 1 implies rendered.deep_view()[j] == spec_json_item(
                items.deep_view()[j],
            ) by {
                assert(rendered.deep_view()[j] == rendered@[j].deep_view());
                if j < i {
                    assert(rendered@[j] == prev[j]);
                    assert(prev_deep[j] == prev[j].deep_view());
                }
            }
        }
        i = i + 1;
    }
    let joined = join_strings(&rendered, ",");
    let mut out = String::new();
    out.append("[");
    out.append(joined.as_str());
    out.append("]");
    proof {
        assert(rendered.deep_view() =~= Seq::new(
            items.deep_view().len(),
            |i: int| spec_json_item(items.deep_view()[i]),
        ));
        reveal_strlit(",");
        assert(","@ =~= seq![',']);
        assert(out@ =~= spec_json_items(items.deep_view()));
    }
    out
}

/// The JSON emitter: queries keyed by logical name, rendered sorted.
pub struct JsonCodeGen {
    entries: Vec<(String, QueryDefinition)>,
}

impl View for JsonCodeGen {
    type V = Seq<(Seq<char>, QueryDefinitionV)>;

    closed spec fn view(&self) -> Seq<(Seq<char>, QueryDefinitionV)> {
        crate::codegen::entry_views_of(self.entries@)
    }
}

impl JsonCodeGen {
    /// An empty manifest.
    pub fn new() -> (r: JsonCodeGen)
        ensures
            r@ == Seq::<(Seq<char>, QueryDefinitionV)>::empty(),
    {
        let r = JsonCodeGen { entries: Vec::new() };
        proof {
            assert(r@ =~= Seq::<(Seq<char>, QueryDefinitionV)>::empty());
        }
        r
    }

    /// Registers one query under its logical name; a name registered
    /// twice keeps the later definition.
    pub fn push(&mut self, name: &str, query: QueryDefinition)
        ensures
            final(self)@ == spec_map_insert(old(self)@, name@, query@),
    {
        crate::codegen::sqlalchemy_v2::insert_sorted(&mut self.entries, name, query);
    }

    /// Renders the manifest.
    pub fn finalize(&self) -> (r: String)
        ensures
            r@ == spec_json_manifest(self@),
    {
        let mut rendered: Vec<String> = Vec::new();
        let n = self.entries.len();
        let mut i: usize = 0;
        while i < n
            invariant
                n == self.entries.len(),
                self@.len() == n,
                i <= n,
                rendered.len() == i,
                forall|j: int|
                    0 <= j < i ==> rendered.deep_view()[j] == spec_json_string(self@[j].0) + ":"@
                        + spec_json_qdef(self@[j].1),
            decreases n - i,
        {
            let mut entry = String::new();
            let k = json_string(self.entries[i].0.as_str());
            entry.append(k.as_str());
            entry.append(":");
            let q = &self.entries[i].1;
            entry.append("{\"query\":");
            let qs = json_string(q.query.as_str());
            entry.append(qs.as_str());
            entry.append(",\"inputs\":");
            let ins = json_items(&q.inputs);
            entry.append(ins.as_str());
            entry.append(",\"outputs\":");
            let outs = json_items(&q.outputs);
            entry.append(outs.as_str());
            entry.append("}");
            let ghost ev = entry@;
            let ghost prev = rendered@;
            let ghost prev_deep = rendered.deep_view();
            rendered.push(entry);
            proof {
                assert(self@[i as int].0 == self.entries@[i as int].0@);
                assert(self@[i as int].1 == self.entries@[i as int].1@);
                assert(rendered@[i as int]@ == ev);
                assert(ev =~= spec_json_string(self@[i as int].0) + ":"@ + spec_json_qdef(
                    self@[i as int].1,
                ));
                assert forall|j: int| 0 <= j < i + 1 implies rendered.deep_view()[j]
                    == spec_json_string(self@[j].0) + ":"@ + spec_json_qdef(self@[j].1) by {
                    assert(rendered.deep_view()[j] == rendered@[j].deep_view());
                    if j < i {
                        assert(rendered@[j] == prev[j]);
                        assert(prev_deep[j] == prev[j].deep_view());
                    }
                }
            }
            i = i + 1;
        }
        let joined = join_strings(&rendered, ",");
        let mut out = String::new();
        out.append("{");
        out.append(joined.as_str());
        out.append("}");
        proof {
            assert(rendered.deep_view() =~= Seq::new(
                self@.len(),
                |i: int| spec_json_string(self@[i].0) + ":"@ + spec_json_qdef(self@[i].1),
            ));
            reveal_strlit(",");
            reveal_strlit(",");
        assert(","@ =~= seq![',']);
            assert(out@ =~= spec_json_manifest(self@));
        }
        out
    }
}

impl crate::codegen::CodeGen for JsonCodeGen {
    fn push(&mut self, name: &str, query: QueryDefinition) {
        JsonCodeGen::push(self, name, query);
    }

    fn finalize(&self) -> String {
        JsonCodeGen::finalize(self)
    }
}

} // verus!
