//! The SQLAlchemy emitter: one Python wrapper function per query, typed
//! either with plain Python annotations or with pydantic's datetime
//! refinements.

use vstd::prelude::*;

use crate::codegen::{spec_map_insert, QueryDefinition, QueryDefinitionV};
use crate::inference::{Nullability, QueryItemV, SqlTypeV};
use crate::utils::{join_strings, spec_join, spec_str_lt, str_lt};

verus! {

/// Uppercases an ASCII letter, leaving every other character alone.
pub open spec fn spec_ascii_upper(c: char) -> char {
    if 'a' <= c && c <= 'z' {
        ((c as u8) - 32) as char
    } else {
        c
    }
}

/// Lowercases an ASCII letter, leaving every other character alone.
pub open spec fn spec_ascii_lower(c: char) -> char {
    if 'A' <= c && c <= 'Z' {
        ((c as u8) + 32) as char
    } else {
        c
    }
}

/// One step of the PascalCase machine: an uppercase letter or `_` closes
/// the current word; `_` is dropped; a word's first character is
/// uppercased and the rest lowercased.
pub open spec fn spec_pascal_step(s: Seq<char>, i: int, out: Seq<char>, curr: Seq<char>) -> Seq<
    char,
>
    decreases s.len() - i,
{
    if !(0 <= i < s.len()) {
        out + curr
    } else {
        let c = s[i];
        let breaks = ('A' <= c && c <= 'Z') || c == '_';
        let out2 = if breaks {
            out + curr
        } else {
            out
        };
        let curr2 = if breaks {
            Seq::<char>::empty()
        } else {
            curr
        };
        if c == '_' {
            spec_pascal_step(s, i + 1, out2, curr2)
        } else if curr2.len() == 0 {
            spec_pascal_step(s, i + 1, out2, curr2.push(spec_ascii_upper(c)))
        } else {
            spec_pascal_step(s, i + 1, out2, curr2.push(spec_ascii_lower(c)))
        }
    }
}

/// `snake_case` or `mixedCase` turned into `PascalCase`.
pub open spec fn spec_to_pascal(s: Seq<char>) -> Seq<char> {
    spec_pascal_step(s, 0, Seq::empty(), Seq::empty())
}

fn ascii_upper(c: char) -> (r: char)
    ensures
        r == spec_ascii_upper(c),
{
    let u = c as u32;
    if 97 <= u && u <= 122 {
        ((u - 32) as u8) as char
    } else {
        c
    }
}

fn ascii_lower(c: char) -> (r: char)
    ensures
        r == spec_ascii_lower(c),
{
    let u = c as u32;
    if 65 <= u && u <= 90 {
        ((u + 32) as u8) as char
    } else {
        c
    }
}

fn push_char(out: &mut String, c: char)
    ensures
        final(out)@ == old(out)@.push(c),
{
    let piece = char_to_string(c);
    out.append(piece.as_str());
    proof {
        assert(old(out)@ + seq![c] =~= old(out)@.push(c));
    }
}

fn char_to_string(c: char) -> (r: String)
    ensures
        r@ =~= seq![c],
{
    let mut v: Vec<char> = Vec::new();
    v.push(c);
    chars_to_string(&v)
}

/// Relies on `core::iter::Iterator::collect` for `String`: the string of
/// exactly the characters of `v`, in order.
#[verifier::external_body]
fn chars_to_string(v: &Vec<char>) -> (r: String)
    ensures
        r@ == v@,
{
    v.iter().collect()
}

/// Converts a name to PascalCase.
pub fn to_pascal(mixed_case_name: &str) -> (r: String)
    ensures
        r@ == spec_to_pascal(mixed_case_name@),
{
    let len = mixed_case_name.unicode_len();
    let mut out = String::new();
    let mut curr = String::new();
    let mut i: usize = 0;
    while i < len
        invariant
            len == mixed_case_name@.len(),
            i <= len,
            spec_to_pascal(mixed_case_name@) == spec_pascal_step(
                mixed_case_name@,
                i as int,
                out@,
                curr@,
            ),
        decreases len - i,
    {
        let c = mixed_case_name.get_char(i);
        let u = c as u32;
        let breaks = (65 <= u && u <= 90) || c == '_';
        if breaks {
            out.append(curr.as_str());
            curr = String::new();
        }
        if c == '_' {
        } else if curr.unicode_len() == 0 {
            push_char(&mut curr, ascii_upper(c));
        } else {
            push_char(&mut curr, ascii_lower(c));
        }
        i = i + 1;
    }
    out.append(curr.as_str());
    out
}

/// The base Python annotation of a type, before any `| None` suffix; an
/// enum type is a `Literal[...]` of its quoted labels.
pub open spec fn spec_py_base(t: SqlTypeV, pydantic: bool) -> Seq<char> {
    match t {
        SqlTypeV::Bool => "bool"@,
        SqlTypeV::Int2
        | SqlTypeV::Int4
        | SqlTypeV::Int8
        | SqlTypeV::SmallSerial
        | SqlTypeV::Serial
        | SqlTypeV::BigSerial => "int"@,
        SqlTypeV::Decimal { .. } => "Decimal"@,
        SqlTypeV::Timestamp { tz } => if !pydantic {
            "datetime"@
        } else if tz {
            "AwareDatetime"@
        } else {
            "NaiveDatetime"@
        },
        SqlTypeV::Date => "date"@,
        SqlTypeV::Time { .. } => "time"@,
        SqlTypeV::Char { .. } | SqlTypeV::VarChar { .. } | SqlTypeV::Text | SqlTypeV::Json
            | SqlTypeV::Jsonb => "str"@,
        SqlTypeV::Float4 | SqlTypeV::Float8 => "float"@,
        SqlTypeV::Interval => "timedelta"@,
        SqlTypeV::Bit { .. } | SqlTypeV::VarBit { .. } => "str"@,
        SqlTypeV::Enum { .. } => "Any"@,
        SqlTypeV::Unknown => "Any"@,
    }
}

/// The labels of an enum, each as a quoted Python string literal with
/// quotes, backslashes and control characters escaped.
pub open spec fn spec_quoted_tags(tags: Seq<Seq<char>>) -> Seq<Seq<char>> {
    Seq::new(tags.len(), |i: int| crate::codegen::json::spec_json_string(tags[i]))
}

/// The Python annotation of an input value: enums become a `Literal` of
/// their labels; everything else is the base annotation, with `| None`
/// unless the value is known not to be null.
pub open spec fn spec_py_input_type(item: QueryItemV, pydantic: bool) -> Seq<char> {
    match item.sql_type {
        SqlTypeV::Enum { tags, .. } => "Literal["@ + spec_join(spec_quoted_tags(tags), ", "@)
            + "]"@,
        _ => {
            let base = spec_py_base(item.sql_type, pydantic);
            match item.nullable {
                Nullability::False => base,
                _ => base + " | None"@,
            }
        },
    }
}

/// The Python annotation of an output value: JSON values come back parsed,
/// everything else is annotated like an input without pydantic
/// refinements.
pub open spec fn spec_py_output_type(item: QueryItemV) -> Seq<char> {
    match item.sql_type {
        SqlTypeV::Json | SqlTypeV::Jsonb => match item.nullable {
            Nullability::False => "Json"@,
            _ => "Json"@ + " | None"@,
        },
        _ => spec_py_input_type(item, false),
    }
}

fn quoted_tags(tags: &Vec<String>) -> (r: Vec<String>)
    ensures
        r.deep_view() == spec_quoted_tags(tags.deep_view()),
{
    let mut out: Vec<String> = Vec::new();
    let n = tags.len();
    let mut i: usize = 0;
    while i < n
        invariant
            n == tags.len(),
            i <= n,
            out.len() == i,
            forall|j: int|
                0 <= j < i ==> out.deep_view()[j] == crate::codegen::json::spec_json_string(
                    tags.deep_view()[j],
                ),
        decreases n - i,
    {
        let q = crate::codegen::json::json_string(tags[i].as_str());
        let ghost qv = q@;
        let ghost prev = out@;
        let ghost prev_deep = out.deep_view();
        out.push(q);
        proof {
            assert(out@[i as int]@ == qv);
            assert(tags.deep_view()[i as int] == tags@[i as int]@);
            assert forall|j: int| 0 <= j < i + 1 implies out.deep_view()[j]
                == crate::codegen::json::spec_json_string(tags.deep_view()[j]) by {
                assert(out.deep_view()[j] == out@[j].deep_view());
                if j < i {
                    assert(out@[j] == prev[j]);
                    assert(prev_deep[j] == prev[j].deep_view());
                }
            }
        }
        i = i + 1;
    }
    proof {
        assert(out.deep_view() =~= spec_quoted_tags(tags.deep_view()));
    }
    out
}

fn py_input_type(item: &crate::inference::QueryItem, pydantic: bool) -> (r: String)
    ensures
        r@ == spec_py_input_type(item@, pydantic),
{
    match &item.sql_type {
        crate::inference::SqlType::Enum { tags, .. } => {
            let quoted = quoted_tags(tags);
            let joined = join_strings(&quoted, ", ");
            let mut out = String::new();
            out.append("Literal[");
            out.append(joined.as_str());
            out.append("]");
            out
        },
        _ => {
            let mut out = String::new();
            match &item.sql_type {
                crate::inference::SqlType::Bool => out.append("bool"),
                crate::inference::SqlType::Int2
                | crate::inference::SqlType::Int4
                | crate::inference::SqlType::Int8
                | crate::inference::SqlType::SmallSerial
                | crate::inference::SqlType::Serial
                | crate::inference::SqlType::BigSerial => out.append("int"),
                crate::inference::SqlType::Decimal { .. } => out.append("Decimal"),
                crate::inference::SqlType::Timestamp { tz } => {
                    if !pydantic {
                        out.append("datetime")
                    } else if *tz {
                        out.append("AwareDatetime")
                    } else {
                        out.append("NaiveDatetime")
                    }
                },
                crate::inference::SqlType::Date => out.append("date"),
                crate::inference::SqlType::Time { .. } => out.append("time"),
                crate::inference::SqlType::Char { .. }
                | crate::inference::SqlType::VarChar { .. }
                | crate::inference::SqlType::Text
                | crate::inference::SqlType::Json
                | crate::inference::SqlType::Jsonb => out.append("str"),
                crate::inference::SqlType::Float4 | crate::inference::SqlType::Float8 => out
                    .append("float"),
                crate::inference::SqlType::Interval => out.append("timedelta"),
                crate::inference::SqlType::Bit { .. } | crate::inference::SqlType::VarBit {
                    ..
                } => out.append("str"),
                crate::inference::SqlType::Enum { .. } => out.append("Any"),
                crate::inference::SqlType::Unknown => out.append("Any"),
            }
            match item.nullable {
                Nullability::False => {},
                _ => out.append(" | None"),
            }
            out
        },
    }
}

fn py_output_type(item: &crate::inference::QueryItem) -> (r: String)
    ensures
        r@ == spec_py_output_type(item@),
{
    match &item.sql_type {
        crate::inference::SqlType::Json | crate::inference::SqlType::Jsonb => {
            let mut out = String::new();
            out.append("Json");
            match item.nullable {
                Nullability::False => {},
                _ => out.append(" | None"),
            }
            out
        },
        _ => py_input_type(item, false),
    }
}

/// How the generated functions take their arguments.
#[derive(Debug, Clone, Copy, PartialEq, Eq, Structural)]
pub enum ArgumentMode {
    Positional,
    Keyword,
}

/// Which annotation flavor the generated functions use.
#[derive(Debug, Clone, Copy, PartialEq, Eq, Structural)]
pub enum TypeGen {
    Python,
    Pydantic,
}

/// The connection parameter of a generated function.
pub open spec fn spec_conn_param(is_async: bool) -> Seq<char> {
    if is_async {
        "conn: AsyncConnection"@
    } else {
        "conn: Connection"@
    }
}

/// The Python parameter list of one generated function.
pub open spec fn spec_params(
    is_async: bool,
    argument_mode: ArgumentMode,
    type_gen: TypeGen,
    q: QueryDefinitionV,
) -> Seq<Seq<char>> {
    let conn = seq![spec_conn_param(is_async)];
    let star: Seq<Seq<char>> = if q.inputs.len() > 0 && argument_mode == ArgumentMode::Keyword {
        seq!["*"@]
    } else {
        Seq::empty()
    };
    let args = Seq::new(
        q.inputs.len(),
        |i: int|
            q.inputs[i].name + ": "@ + spec_py_input_type(
                q.inputs[i],
                type_gen == TypeGen::Pydantic,
            ),
    );
    conn + star + args
}

/// The keyword bindings handed to `conn.execute`.
pub open spec fn spec_binds(q: QueryDefinitionV) -> Seq<Seq<char>> {
    Seq::new(
        q.inputs.len(),
        |i: int| seq!['"'] + q.inputs[i].name + "\": "@ + q.inputs[i].name,
    )
}

/// The annotated fields of the generated output dataclass.
pub open spec fn spec_outs(q: QueryDefinitionV) -> Seq<Seq<char>> {
    Seq::new(
        q.outputs.len(),
        |i: int| "    "@ + q.outputs[i].name + ": "@ + spec_py_output_type(q.outputs[i]),
    )
}

/// The whole Python wrapper for one query: an optional dataclass for the
/// rows, the (always async) function signature, the execute call, and the
/// row conversion when there are outputs.
pub open spec fn spec_query_fn_text(
    is_async: bool,
    argument_mode: ArgumentMode,
    type_gen: TypeGen,
    fn_name: Seq<char>,
    q: QueryDefinitionV,
) -> Seq<char> {
    let class_name = spec_to_pascal(fn_name + "_output"@);
    let out_types = if q.outputs.len() == 0 {
        "None"@
    } else {
        "DbOutput["@ + class_name + "]"@
    };
    let return_type = if q.outputs.len() == 0 {
        Seq::<char>::empty()
    } else {
        "@dataclass\nclass "@ + class_name + ":\n"@ + spec_join(spec_outs(q), "\n"@) + "\n"@
    };
    let signature = "async def "@ + fn_name + "("@ + spec_join(
        spec_params(is_async, argument_mode, type_gen, q),
        ", "@,
    ) + ") -> "@ + out_types + ":"@;
    let bind_text = if q.inputs.len() == 0 {
        Seq::<char>::empty()
    } else {
        "{"@ + spec_join(spec_binds(q), ", "@) + "}"@
    };
    let ret_line = if q.outputs.len() == 0 {
        Seq::<char>::empty()
    } else {
        "    return DbOutput("@ + class_name + "(*row) for row in result) # type: ignore\n"@
    };
    let content = "    result = await conn.execute(text(\"\"\""@ + q.query
        + "\"\"\"), "@ + bind_text + ")\n"@ + ret_line;
    return_type + "\n\n"@ + signature + "\n"@ + content
}

/// The SQLAlchemy emitter: queries keyed by logical name, rendered in
/// name order.
pub struct SqlAlchemyV2CodeGen {
    entries: Vec<(String, QueryDefinition)>,
    is_async: bool,
    argument_mode: ArgumentMode,
    type_gen: TypeGen,
}

impl View for SqlAlchemyV2CodeGen {
    type V = Seq<(Seq<char>, QueryDefinitionV)>;

    closed spec fn view(&self) -> Seq<(Seq<char>, QueryDefinitionV)> {
        crate::codegen::entry_views_of(self.entries@)
    }
}

impl SqlAlchemyV2CodeGen {
    /// Whether the generated functions use an asynchronous connection.
    pub closed spec fn spec_is_async(&self) -> bool {
        self.is_async
    }

    /// The registered argument mode.
    pub closed spec fn spec_argument_mode(&self) -> ArgumentMode {
        self.argument_mode
    }

    /// The registered annotation flavor.
    pub closed spec fn spec_type_gen(&self) -> TypeGen {
        self.type_gen
    }

    /// An empty emitter with the given connection and annotation flavor.
    pub fn new(is_async: bool, argument_mode: ArgumentMode, type_gen: TypeGen) -> (r: Self)
        ensures
            r@ == Seq::<(Seq<char>, QueryDefinitionV)>::empty(),
            r.spec_is_async() == is_async,
            r.spec_argument_mode() == argument_mode,
            r.spec_type_gen() == type_gen,
    {
        let r = SqlAlchemyV2CodeGen { entries: Vec::new(), is_async, argument_mode, type_gen };
        proof {
            assert(r@ =~= Seq::<(Seq<char>, QueryDefinitionV)>::empty());
        }
        r
    }

    fn conn_param(&self) -> (r: &'static str)
        ensures
            r@ == spec_conn_param(self.spec_is_async()),
    {
        if self.is_async {
            "conn: AsyncConnection"
        } else {
            "conn: Connection"
        }
    }

    /// Renders the Python wrapper for one query.
    #[verifier::rlimit(100)]
    pub fn query_to_sql_alchemy(&self, fn_name: &str, query_fn: &QueryDefinition) -> (r: String)
        ensures
            r@ == spec_query_fn_text(
                self.spec_is_async(),
                self.spec_argument_mode(),
                self.spec_type_gen(),
                fn_name@,
                query_fn@,
            ),
    {
        let params = self.build_params(query_fn);
        let binds = build_binds(query_fn);
        let outs = build_outs(query_fn);
        let n = query_fn.inputs.len();
        let m = query_fn.outputs.len();
        proof {
            assert(query_fn@.outputs.len() == query_fn.outputs@.len());
            assert(query_fn@.inputs.len() == query_fn.inputs@.len());
        }
        let mut class_seed = String::new();
        class_seed.append(fn_name);
        class_seed.append("_output");
        let class_name = to_pascal(class_seed.as_str());

        let mut out = String::new();
        if m > 0 {
            out.append("@dataclass\nclass ");
            out.append(class_name.as_str());
            out.append(":\n");
            let joined = join_strings(&outs, "\n");
            out.append(joined.as_str());
            out.append("\n");
        }
        out.append("\n\n");
        out.append("async def ");
        out.append(fn_name);
        out.append("(");
        let joined_params = join_strings(&params, ", ");
        out.append(joined_params.as_str());
        out.append(") -> ");
        if m == 0 {
            out.append("None");
        } else {
            out.append("DbOutput[");
            out.append(class_name.as_str());
            out.append("]");
        }
        out.append(":");
        out.append("\n");
        out.append("    result = await conn.execute(text(\"\"\"");
        out.append(query_fn.query.as_str());
        out.append("\"\"\"), ");
        if n > 0 {
            out.append("{");
            let joined_binds = join_strings(&binds, ", ");
            out.append(joined_binds.as_str());
            out.append("}");
        }
        out.append(")\n");
        if m > 0 {
            out.append("    return DbOutput(");
            out.append(class_name.as_str());
            out.append("(*row) for row in result) # type: ignore\n");
        }
        proof {
            assert(out@ =~= spec_query_fn_text(
                self.spec_is_async(),
                self.spec_argument_mode(),
                self.spec_type_gen(),
                fn_name@,
                query_fn@,
            ));
        }
        out
    }

    fn build_params(&self, query_fn: &QueryDefinition) -> (r: Vec<String>)
        ensures
            r.deep_view() == spec_params(
                self.spec_is_async(),
                self.spec_argument_mode(),
                self.spec_type_gen(),
                query_fn@,
            ),
    {
        let pydantic = match self.type_gen {
            TypeGen::Pydantic => true,
            TypeGen::Python => false,
        };
        let mut params: Vec<String> = Vec::new();
        params.push(self.conn_param().to_owned());
        if query_fn.inputs.len() > 0 && matches!(self.argument_mode, ArgumentMode::Keyword) {
            params.push("*".to_owned());
        }
        let ghost head = params.deep_view();
        proof {
            assert(head.len() == params@.len());
            assert forall|j: int| 0 <= j < head.len() implies head[j] == params@[j]@ by {
                assert(head[j] == params@[j].deep_view());
            }
            if query_fn.inputs@.len() > 0 && self.spec_argument_mode() == ArgumentMode::Keyword {
                assert(head =~= seq![spec_conn_param(self.spec_is_async()), "*"@]);
            } else {
                assert(head =~= seq![spec_conn_param(self.spec_is_async())]);
            }
        }
        let n = query_fn.inputs.len();
        let mut i: usize = 0;
        while i < n
            invariant
                n == query_fn.inputs.len(),
                i <= n,
                pydantic == (self.spec_type_gen() == TypeGen::Pydantic),
                params.len() == head.len() + i,
                params.deep_view().take(head.len() as int) == head,
                forall|j: int|
                    0 <= j < i ==> params.deep_view()[head.len() + j]
                        == query_fn.inputs@[j]@.name + ": "@ + spec_py_input_type(
                        query_fn.inputs@[j]@,
                        self.spec_type_gen() == TypeGen::Pydantic,
                    ),
            decreases n - i,
        {
            let input = &query_fn.inputs[i];
            let mut p = String::new();
            p.append(input.name.as_str());
            p.append(": ");
            let ty = py_input_type(input, pydantic);
            p.append(ty.as_str());
            let ghost pv = p@;
            let ghost prev = params@;
            let ghost prev_deep = params.deep_view();
            params.push(p);
            proof {
                assert(*input == query_fn.inputs@[i as int]);
                assert(pv =~= query_fn.inputs@[i as int]@.name + ": "@ + spec_py_input_type(
                    query_fn.inputs@[i as int]@,
                    self.spec_type_gen() == TypeGen::Pydantic,
                ));
                assert(params@[prev.len() as int]@ == pv);
                assert forall|j: int| 0 <= j < params@.len() implies #[trigger] params.deep_view()[j]
                    == if j < prev.len() {
                    prev_deep[j]
                } else {
                    pv
                } by {
                    assert(params.deep_view()[j] == params@[j].deep_view());
                    if j < prev.len() {
                        assert(params@[j] == prev[j]);
                        assert(prev_deep[j] == prev[j].deep_view());
                    }
                }
                assert(params.deep_view().take(head.len() as int) =~= head);
            }
            i = i + 1;
        }
        proof {
            assert(params.deep_view() =~= spec_params(
                self.spec_is_async(),
                self.spec_argument_mode(),
                self.spec_type_gen(),
                query_fn@,
            ));
        }
        params
    }

    /// Registers one query under its logical name; a name registered
    /// twice keeps the later definition.
    pub fn push(&mut self, name: &str, query: QueryDefinition)
        ensures
            final(self)@ == spec_map_insert(old(self)@, name@, query@),
            final(self).spec_is_async() == old(self).spec_is_async(),
            final(self).spec_argument_mode() == old(self).spec_argument_mode(),
            final(self).spec_type_gen() == old(self).spec_type_gen(),
    {
        insert_sorted(&mut self.entries, name, query);
    }

    /// Renders every registered query, in name order, after the runtime
    /// preamble the generated functions need; with pydantic annotations
    /// the import line for the datetime refinements follows the preamble.
    #[verifier::rlimit(100)]
    pub fn finalize(&self) -> (r: String)
        ensures
            r@ == ({
                let body = spec_render_entries(
                    self@,
                    self.spec_is_async(),
                    self.spec_argument_mode(),
                    self.spec_type_gen(),
                );
                let head = if self.spec_type_gen() == TypeGen::Pydantic {
                    spec_prelude(self.spec_is_async())
                        + "\nfrom pydantic import AwareDatetime, NaiveDatetime\n"@
                } else {
                    spec_prelude(self.spec_is_async())
                };
                head + body
            }),
    {
        let mut out = String::new();
        if self.is_async {
            out.append("from dataclasses import dataclass\nfrom datetime import date, datetime, time, timedelta\nfrom decimal import Decimal\nfrom typing import Any, Generic, Iterable, Literal, TypeVar\n\nfrom sqlalchemy import text\nfrom sqlalchemy.ext.asyncio import AsyncConnection\n\nJson = Any\n\nT = TypeVar(\"T\")\n\n\nclass DbOutput(Generic[T]):\n    def __init__(self, rows: Iterable[T]) -> None:\n        self.rows = list(rows)\n\n    def __iter__(self):\n        return iter(self.rows)\n");
        } else {
            out.append("from dataclasses import dataclass\nfrom datetime import date, datetime, time, timedelta\nfrom decimal import Decimal\nfrom typing import Any, Generic, Iterable, Literal, TypeVar\n\nfrom sqlalchemy import text\nfrom sqlalchemy.engine import Connection\n\nJson = Any\n\nT = TypeVar(\"T\")\n\n\nclass DbOutput(Generic[T]):\n    def __init__(self, rows: Iterable[T]) -> None:\n        self.rows = list(rows)\n\n    def __iter__(self):\n        return iter(self.rows)\n");
        }
        if matches!(self.type_gen, TypeGen::Pydantic) {
            out.append("\nfrom pydantic import AwareDatetime, NaiveDatetime\n");
        }
        let n = self.entries.len();
        let mut i: usize = 0;
        proof {
            assert(self@.take(0) =~= Seq::<(Seq<char>, QueryDefinitionV)>::empty());
        }
        while i < n
            invariant
                n == self.entries.len(),
                i <= n,
                self@.len() == n,
                out@ == ({
                    let body = spec_render_entries(
                        self@.take(i as int),
                        self.spec_is_async(),
                        self.spec_argument_mode(),
                        self.spec_type_gen(),
                    );
                    let head = if self.spec_type_gen() == TypeGen::Pydantic {
                        spec_prelude(self.spec_is_async())
                            + "\nfrom pydantic import AwareDatetime, NaiveDatetime\n"@
                    } else {
                        spec_prelude(self.spec_is_async())
                    };
                    head + body
                }),
            decreases n - i,
        {
            proof {
                assert(self@.take(i + 1).drop_last() =~= self@.take(i as int));
                assert(self@.take(i + 1).last() == self@[i as int]);
                assert(self@[i as int].0 == self.entries@[i as int].0@);
                assert(self@[i as int].1 == self.entries@[i as int].1@);
            }
            let func = self.query_to_sql_alchemy(
                self.entries[i].0.as_str(),
                &self.entries[i].1,
            );
            out.append(func.as_str());
            out.append("\n");
            i = i + 1;
        }
        proof {
            assert(self@.take(n as int) =~= self@);
        }
        out
    }
}

/// The runtime preamble the generated functions need: the imports, the
/// `Json` alias, and the `DbOutput` row container, for the chosen
/// connection flavor.
pub open spec fn spec_prelude(is_async: bool) -> Seq<char> {
    if is_async {
        "from dataclasses import dataclass\nfrom datetime import date, datetime, time, timedelta\nfrom decimal import Decimal\nfrom typing import Any, Generic, Iterable, Literal, TypeVar\n\nfrom sqlalchemy import text\nfrom sqlalchemy.ext.asyncio import AsyncConnection\n\nJson = Any\n\nT = TypeVar(\"T\")\n\n\nclass DbOutput(Generic[T]):\n    def __init__(self, rows: Iterable[T]) -> None:\n        self.rows = list(rows)\n\n    def __iter__(self):\n        return iter(self.rows)\n"@
    } else {
        "from dataclasses import dataclass\nfrom datetime import date, datetime, time, timedelta\nfrom decimal import Decimal\nfrom typing import Any, Generic, Iterable, Literal, TypeVar\n\nfrom sqlalchemy import text\nfrom sqlalchemy.engine import Connection\n\nJson = Any\n\nT = TypeVar(\"T\")\n\n\nclass DbOutput(Generic[T]):\n    def __init__(self, rows: Iterable[T]) -> None:\n        self.rows = list(rows)\n\n    def __iter__(self):\n        return iter(self.rows)\n"@
    }
}

/// The rendered functions of the entries, each followed by a newline.
pub open spec fn spec_render_entries(
    entries: Seq<(Seq<char>, QueryDefinitionV)>,
    is_async: bool,
    argument_mode: ArgumentMode,
    type_gen: TypeGen,
) -> Seq<char>
    decreases entries.len(),
{
    if entries.len() == 0 {
        Seq::empty()
    } else {
        spec_render_entries(entries.drop_last(), is_async, argument_mode, type_gen)
            + spec_query_fn_text(
            is_async,
            argument_mode,
            type_gen,
            entries.last().0,
            entries.last().1,
        ) + "\n"@
    }
}

fn build_binds(query_fn: &QueryDefinition) -> (r: Vec<String>)
    ensures
        r.deep_view() == spec_binds(query_fn@),
{
    let mut binds: Vec<String> = Vec::new();
    let n = query_fn.inputs.len();
    let mut i: usize = 0;
    while i < n
        invariant
            n == query_fn.inputs.len(),
            i <= n,
            binds.len() == i,
            forall|j: int|
                0 <= j < i ==> binds.deep_view()[j] == seq!['"'] + query_fn.inputs@[j]@.name
                    + "\": "@ + query_fn.inputs@[j]@.name,
        decreases n - i,
    {
        let input = &query_fn.inputs[i];
        let mut b = String::new();
        b.append("\"");
        b.append(input.name.as_str());
        b.append("\": ");
        b.append(input.name.as_str());
        proof {
            assert(*input == query_fn.inputs@[i as int]);
        }
        let ghost bv = b@;
        let ghost prev = binds@;
        let ghost prev_deep = binds.deep_view();
        binds.push(b);
        proof {
            reveal_strlit("\"");
            assert(binds@[i as int]@ == bv);
            assert(bv =~= seq!['"'] + query_fn.inputs@[i as int]@.name + "\": "@
                + query_fn.inputs@[i as int]@.name);
            assert forall|j: int| 0 <= j < i + 1 implies binds.deep_view()[j] == seq!['"']
                + query_fn.inputs@[j]@.name + "\": "@ + query_fn.inputs@[j]@.name by {
                assert(binds.deep_view()[j] == binds@[j].deep_view());
                if j < i {
                    assert(binds@[j] == prev[j]);
                    assert(prev_deep[j] == prev[j].deep_view());
                }
            }
        }
        i = i + 1;
    }
    proof {
        assert(binds.deep_view() =~= spec_binds(query_fn@));
    }
    binds
}

fn build_outs(query_fn: &QueryDefinition) -> (r: Vec<String>)
    ensures
        r.deep_view() == spec_outs(query_fn@),
{
    let mut outs: Vec<String> = Vec::new();
    let m = query_fn.outputs.len();
    let mut i: usize = 0;
    while i < m
        invariant
            m == query_fn.outputs.len(),
            i <= m,
            outs.len() == i,
            forall|j: int|
                0 <= j < i ==> outs.deep_view()[j] == "    "@ + query_fn.outputs@[j]@.name + ": "@
                    + spec_py_output_type(query_fn.outputs@[j]@),
        decreases m - i,
    {
        let output = &query_fn.outputs[i];
        let mut o = String::new();
        o.append("    ");
        o.append(output.name.as_str());
        o.append(": ");
        let ty = py_output_type(output);
        o.append(ty.as_str());
        let ghost ov = o@;
        let ghost prev = outs@;
        let ghost prev_deep = outs.deep_view();
        outs.push(o);
        proof {
            assert(*output == query_fn.outputs@[i as int]);
            assert(ov =~= "    "@ + query_fn.outputs@[i as int]@.name + ": "@
                + spec_py_output_type(query_fn.outputs@[i as int]@));
            assert(outs@[i as int]@ == ov);
            assert forall|j: int| 0 <= j < i + 1 implies outs.deep_view()[j] == "    "@
                + query_fn.outputs@[j]@.name + ": "@ + spec_py_output_type(
                query_fn.outputs@[j]@,
            ) by {
                assert(outs.deep_view()[j] == outs@[j].deep_view());
                if j < i {
                    assert(outs@[j] == prev[j]);
                    assert(prev_deep[j] == prev[j].deep_view());
                }
            }
        }
        i = i + 1;
    }
    proof {
        assert(outs.deep_view() =~= spec_outs(query_fn@));
    }
    outs
}

/// Inserts into a name-sorted entry list, replacing an entry with the
/// same name.
pub fn insert_sorted(entries: &mut Vec<(String, QueryDefinition)>, name: &str, query: QueryDefinition)
    ensures
        crate::codegen::entry_views_of(final(entries)@) == spec_map_insert(
            crate::codegen::entry_views_of(old(entries)@),
            name@,
            query@,
        ),
{
    let ghost entry_views = crate::codegen::entry_views_of(old(entries)@);
    let mut i: usize = entries.len();
    proof {
        assert(entry_views.take(i as int) =~= entry_views);
        assert(entry_views.skip(i as int) =~= Seq::<(Seq<char>, QueryDefinitionV)>::empty());
        assert(spec_map_insert(entry_views.take(i as int), name@, query@) + entry_views.skip(
            i as int,
        ) =~= spec_map_insert(entry_views, name@, query@));
    }
    while i > 0
        invariant
            i <= entries.len(),
            entries@ == old(entries)@,
            entry_views == crate::codegen::entry_views_of(entries@),
            spec_map_insert(entry_views, name@, query@) == spec_map_insert(
                entry_views.take(i as int),
                name@,
                query@,
            ) + entry_views.skip(i as int),
        decreases i,
    {
        let idx = i - 1;
        proof {
            assert(entry_views.take(idx + 1).drop_last() =~= entry_views.take(idx as int));
            assert(entry_views.take(idx + 1).last() == entry_views[idx as int]);
            assert(entry_views[idx as int].0 == entries@[idx as int].0@);
        }
        if crate::inference::str_eq(entries[idx].0.as_str(), name) {
            entries.remove(idx);
            entries.insert(idx, (name.to_owned(), query));
            proof {
                assert(spec_map_insert(entry_views.take(idx + 1), name@, query@)
                    == entry_views.take(idx as int).push((name@, query@)));
                assert(crate::codegen::entry_views_of(entries@) =~= entry_views.take(
                    idx as int,
                ).push((name@, query@)) + entry_views.skip(idx + 1));
            }
            return ;
        }
        if str_lt(entries[idx].0.as_str(), name) {
            entries.insert(idx + 1, (name.to_owned(), query));
            proof {
                assert(spec_map_insert(entry_views.take(idx + 1), name@, query@)
                    == entry_views.take(idx + 1).push((name@, query@)));
                assert(crate::codegen::entry_views_of(entries@) =~= entry_views.take(idx + 1).push(
                    (name@, query@),
                ) + entry_views.skip(idx + 1));
            }
            return ;
        }
        proof {
            assert(spec_map_insert(entry_views.take(idx + 1), name@, query@)
                == spec_map_insert(entry_views.take(idx as int), name@, query@).push(
                entry_views[idx as int],
            ));
            assert(spec_map_insert(entry_views.take(idx as int), name@, query@).push(
                entry_views[idx as int],
            ) + entry_views.skip(idx + 1) =~= spec_map_insert(
                entry_views.take(idx as int),
                name@,
                query@,
            ) + entry_views.skip(idx as int));
        }
        i = idx;
    }
    entries.insert(0, (name.to_owned(), query));
    proof {
        assert(entry_views.take(0) =~= Seq::<(Seq<char>, QueryDefinitionV)>::empty());
        assert(spec_map_insert(entry_views.take(0), name@, query@) =~= seq![(name@, query@)]);
        assert(entry_views.skip(0) =~= entry_views);
        assert(crate::codegen::entry_views_of(entries@) =~= seq![(name@, query@)] + entry_views);
    }
}

impl crate::codegen::CodeGen for SqlAlchemyV2CodeGen {
    fn push(&mut self, name: &str, query: QueryDefinition) {
        SqlAlchemyV2CodeGen::push(self, name, query);
    }

    fn finalize(&self) -> String {
        SqlAlchemyV2CodeGen::finalize(self)
    }
}

} // verus!
