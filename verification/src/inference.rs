//! The data model of the inference core: SQL types as the PostgreSQL
//! catalog reports them, trivalent nullability, and the items a prepared
//! query exposes.

pub mod datatypes;
pub mod nullability;

use vstd::prelude::*;

verus! {

/// Trivalent nullability: `Unknown` is the initial value before any pass
/// runs and the conservative fallback on ambiguity.
#[derive(Debug, Clone, Copy, PartialEq, Eq, Hash, Structural)]
pub enum Nullability {
    True,
    False,
    Unknown,
}

/// A SQL type as reported by the driver or read from the catalog.
#[derive(Debug, PartialEq, Eq, Hash)]
pub enum SqlType {
    Bool,
    // Integer types
    Int2,
    Int4,
    Int8,
    // Auto increment types
    SmallSerial,
    Serial,
    BigSerial,
    // Decimal types
    Decimal { precision: Option<u32>, precision_radix: Option<u32> },
    // Time types
    Timestamp { tz: bool },
    Date,
    Time { tz: bool },
    Interval,
    // Text types
    Char { length: Option<u32> },
    VarChar { length: Option<u32> },
    Bit { length: Option<u32> },
    VarBit { length: Option<u32> },
    Text,
    // Json types
    Json,
    Jsonb,
    // Float types
    Float4,
    Float8,
    // Enum
    Enum { name: String, tags: Vec<String> },
    // Unknown types
    Unknown,
}

/// One named slot of a query: an input parameter or an output column.
#[derive(Debug, PartialEq, Eq)]
pub struct QueryItem {
    pub name: String,
    pub sql_type: SqlType,
    pub nullable: Nullability,
}

/// A query text together with its parameter names.
#[derive(Debug, Clone, PartialEq, Eq)]
pub struct SqlQuery {
    pub query: String,
    pub parameters: Vec<String>,
}

/// The inferred signature of a query: inputs in first-appearance order of
/// the rewritten placeholders, outputs in projection order.
#[derive(Debug, Clone, PartialEq, Eq)]
pub struct QueryTypes {
    pub input: Vec<QueryItem>,
    pub output: Vec<QueryItem>,
}

/// A column or parameter type as the database driver reports it: the
/// type name, and for an enum type its ordered labels.
#[derive(Debug, PartialEq, Eq)]
pub struct DriverType {
    pub reported_name: String,
    pub enum_tags: Option<Vec<String>>,
}

/// One output column as the driver reports it from a prepared statement.
#[derive(Debug, PartialEq, Eq)]
pub struct DriverColumn {
    pub name: String,
    pub data_type: DriverType,
}

/// A type name the built-in mapping does not know.
#[derive(Debug, Clone)]
pub enum CheckerError {
    UnrecognizedType { sql_type: String },
}

/// One row of `information_schema.columns` for a (table, column) pair.
#[derive(Debug, PartialEq, Eq)]
pub struct InformationSchema {
    pub is_nullable: Option<bool>,
    pub character_maximum_length: Option<i32>,
    pub numeric_precision: Option<i32>,
    pub numeric_precision_radix: Option<i32>,
    pub numeric_scale: Option<i32>,
    pub column_default: Option<String>,
}

/// The mathematical shape of a `SqlType`: strings become character
/// sequences.
pub ghost enum SqlTypeV {
    Bool,
    Int2,
    Int4,
    Int8,
    SmallSerial,
    Serial,
    BigSerial,
    Decimal { precision: Option<u32>, precision_radix: Option<u32> },
    Timestamp { tz: bool },
    Date,
    Time { tz: bool },
    Interval,
    Char { length: Option<u32> },
    VarChar { length: Option<u32> },
    Bit { length: Option<u32> },
    VarBit { length: Option<u32> },
    Text,
    Json,
    Jsonb,
    Float4,
    Float8,
    Enum { name: Seq<char>, tags: Seq<Seq<char>> },
    Unknown,
}

impl View for SqlType {
    type V = SqlTypeV;

    open spec fn view(&self) -> SqlTypeV {
        match self {
            SqlType::Bool => SqlTypeV::Bool,
            SqlType::Int2 => SqlTypeV::Int2,
            SqlType::Int4 => SqlTypeV::Int4,
            SqlType::Int8 => SqlTypeV::Int8,
            SqlType::SmallSerial => SqlTypeV::SmallSerial,
            SqlType::Serial => SqlTypeV::Serial,
            SqlType::BigSerial => SqlTypeV::BigSerial,
            SqlType::Decimal { precision, precision_radix } => SqlTypeV::Decimal {
                precision: *precision,
                precision_radix: *precision_radix,
            },
            SqlType::Timestamp { tz } => SqlTypeV::Timestamp { tz: *tz },
            SqlType::Date => SqlTypeV::Date,
            SqlType::Time { tz } => SqlTypeV::Time { tz: *tz },
            SqlType::Interval => SqlTypeV::Interval,
            SqlType::Char { length } => SqlTypeV::Char { length: *length },
            SqlType::VarChar { length } => SqlTypeV::VarChar { length: *length },
            SqlType::Bit { length } => SqlTypeV::Bit { length: *length },
            SqlType::VarBit { length } => SqlTypeV::VarBit { length: *length },
            SqlType::Text => SqlTypeV::Text,
            SqlType::Json => SqlTypeV::Json,
            SqlType::Jsonb => SqlTypeV::Jsonb,
            SqlType::Float4 => SqlTypeV::Float4,
            SqlType::Float8 => SqlTypeV::Float8,
            SqlType::Enum { name, tags } => SqlTypeV::Enum {
                name: name@,
                tags: tags.deep_view(),
            },
            SqlType::Unknown => SqlTypeV::Unknown,
        }
    }
}

/// The mathematical shape of a `QueryItem`.
pub ghost struct QueryItemV {
    pub name: Seq<char>,
    pub sql_type: SqlTypeV,
    pub nullable: Nullability,
}

impl DeepView for SqlType {
    type V = SqlTypeV;

    open spec fn deep_view(&self) -> SqlTypeV {
        self.view()
    }
}

impl View for QueryItem {
    type V = QueryItemV;

    open spec fn view(&self) -> QueryItemV {
        QueryItemV { name: self.name@, sql_type: self.sql_type@, nullable: self.nullable }
    }
}

impl DeepView for QueryItem {
    type V = QueryItemV;

    open spec fn deep_view(&self) -> QueryItemV {
        self.view()
    }
}

/// The mathematical shape of an `InformationSchema` row.
pub ghost struct InfoV {
    pub is_nullable: Option<bool>,
    pub character_maximum_length: Option<i32>,
    pub numeric_precision: Option<i32>,
    pub numeric_precision_radix: Option<i32>,
    pub numeric_scale: Option<i32>,
    pub column_default: Option<Seq<char>>,
}

impl View for InformationSchema {
    type V = InfoV;

    open spec fn view(&self) -> InfoV {
        InfoV {
            is_nullable: self.is_nullable,
            character_maximum_length: self.character_maximum_length,
            numeric_precision: self.numeric_precision,
            numeric_precision_radix: self.numeric_precision_radix,
            numeric_scale: self.numeric_scale,
            column_default: match self.column_default {
                Some(s) => Some(s@),
                None => None,
            },
        }
    }
}

impl DeepView for InformationSchema {
    type V = InfoV;

    open spec fn deep_view(&self) -> InfoV {
        self.view()
    }
}

impl Clone for InformationSchema {
    /// A row equal in view to this one.
    fn clone(&self) -> (r: Self)
        ensures
            r@ == self@,
    {
        InformationSchema {
            is_nullable: self.is_nullable,
            character_maximum_length: self.character_maximum_length,
            numeric_precision: self.numeric_precision,
            numeric_precision_radix: self.numeric_precision_radix,
            numeric_scale: self.numeric_scale,
            column_default: match &self.column_default {
                Some(s) => Some(s.clone()),
                None => None,
            },
        }
    }
}

impl Clone for QueryItem {
    /// An item equal in view to this one.
    fn clone(&self) -> (r: Self)
        ensures
            r@ == self@,
    {
        QueryItem {
            name: self.name.clone(),
            sql_type: self.sql_type.clone(),
            nullable: self.nullable,
        }
    }
}

/// The numeric types, those that take part in arithmetic promotion.
pub open spec fn spec_is_numeric(t: SqlTypeV) -> bool {
    match t {
        SqlTypeV::Int2
        | SqlTypeV::Int4
        | SqlTypeV::Int8
        | SqlTypeV::SmallSerial
        | SqlTypeV::Serial
        | SqlTypeV::BigSerial
        | SqlTypeV::Decimal { .. }
        | SqlTypeV::Float4
        | SqlTypeV::Float8 => true,
        _ => false,
    }
}

/// The textual types.
pub open spec fn spec_is_text(t: SqlTypeV) -> bool {
    match t {
        SqlTypeV::Char { .. } | SqlTypeV::VarChar { .. } | SqlTypeV::Text => true,
        _ => false,
    }
}

/// The promotion rank of a numeric type:
/// Int2 < Int4 < Int8 < Decimal < Float4 < Float8.
pub open spec fn spec_numeric_rank(t: SqlTypeV) -> Option<u8> {
    match t {
        SqlTypeV::Int2 | SqlTypeV::SmallSerial => Some(0u8),
        SqlTypeV::Int4 | SqlTypeV::Serial => Some(1u8),
        SqlTypeV::Int8 | SqlTypeV::BigSerial => Some(2u8),
        SqlTypeV::Decimal { .. } => Some(3u8),
        SqlTypeV::Float4 => Some(4u8),
        SqlTypeV::Float8 => Some(5u8),
        _ => None,
    }
}

/// How two types compare in the numeric promotion order; `None` when
/// either is not numeric.
pub open spec fn spec_numeric_compare(a: SqlTypeV, b: SqlTypeV) -> Option<core::cmp::Ordering> {
    match (spec_numeric_rank(a), spec_numeric_rank(b)) {
        (Some(ra), Some(rb)) => Some(
            if ra < rb {
                core::cmp::Ordering::Less
            } else if ra == rb {
                core::cmp::Ordering::Equal
            } else {
                core::cmp::Ordering::Greater
            },
        ),
        _ => None,
    }
}

/// The type a driver type name maps to.  Unrecognized names degrade to
/// `Unknown` rather than failing.
pub open spec fn spec_type_of_name(s: Seq<char>) -> SqlType {
    if s == "BOOL"@ {
        SqlType::Bool
    } else if s == "SMALLINT"@ || s == "INT2"@ {
        SqlType::Int2
    } else if s == "INT"@ || s == "INT4"@ {
        SqlType::Int4
    } else if s == "INT8"@ {
        SqlType::Int8
    } else if s == "SMALLSERIAL"@ {
        SqlType::SmallSerial
    } else if s == "SERIAL"@ {
        SqlType::Serial
    } else if s == "BIGSERIAL"@ {
        SqlType::BigSerial
    } else if s == "NUMERIC"@ {
        SqlType::Decimal { precision: None, precision_radix: None }
    } else if s == "TIMESTAMP"@ {
        SqlType::Timestamp { tz: false }
    } else if s == "TIMESTAMPTZ"@ {
        SqlType::Timestamp { tz: true }
    } else if s == "TIME"@ {
        SqlType::Time { tz: false }
    } else if s == "TIMETZ"@ {
        SqlType::Time { tz: true }
    } else if s == "DATE"@ {
        SqlType::Date
    } else if s == "CHAR"@ {
        SqlType::Char { length: None }
    } else if s == "VARCHAR"@ {
        SqlType::VarChar { length: None }
    } else if s == "BIT"@ {
        SqlType::Bit { length: None }
    } else if s == "VARBIT"@ {
        SqlType::VarBit { length: None }
    } else if s == "TEXT"@ {
        SqlType::Text
    } else if s == "JSON"@ {
        SqlType::Json
    } else if s == "JSONB"@ {
        SqlType::Jsonb
    } else if s == "DOUBLE PRECISION"@ || s == "FLOAT8"@ {
        SqlType::Float8
    } else if s == "REAL"@ || s == "FLOAT4"@ {
        SqlType::Float4
    } else if s == "INTERVAL"@ {
        SqlType::Interval
    } else {
        SqlType::Unknown
    }
}

/// Compares two string slices character by character.
pub fn str_eq(a: &str, b: &str) -> (r: bool)
    ensures
        r == (a@ == b@),
{
    let alen = a.unicode_len();
    let blen = b.unicode_len();
    if alen != blen {
        return false;
    }
    let mut i: usize = 0;
    while i < alen
        invariant
            alen == a@.len(),
            blen == b@.len(),
            alen == blen,
            i <= alen,
            forall|j: int| 0 <= j < i ==> a@[j] == b@[j],
        decreases alen - i,
    {
        if a.get_char(i) != b.get_char(i) {
            return false;
        }
        i = i + 1;
    }
    proof {
        assert(a@ =~= b@);
    }
    true
}

/// Copies a string vector element by element.
pub fn clone_string_vec(v: &Vec<String>) -> (r: Vec<String>)
    ensures
        r.deep_view() == v.deep_view(),
{
    let mut out: Vec<String> = Vec::new();
    let n = v.len();
    let mut i: usize = 0;
    while i < n
        invariant
            n == v.len(),
            i <= n,
            out.len() == i,
            forall|j: int| 0 <= j < i ==> out.deep_view()[j] == v.deep_view()[j],
        decreases n - i,
    {
        out.push(v[i].clone());
        proof {
            assert(out.deep_view()[i as int] == out@[i as int]@);
            assert(v.deep_view()[i as int] == v@[i as int]@);
        }
        i = i + 1;
    }
    proof {
        assert(out.deep_view() =~= v.deep_view());
    }
    out
}

impl Clone for SqlType {
    /// A type equal in view to this one.
    fn clone(&self) -> (r: Self)
        ensures
            r@ == self@,
    {
        match self {
            SqlType::Bool => SqlType::Bool,
            SqlType::Int2 => SqlType::Int2,
            SqlType::Int4 => SqlType::Int4,
            SqlType::Int8 => SqlType::Int8,
            SqlType::SmallSerial => SqlType::SmallSerial,
            SqlType::Serial => SqlType::Serial,
            SqlType::BigSerial => SqlType::BigSerial,
            SqlType::Decimal { precision, precision_radix } => SqlType::Decimal {
                precision: *precision,
                precision_radix: *precision_radix,
            },
            SqlType::Timestamp { tz } => SqlType::Timestamp { tz: *tz },
            SqlType::Date => SqlType::Date,
            SqlType::Time { tz } => SqlType::Time { tz: *tz },
            SqlType::Interval => SqlType::Interval,
            SqlType::Char { length } => SqlType::Char { length: *length },
            SqlType::VarChar { length } => SqlType::VarChar { length: *length },
            SqlType::Bit { length } => SqlType::Bit { length: *length },
            SqlType::VarBit { length } => SqlType::VarBit { length: *length },
            SqlType::Text => SqlType::Text,
            SqlType::Json => SqlType::Json,
            SqlType::Jsonb => SqlType::Jsonb,
            SqlType::Float4 => SqlType::Float4,
            SqlType::Float8 => SqlType::Float8,
            SqlType::Enum { name, tags } => SqlType::Enum {
                name: name.clone(),
                tags: clone_string_vec(tags),
            },
            SqlType::Unknown => SqlType::Unknown,
        }
    }
}

/// Compares two string vectors element by element.
pub fn string_vecs_eq(a: &Vec<String>, b: &Vec<String>) -> (r: bool)
    ensures
        r == (a.deep_view() == b.deep_view()),
{
    if a.len() != b.len() {
        proof {
            assert(a.deep_view().len() == a@.len());
            assert(b.deep_view().len() == b@.len());
        }
        return false;
    }
    let n = a.len();
    let mut i: usize = 0;
    while i < n
        invariant
            n == a.len() == b.len(),
            i <= n,
            forall|j: int| 0 <= j < i ==> a.deep_view()[j] == b.deep_view()[j],
        decreases n - i,
    {
        proof {
            assert(a.deep_view()[i as int] == a@[i as int]@);
            assert(b.deep_view()[i as int] == b@[i as int]@);
        }
        if !crate::inference::str_eq(a[i].as_str(), b[i].as_str()) {
            proof {
                assert(a.deep_view()[i as int] != b.deep_view()[i as int]);
            }
            return false;
        }
        i = i + 1;
    }
    proof {
        assert(a.deep_view() =~= b.deep_view());
    }
    true
}

impl SqlType {
    /// Whether two types agree, down to enum labels.
    pub fn equals(&self, other: &SqlType) -> (r: bool)
        ensures
            r == (self@ == other@),
    {
        match (self, other) {
            (SqlType::Bool, SqlType::Bool) => true,
            (SqlType::Int2, SqlType::Int2) => true,
            (SqlType::Int4, SqlType::Int4) => true,
            (SqlType::Int8, SqlType::Int8) => true,
            (SqlType::SmallSerial, SqlType::SmallSerial) => true,
            (SqlType::Serial, SqlType::Serial) => true,
            (SqlType::BigSerial, SqlType::BigSerial) => true,
            (
                SqlType::Decimal { precision: p1, precision_radix: r1 },
                SqlType::Decimal { precision: p2, precision_radix: r2 },
            ) => p1 == p2 && r1 == r2,
            (SqlType::Timestamp { tz: t1 }, SqlType::Timestamp { tz: t2 }) => t1 == t2,
            (SqlType::Date, SqlType::Date) => true,
            (SqlType::Time { tz: t1 }, SqlType::Time { tz: t2 }) => t1 == t2,
            (SqlType::Interval, SqlType::Interval) => true,
            (SqlType::Char { length: l1 }, SqlType::Char { length: l2 }) => l1 == l2,
            (SqlType::VarChar { length: l1 }, SqlType::VarChar { length: l2 }) => l1 == l2,
            (SqlType::Bit { length: l1 }, SqlType::Bit { length: l2 }) => l1 == l2,
            (SqlType::VarBit { length: l1 }, SqlType::VarBit { length: l2 }) => l1 == l2,
            (SqlType::Text, SqlType::Text) => true,
            (SqlType::Json, SqlType::Json) => true,
            (SqlType::Jsonb, SqlType::Jsonb) => true,
            (SqlType::Float4, SqlType::Float4) => true,
            (SqlType::Float8, SqlType::Float8) => true,
            (SqlType::Enum { name: n1, tags: t1 }, SqlType::Enum { name: n2, tags: t2 }) => str_eq(
                n1.as_str(),
                n2.as_str(),
            ) && string_vecs_eq(t1, t2),
            (SqlType::Unknown, SqlType::Unknown) => true,
            _ => false,
        }
    }

    /// Whether the type takes part in numeric promotion.
    pub fn is_numeric(&self) -> (r: bool)
        ensures
            r == spec_is_numeric(self@),
    {
        match self {
            SqlType::Int2
            | SqlType::Int4
            | SqlType::Int8
            | SqlType::SmallSerial
            | SqlType::Serial
            | SqlType::BigSerial
            | SqlType::Decimal { .. }
            | SqlType::Float4
            | SqlType::Float8 => true,
            _ => false,
        }
    }

    /// Whether the type is textual.
    pub fn is_text(&self) -> (r: bool)
        ensures
            r == spec_is_text(self@),
    {
        match self {
            SqlType::Char { .. } | SqlType::VarChar { .. } | SqlType::Text => true,
            _ => false,
        }
    }

    fn numeric_rank(&self) -> (r: Option<u8>)
        ensures
            r == spec_numeric_rank(self@),
    {
        match self {
            SqlType::Int2 | SqlType::SmallSerial => Some(0u8),
            SqlType::Int4 | SqlType::Serial => Some(1u8),
            SqlType::Int8 | SqlType::BigSerial => Some(2u8),
            SqlType::Decimal { .. } => Some(3u8),
            SqlType::Float4 => Some(4u8),
            SqlType::Float8 => Some(5u8),
            _ => None,
        }
    }

    /// Where the two types stand to each other in the numeric promotion
    /// order; `None` when either is not numeric.
    pub fn numeric_compare(&self, other: &Self) -> (r: Option<core::cmp::Ordering>)
        ensures
            r == spec_numeric_compare(self@, other@),
    {
        match (self.numeric_rank(), other.numeric_rank()) {
            (Some(ra), Some(rb)) => Some(
                if ra < rb {
                    core::cmp::Ordering::Less
                } else if ra == rb {
                    core::cmp::Ordering::Equal
                } else {
                    core::cmp::Ordering::Greater
                },
            ),
            _ => None,
        }
    }

    /// Maps a driver type name to the built-in type table; names outside
    /// the table degrade to `Unknown`.
    pub fn from_str(sql_type: &str) -> (r: SqlType)
        ensures
            r == spec_type_of_name(sql_type@),
    {
        if str_eq(sql_type, "BOOL") {
            SqlType::Bool
        } else if str_eq(sql_type, "SMALLINT") || str_eq(sql_type, "INT2") {
            SqlType::Int2
        } else if str_eq(sql_type, "INT") || str_eq(sql_type, "INT4") {
            SqlType::Int4
        } else if str_eq(sql_type, "INT8") {
            SqlType::Int8
        } else if str_eq(sql_type, "SMALLSERIAL") {
            SqlType::SmallSerial
        } else if str_eq(sql_type, "SERIAL") {
            SqlType::Serial
        } else if str_eq(sql_type, "BIGSERIAL") {
            SqlType::BigSerial
        } else if str_eq(sql_type, "NUMERIC") {
            SqlType::Decimal { precision: None, precision_radix: None }
        } else if str_eq(sql_type, "TIMESTAMP") {
            SqlType::Timestamp { tz: false }
        } else if str_eq(sql_type, "TIMESTAMPTZ") {
            SqlType::Timestamp { tz: true }
        } else if str_eq(sql_type, "TIME") {
            SqlType::Time { tz: false }
        } else if str_eq(sql_type, "TIMETZ") {
            SqlType::Time { tz: true }
        } else if str_eq(sql_type, "DATE") {
            SqlType::Date
        } else if str_eq(sql_type, "CHAR") {
            SqlType::Char { length: None }
        } else if str_eq(sql_type, "VARCHAR") {
            SqlType::VarChar { length: None }
        } else if str_eq(sql_type, "BIT") {
            SqlType::Bit { length: None }
        } else if str_eq(sql_type, "VARBIT") {
            SqlType::VarBit { length: None }
        } else if str_eq(sql_type, "TEXT") {
            SqlType::Text
        } else if str_eq(sql_type, "JSON") {
            SqlType::Json
        } else if str_eq(sql_type, "JSONB") {
            SqlType::Jsonb
        } else if str_eq(sql_type, "DOUBLE PRECISION") || str_eq(sql_type, "FLOAT8") {
            SqlType::Float8
        } else if str_eq(sql_type, "REAL") || str_eq(sql_type, "FLOAT4") {
            SqlType::Float4
        } else if str_eq(sql_type, "INTERVAL") {
            SqlType::Interval
        } else {
            SqlType::Unknown
        }
    }

    /// Builds the type for one driver-reported column or parameter: a
    /// tagged enum when the driver surfaced labels, else the name table.
    pub fn from_driver_type(name: &str, enum_tags: Option<Vec<String>>) -> (r: SqlType)
        ensures
            (match enum_tags {
                Some(tags) => (r matches SqlType::Enum { name: rn, tags: rt } && rn@ == name@
                    && rt == tags),
                None => r == spec_type_of_name(name@),
            }),
    {
        match enum_tags {
            Some(tags) => SqlType::Enum { name: name.to_owned(), tags },
            None => SqlType::from_str(name),
        }
    }
}


/// The catalog rows collected while walking one provenance expression,
/// keyed by the sub-expression they were aggregated for.  Lookup goes by
/// provenance equality, under which `Either` is an unordered pair.
pub struct SchemaMap {
    entries: Vec<(crate::parser::Column, InformationSchema)>,
}

/// The row stored under `key`, the latest entry winning.
pub open spec fn spec_schema_lookup(
    entries: Seq<(crate::parser::ColumnV, InfoV)>,
    key: crate::parser::ColumnV,
) -> Option<InfoV>
    decreases entries.len(),
{
    if entries.len() == 0 {
        None
    } else if crate::parser::col_veq(entries.last().0, key) {
        Some(entries.last().1)
    } else {
        spec_schema_lookup(entries.drop_last(), key)
    }
}

impl View for SchemaMap {
    type V = Seq<(crate::parser::ColumnV, InfoV)>;

    closed spec fn view(&self) -> Seq<(crate::parser::ColumnV, InfoV)> {
        Seq::new(self.entries@.len(), |i: int| (self.entries@[i].0@, self.entries@[i].1@))
    }
}

impl SchemaMap {
    /// An empty collection.
    pub fn new() -> (r: SchemaMap)
        ensures
            r@ == Seq::<(crate::parser::ColumnV, InfoV)>::empty(),
    {
        let r = SchemaMap { entries: Vec::new() };
        proof {
            assert(r@ =~= Seq::<(crate::parser::ColumnV, InfoV)>::empty());
        }
        r
    }

    /// Records `info` under `key`.
    pub fn insert(&mut self, key: crate::parser::Column, info: InformationSchema)
        ensures
            final(self)@ == old(self)@.push((key@, info@)),
    {
        let ghost kv = key@;
        let ghost iv = info@;
        self.entries.push((key, info));
        proof {
            assert(self@ =~= old(self)@.push((kv, iv)));
        }
    }

    /// Looks a provenance expression up.
    pub fn get(&self, key: &crate::parser::Column) -> (r: Option<&InformationSchema>)
        ensures
            (match r {
                Some(info) => spec_schema_lookup(self@, key@) == Some(info@),
                None => spec_schema_lookup(self@, key@) is None,
            }),
    {
        let n = self.entries.len();
        let mut i: usize = n;
        proof {
            assert(self@.len() == n);
            assert(self@.take(n as int) =~= self@);
        }
        while i > 0
            invariant
                n == self.entries.len(),
                i <= n,
                self@.len() == n,
                spec_schema_lookup(self@, key@) == spec_schema_lookup(
                    self@.take(i as int),
                    key@,
                ),
            decreases i,
        {
            let idx = i - 1;
            proof {
                assert(self@.take(idx + 1).last() == self@[idx as int]);
                assert(self@.take(idx + 1).drop_last() =~= self@.take(idx as int));
                assert(self@[idx as int].0 == self.entries@[idx as int].0@);
            }
            if self.entries[idx].0.equals(key) {
                return Some(&self.entries[idx].1);
            }
            i = idx;
        }
        proof {
            assert(self@.take(0) =~= Seq::<(crate::parser::ColumnV, InfoV)>::empty());
        }
        None
    }
}

/// The catalog lookups a provenance expression calls for: the (table,
/// column) pair of every `DependsOn` node, in walk order.
pub open spec fn spec_requests(c: crate::parser::ColumnV) -> Seq<(Seq<char>, Seq<char>)>
    decreases c,
{
    match c {
        crate::parser::ColumnV::DependsOn { table, column } => seq![(table, column)],
        crate::parser::ColumnV::Maybe { column } => spec_requests(*column),
        crate::parser::ColumnV::Either { left, right } => spec_requests(*left) + spec_requests(
            *right,
        ),
        crate::parser::ColumnV::Cast { source, .. } => spec_requests(*source),
        crate::parser::ColumnV::BinaryOp { left, right, .. } => spec_requests(*left)
            + spec_requests(*right),
        crate::parser::ColumnV::Unknown { .. } => Seq::empty(),
        crate::parser::ColumnV::Value { .. } => Seq::empty(),
    }
}

/// Lists the catalog lookups a provenance expression calls for.
pub fn schema_requests(col: &crate::parser::Column) -> (r: Vec<(String, String)>)
    ensures
        r.deep_view() == spec_requests(col@),
    decreases col,
{
    match col {
        crate::parser::Column::DependsOn { table, column } => {
            let mut out: Vec<(String, String)> = Vec::new();
            out.push((table.clone(), column.clone()));
            proof {
                assert(out.deep_view() =~= spec_requests(col@));
            }
            out
        },
        crate::parser::Column::Maybe { column } => schema_requests(column),
        crate::parser::Column::Either { left, right } => {
            let mut out = schema_requests(left);
            let mut rs = schema_requests(right);
            let ghost lv = out.deep_view();
            let ghost rv = rs.deep_view();
            let ghost prev = out@;
            let ghost tail = rs@;
            out.append(&mut rs);
            proof {
                assert(out@ == prev + tail);
                assert forall|i: int| 0 <= i < out@.len() implies #[trigger] out.deep_view()[i]
                    == (lv + rv)[i] by {
                    assert(out.deep_view()[i] == out@[i].deep_view());
                    if i < prev.len() {
                        assert(out@[i] == prev[i]);
                        assert(lv[i] == prev[i].deep_view());
                    } else {
                        assert(out@[i] == tail[i - prev.len()]);
                        assert(rv[i - prev.len()] == tail[i - prev.len()].deep_view());
                    }
                }
                assert(out.deep_view() =~= lv + rv);
                assert(out.deep_view() =~= spec_requests(col@));
            }
            out
        },
        crate::parser::Column::Cast { source, .. } => schema_requests(source),
        crate::parser::Column::BinaryOp { left, right, .. } => {
            let mut out = schema_requests(left);
            let mut rs = schema_requests(right);
            let ghost lv = out.deep_view();
            let ghost rv = rs.deep_view();
            let ghost prev = out@;
            let ghost tail = rs@;
            out.append(&mut rs);
            proof {
                assert(out@ == prev + tail);
                assert forall|i: int| 0 <= i < out@.len() implies #[trigger] out.deep_view()[i]
                    == (lv + rv)[i] by {
                    assert(out.deep_view()[i] == out@[i].deep_view());
                    if i < prev.len() {
                        assert(out@[i] == prev[i]);
                        assert(lv[i] == prev[i].deep_view());
                    } else {
                        assert(out@[i] == tail[i - prev.len()]);
                        assert(rv[i - prev.len()] == tail[i - prev.len()].deep_view());
                    }
                }
                assert(out.deep_view() =~= lv + rv);
                assert(out.deep_view() =~= spec_requests(col@));
            }
            out
        },
        crate::parser::Column::Unknown { .. } => {
            let out: Vec<(String, String)> = Vec::new();
            proof {
                assert(out.deep_view() =~= spec_requests(col@));
            }
            out
        },
        crate::parser::Column::Value(..) => {
            let out: Vec<(String, String)> = Vec::new();
            proof {
                assert(out.deep_view() =~= spec_requests(col@));
            }
            out
        },
    }
}




/// The entry the walk records for a node: one pair when the node got an
/// aggregate row, nothing otherwise.
pub open spec fn spec_record(c: crate::parser::ColumnV, agg: Option<InfoV>) -> Seq<
    (crate::parser::ColumnV, InfoV),
> {
    match agg {
        Some(info) => seq![(c, info)],
        None => Seq::empty(),
    }
}

/// What walking one provenance expression produces, with the catalog
/// responses supplied as a sequence consumed left to right.
pub ghost struct WalkOut {
    pub new_pos: int,
    pub aggregate: Option<InfoV>,
    pub added: Seq<(crate::parser::ColumnV, InfoV)>,
}

/// The walk that collects catalog rows: a `DependsOn` consumes the next
/// response; `Maybe` and `Cast` pass their child's aggregate through; an
/// `Either` keeps the one side that answered, and drops both when both or
/// neither did; a `BinaryOp` walks its operands but aggregates nothing;
/// literals and unknown shapes are skipped.  Every node whose aggregate is
/// a row records that row under itself, after its children's records.
pub open spec fn spec_walk(
    c: crate::parser::ColumnV,
    results: Seq<Option<InfoV>>,
    pos: int,
) -> WalkOut
    decreases c,
{
    match c {
        crate::parser::ColumnV::DependsOn { .. } => {
            let agg = if 0 <= pos < results.len() {
                results[pos]
            } else {
                None
            };
            WalkOut { new_pos: pos + 1, aggregate: agg, added: spec_record(c, agg) }
        },
        crate::parser::ColumnV::Maybe { column } => {
            let inner = spec_walk(*column, results, pos);
            WalkOut {
                new_pos: inner.new_pos,
                aggregate: inner.aggregate,
                added: inner.added + spec_record(c, inner.aggregate),
            }
        },
        crate::parser::ColumnV::Either { left, right } => {
            let l = spec_walk(*left, results, pos);
            let r = spec_walk(*right, results, l.new_pos);
            let agg = match (l.aggregate, r.aggregate) {
                (None, None) => None,
                (None, Some(info)) => Some(info),
                (Some(info), None) => Some(info),
                (Some(_), Some(_)) => None,
            };
            WalkOut { new_pos: r.new_pos, aggregate: agg, added: l.added + r.added + spec_record(c, agg) }
        },
        crate::parser::ColumnV::Cast { source, .. } => {
            let s = spec_walk(*source, results, pos);
            WalkOut {
                new_pos: s.new_pos,
                aggregate: s.aggregate,
                added: s.added + spec_record(c, s.aggregate),
            }
        },
        crate::parser::ColumnV::BinaryOp { left, right, .. } => {
            let l = spec_walk(*left, results, pos);
            let r = spec_walk(*right, results, l.new_pos);
            WalkOut { new_pos: r.new_pos, aggregate: None, added: l.added + r.added }
        },
        crate::parser::ColumnV::Unknown { .. } => WalkOut {
            new_pos: pos,
            aggregate: None,
            added: Seq::empty(),
        },
        crate::parser::ColumnV::Value { .. } => WalkOut {
            new_pos: pos,
            aggregate: None,
            added: Seq::empty(),
        },
    }
}

/// The walk consumes exactly one response per catalog request.
pub proof fn lemma_walk_pos(c: crate::parser::ColumnV, results: Seq<Option<InfoV>>, pos: int)
    ensures
        spec_walk(c, results, pos).new_pos == pos + spec_requests(c).len(),
    decreases c,
{
    match c {
        crate::parser::ColumnV::Maybe { column } => {
            lemma_walk_pos(*column, results, pos);
        },
        crate::parser::ColumnV::Either { left, right } => {
            lemma_walk_pos(*left, results, pos);
            lemma_walk_pos(*right, results, spec_walk(*left, results, pos).new_pos);
        },
        crate::parser::ColumnV::Cast { source, .. } => {
            lemma_walk_pos(*source, results, pos);
        },
        crate::parser::ColumnV::BinaryOp { left, right, .. } => {
            lemma_walk_pos(*left, results, pos);
            lemma_walk_pos(*right, results, spec_walk(*left, results, pos).new_pos);
        },
        _ => {},
    }
}

/// Walks one provenance expression, consuming the catalog responses in
/// request order, recording rows in `map`, and returning the position
/// after the walk and the node's aggregate row.
#[verifier::rlimit(60)]
pub fn collect_info(
    col: &crate::parser::Column,
    results: &Vec<Option<InformationSchema>>,
    pos: usize,
    map: &mut SchemaMap,
) -> (r: (usize, Option<InformationSchema>))
    requires
        pos + spec_requests(col@).len() <= results@.len(),
    ensures
        r.0 as int == spec_walk(col@, results.deep_view(), pos as int).new_pos,
        r.1.deep_view() == spec_walk(col@, results.deep_view(), pos as int).aggregate,
        final(map)@ == old(map)@ + spec_walk(col@, results.deep_view(), pos as int).added,
    decreases col,
{
    proof {
        lemma_walk_pos(col@, results.deep_view(), pos as int);
        assert(results.deep_view().len() == results@.len());
    }
    let ghost w = spec_walk(col@, results.deep_view(), pos as int);
    let n = results.len();
    match col {
        crate::parser::Column::DependsOn { .. } => {
            proof {
                assert(spec_requests(col@).len() == 1);
                assert(pos + 1 <= n);
                assert(results.deep_view()[pos as int] == results@[pos as int].deep_view());
            }
            let agg: Option<InformationSchema> = match &results[pos] {
                Some(info) => Some(info.clone()),
                None => None,
            };
            match &agg {
                Some(info) => {
                    map.insert(col.clone(), info.clone());
                    proof {
                        assert(map@ =~= old(map)@ + w.added);
                    }
                },
                None => {
                    proof {
                        assert(map@ =~= old(map)@ + w.added);
                    }
                },
            }
            (pos + 1, agg)
        },
        crate::parser::Column::Maybe { column } => {
            let (p, agg) = collect_info(column, results, pos, map);
            match &agg {
                Some(info) => {
                    map.insert(col.clone(), info.clone());
                    proof {
                        assert(map@ =~= old(map)@ + w.added);
                    }
                },
                None => {
                    proof {
                        assert(map@ =~= old(map)@ + w.added);
                    }
                },
            }
            (p, agg)
        },
        crate::parser::Column::Either { left, right } => {
            let (p1, l_agg) = collect_info(left, results, pos, map);
            proof {
                lemma_walk_pos(left@, results.deep_view(), pos as int);
                lemma_walk_pos(right@, results.deep_view(), p1 as int);
            }
            let (p2, r_agg) = collect_info(right, results, p1, map);
            let agg: Option<InformationSchema> = match (l_agg, r_agg) {
                (None, None) => None,
                (None, Some(info)) => Some(info),
                (Some(info), None) => Some(info),
                (Some(_), Some(_)) => None,
            };
            match &agg {
                Some(info) => {
                    map.insert(col.clone(), info.clone());
                    proof {
                        assert(map@ =~= old(map)@ + w.added);
                    }
                },
                None => {
                    proof {
                        assert(map@ =~= old(map)@ + w.added);
                    }
                },
            }
            (p2, agg)
        },
        crate::parser::Column::Cast { source, .. } => {
            let (p, agg) = collect_info(source, results, pos, map);
            match &agg {
                Some(info) => {
                    map.insert(col.clone(), info.clone());
                    proof {
                        assert(map@ =~= old(map)@ + w.added);
                    }
                },
                None => {
                    proof {
                        assert(map@ =~= old(map)@ + w.added);
                    }
                },
            }
            (p, agg)
        },
        crate::parser::Column::BinaryOp { left, right, .. } => {
            let (p1, _l_agg) = collect_info(left, results, pos, map);
            proof {
                lemma_walk_pos(left@, results.deep_view(), pos as int);
                lemma_walk_pos(right@, results.deep_view(), p1 as int);
            }
            let (p2, _r_agg) = collect_info(right, results, p1, map);
            proof {
                assert(map@ =~= old(map)@ + w.added);
            }
            (p2, None)
        },
        crate::parser::Column::Unknown { .. } => {
            proof {
                assert(map@ =~= old(map)@ + w.added);
            }
            (pos, None)
        },
        crate::parser::Column::Value(..) => {
            proof {
                assert(map@ =~= old(map)@ + w.added);
            }
            (pos, None)
        },
    }
}


/// The words a type prints as: the Rust-ish scalar names, SQL names with
/// their widths, and an enum's name with its labels.
pub open spec fn spec_display_text(t: SqlTypeV) -> Seq<char> {
    match t {
        SqlTypeV::Bool => "bool"@,
        SqlTypeV::Int2 => "i16"@,
        SqlTypeV::Int4 => "i32"@,
        SqlTypeV::Int8 => "i64"@,
        SqlTypeV::SmallSerial => "i16"@,
        SqlTypeV::Serial => "i32"@,
        SqlTypeV::BigSerial => "i64"@,
        SqlTypeV::Decimal { precision, precision_radix } => match (precision, precision_radix) {
            (Some(p), Some(r)) => "decimal("@ + crate::utils::spec_dec_digits(p as nat) + ", "@
                + crate::utils::spec_dec_digits(r as nat) + ")"@,
            _ => "decimal"@,
        },
        SqlTypeV::Timestamp { tz } => if tz {
            "timestamp "@ + "with time zone"@
        } else {
            "timestamp "@ + "without time zone"@
        },
        SqlTypeV::Date => "date"@,
        SqlTypeV::Time { tz } => if tz {
            "time "@ + "with time zone"@
        } else {
            "time "@ + "without time zone"@
        },
        SqlTypeV::Interval => "interval"@,
        SqlTypeV::Char { length } => match length {
            Some(l) => "char("@ + crate::utils::spec_dec_digits(l as nat) + ")"@,
            None => "char"@,
        },
        SqlTypeV::VarChar { length } => match length {
            Some(l) => "varchar("@ + crate::utils::spec_dec_digits(l as nat) + ")"@,
            None => "varchar"@,
        },
        SqlTypeV::Bit { length } => "bit("@ + crate::utils::spec_dec_digits(
            (match length {
                Some(l) => l,
                None => 1u32,
            }) as nat,
        ) + ")"@,
        SqlTypeV::VarBit { length } => match length {
            Some(l) => "varbit("@ + crate::utils::spec_dec_digits(l as nat) + ")"@,
            None => "varbit"@,
        },
        SqlTypeV::Text => "text"@,
        SqlTypeV::Json => "json"@,
        SqlTypeV::Jsonb => "jsonb"@,
        SqlTypeV::Float4 => "f32"@,
        SqlTypeV::Float8 => "f64"@,
        SqlTypeV::Enum { name, tags } => name + ": "@ + crate::utils::spec_join(tags, ", "@),
        SqlTypeV::Unknown => "unknown"@,
    }
}

impl SqlType {
    /// Renders the type as the schema display prints it.
    pub fn display_text(&self) -> (r: String)
        ensures
            r@ == spec_display_text(self@),
    {
        let mut out = String::new();
        match self {
            SqlType::Bool => out.append("bool"),
            SqlType::Int2 => out.append("i16"),
            SqlType::Int4 => out.append("i32"),
            SqlType::Int8 => out.append("i64"),
            SqlType::SmallSerial => out.append("i16"),
            SqlType::Serial => out.append("i32"),
            SqlType::BigSerial => out.append("i64"),
            SqlType::Decimal { precision, precision_radix } => {
                match (precision, precision_radix) {
                    (Some(p), Some(r)) => {
                        out.append("decimal(");
                        let pd = crate::utils::usize_to_dec(*p as usize);
                        out.append(pd.as_str());
                        out.append(", ");
                        let rd = crate::utils::usize_to_dec(*r as usize);
                        out.append(rd.as_str());
                        out.append(")");
                    },
                    _ => out.append("decimal"),
                }
            },
            SqlType::Timestamp { tz } => {
                out.append("timestamp ");
                if *tz {
                    out.append("with time zone");
                } else {
                    out.append("without time zone");
                }
            },
            SqlType::Date => out.append("date"),
            SqlType::Time { tz } => {
                out.append("time ");
                if *tz {
                    out.append("with time zone");
                } else {
                    out.append("without time zone");
                }
            },
            SqlType::Interval => out.append("interval"),
            SqlType::Char { length } => {
                match length {
                    Some(l) => {
                        out.append("char(");
                        let ld = crate::utils::usize_to_dec(*l as usize);
                        out.append(ld.as_str());
                        out.append(")");
                    },
                    None => out.append("char"),
                }
            },
            SqlType::VarChar { length } => {
                match length {
                    Some(l) => {
                        out.append("varchar(");
                        let ld = crate::utils::usize_to_dec(*l as usize);
                        out.append(ld.as_str());
                        out.append(")");
                    },
                    None => out.append("varchar"),
                }
            },
            SqlType::Bit { length } => {
                out.append("bit(");
                let l: u32 = match length {
                    Some(l) => *l,
                    None => 1,
                };
                let ld = crate::utils::usize_to_dec(l as usize);
                out.append(ld.as_str());
                out.append(")");
            },
            SqlType::VarBit { length } => {
                match length {
                    Some(l) => {
                        out.append("varbit(");
                        let ld = crate::utils::usize_to_dec(*l as usize);
                        out.append(ld.as_str());
                        out.append(")");
                    },
                    None => out.append("varbit"),
                }
            },
            SqlType::Text => out.append("text"),
            SqlType::Json => out.append("json"),
            SqlType::Jsonb => out.append("jsonb"),
            SqlType::Float4 => out.append("f32"),
            SqlType::Float8 => out.append("f64"),
            SqlType::Enum { name, tags } => {
                out.append(name.as_str());
                out.append(": ");
                let joined = crate::utils::join_strings(tags, ", ");
                out.append(joined.as_str());
            },
            SqlType::Unknown => out.append("unknown"),
        }
        proof {
            assert(out@ =~= spec_display_text(self@));
        }
        out
    }
}


/// The provenance expression with every `Either` replaced by its unique
/// schema-bearing side, walking the catalog responses at the same
/// positions as [`spec_walk`].  A `Maybe` or `Cast` wrapping is kept; an
/// `Either` whose sides both answered, or neither, stays as it is, as do
/// operators, literals and unknown shapes.
pub open spec fn spec_collapse_col(
    c: crate::parser::ColumnV,
    results: Seq<Option<InfoV>>,
    pos: int,
) -> crate::parser::ColumnV
    decreases c,
{
    match c {
        crate::parser::ColumnV::Maybe { column } => crate::parser::ColumnV::Maybe {
            column: Box::new(spec_collapse_col(*column, results, pos)),
        },
        crate::parser::ColumnV::Either { left, right } => {
            let right_pos = pos + spec_requests(*left).len();
            let l = spec_walk(*left, results, pos).aggregate;
            let r = spec_walk(*right, results, right_pos).aggregate;
            match (l, r) {
                (None, Some(_)) => spec_collapse_col(*right, results, right_pos),
                (Some(_), None) => spec_collapse_col(*left, results, pos),
                _ => c,
            }
        },
        crate::parser::ColumnV::Cast { source, data_type } => crate::parser::ColumnV::Cast {
            source: Box::new(spec_collapse_col(*source, results, pos)),
            data_type,
        },
        _ => c,
    }
}

/// Collapses one provenance expression against the catalog responses,
/// consuming them in request order: every `Either` with exactly one
/// schema-bearing side is replaced by that side, and the expression's
/// aggregate row is returned beside it.  An operator's operand responses
/// are skipped over, so the positions stay those of the request list.
#[verifier::rlimit(60)]
pub fn collapse_column(
    col: &crate::parser::Column,
    results: &Vec<Option<InformationSchema>>,
    pos: usize,
) -> (r: (usize, crate::parser::Column, Option<InformationSchema>))
    requires
        pos + spec_requests(col@).len() <= results@.len(),
    ensures
        r.0 as int == pos + spec_requests(col@).len(),
        r.1@ == spec_collapse_col(col@, results.deep_view(), pos as int),
        r.2.deep_view() == spec_walk(col@, results.deep_view(), pos as int).aggregate,
    decreases col,
{
    proof {
        lemma_walk_pos(col@, results.deep_view(), pos as int);
        assert(results.deep_view().len() == results@.len());
    }
    let n = results.len();
    match col {
        crate::parser::Column::DependsOn { .. } => {
            proof {
                assert(spec_requests(col@).len() == 1);
                assert(pos + 1 <= n);
                assert(results.deep_view()[pos as int] == results@[pos as int].deep_view());
            }
            let agg: Option<InformationSchema> = match &results[pos] {
                Some(info) => Some(info.clone()),
                None => None,
            };
            (pos + 1, col.clone(), agg)
        },
        crate::parser::Column::Maybe { column } => {
            let (p, inner, agg) = collapse_column(column, results, pos);
            (p, inner.maybe(), agg)
        },
        crate::parser::Column::Either { left, right } => {
            proof {
                lemma_walk_pos(left@, results.deep_view(), pos as int);
            }
            let (p1, lc, lagg) = collapse_column(left, results, pos);
            let (p2, rc, ragg) = collapse_column(right, results, p1);
            match (lagg, ragg) {
                (None, Some(info)) => (p2, rc, Some(info)),
                (Some(info), None) => (p2, lc, Some(info)),
                (None, None) => (p2, col.clone(), None),
                (Some(_), Some(_)) => (p2, col.clone(), None),
            }
        },
        crate::parser::Column::Cast { source, data_type } => {
            let (p, inner, agg) = collapse_column(source, results, pos);
            (p, inner.cast(data_type.clone()), agg)
        },
        crate::parser::Column::BinaryOp { .. } => {
            let reqs = schema_requests(col);
            let skip = reqs.len();
            proof {
                assert(reqs.deep_view().len() == reqs@.len());
            }
            (pos + skip, col.clone(), None)
        },
        crate::parser::Column::Unknown { .. } => (pos, col.clone(), None),
        crate::parser::Column::Value(..) => (pos, col.clone(), None),
    }
}

} // verus!
