//! The provenance resolver: builds a table tree for each FROM clause and,
//! for every projected column, an algebraic provenance expression that says
//! which physical table and column the value traces back to, combined
//! through joins, casts, operators and literals.

use vstd::prelude::*;

use crate::syntax;
use crate::inference::{spec_is_numeric, spec_is_text, spec_numeric_compare, SqlType, SqlTypeV};

verus! {

/// What the resolver cannot handle, and why.
#[derive(Debug, Clone, PartialEq, Eq)]
pub enum ParserError {
    UnsupportedStatement { statement: String },
    UnsupportedQueryElement { name: String },
    UnsupportedTableType { msg: String },
    ParseFailed { message: String },
}

/// A table reference tree built from a FROM clause.
#[derive(Debug, PartialEq, Eq, Hash)]
pub enum Table {
    Db { name: String },
    Alias { name: String, source: Box<Table> },
    Join { left: (bool, Box<Table>), right: (bool, Box<Table>) },
    Unknown { sql: String },
}

/// The mathematical shape of a `Table`.
pub ghost enum TableV {
    Db { name: Seq<char> },
    Alias { name: Seq<char>, source: Box<TableV> },
    Join { left_null: bool, left: Box<TableV>, right_null: bool, right: Box<TableV> },
    Unknown { sql: Seq<char> },
}

/// The view of a table tree.
pub open spec fn table_view(t: Table) -> TableV
    decreases t,
{
    match t {
        Table::Db { name } => TableV::Db { name: name@ },
        Table::Alias { name, source } => TableV::Alias {
            name: name@,
            source: Box::new(table_view(*source)),
        },
        Table::Join { left, right } => TableV::Join {
            left_null: left.0,
            left: Box::new(table_view(*left.1)),
            right_null: right.0,
            right: Box::new(table_view(*right.1)),
        },
        Table::Unknown { sql } => TableV::Unknown { sql: sql@ },
    }
}

impl View for Table {
    type V = TableV;

    open spec fn view(&self) -> TableV {
        table_view(*self)
    }
}

/// The kind of a literal value in a projection.
#[derive(Debug, Clone, Copy, PartialEq, Eq, Hash, Structural)]
pub enum ValueType {
    Boolean,
    Int,
    Float,
    Str,
    Null,
}

/// What a binary operator tells us about its result type.
#[derive(Debug, PartialEq, Eq, Hash)]
pub enum BinaryOpData {
    Unknown { inner: syntax::Operator },
    ConstantType { inner: syntax::Operator, sql_type: SqlType },
    Numeric { inner: syntax::Operator },
    Concat,
}

/// The mathematical shape of an `syntax::Operator`.
pub ghost enum OperatorV {
    Plus,
    Minus,
    Multiply,
    Divide,
    Modulo,
    StringConcat,
    Greater,
    Less,
    GreaterEq,
    LessEq,
    Equal,
    NotEqual,
    And,
    Or,
    Xor,
    Other { sql: Seq<char> },
}

impl View for syntax::Operator {
    type V = OperatorV;

    open spec fn view(&self) -> OperatorV {
        match self {
            syntax::Operator::Plus => OperatorV::Plus,
            syntax::Operator::Minus => OperatorV::Minus,
            syntax::Operator::Multiply => OperatorV::Multiply,
            syntax::Operator::Divide => OperatorV::Divide,
            syntax::Operator::Modulo => OperatorV::Modulo,
            syntax::Operator::StringConcat => OperatorV::StringConcat,
            syntax::Operator::Greater => OperatorV::Greater,
            syntax::Operator::Less => OperatorV::Less,
            syntax::Operator::GreaterEq => OperatorV::GreaterEq,
            syntax::Operator::LessEq => OperatorV::LessEq,
            syntax::Operator::Equal => OperatorV::Equal,
            syntax::Operator::NotEqual => OperatorV::NotEqual,
            syntax::Operator::And => OperatorV::And,
            syntax::Operator::Or => OperatorV::Or,
            syntax::Operator::Xor => OperatorV::Xor,
            syntax::Operator::Other { sql } => OperatorV::Other { sql: sql@ },
        }
    }
}

/// The mathematical shape of a `BinaryOpData`.
pub ghost enum BinaryOpDataV {
    Unknown { inner: OperatorV },
    ConstantType { inner: OperatorV, sql_type: SqlTypeV },
    Numeric { inner: OperatorV },
    Concat,
}

impl View for BinaryOpData {
    type V = BinaryOpDataV;

    open spec fn view(&self) -> BinaryOpDataV {
        match self {
            BinaryOpData::Unknown { inner } => BinaryOpDataV::Unknown { inner: inner@ },
            BinaryOpData::ConstantType { inner, sql_type } => BinaryOpDataV::ConstantType {
                inner: inner@,
                sql_type: sql_type@,
            },
            BinaryOpData::Numeric { inner } => BinaryOpDataV::Numeric { inner: inner@ },
            BinaryOpData::Concat => BinaryOpDataV::Concat,
        }
    }
}

/// A column provenance expression, the central abstraction of the
/// resolver.
#[derive(Debug, PartialEq, Eq, Hash)]
pub enum Column {
    DependsOn { table: String, column: String },
    Maybe { column: Box<Column> },
    Either { left: Box<Column>, right: Box<Column> },
    Unknown { sql: String },
    Cast { source: Box<Column>, data_type: String },
    BinaryOp { op: BinaryOpData, left: Box<Column>, right: Box<Column> },
    Value(ValueType),
}

/// The mathematical shape of a `Column`.
pub ghost enum ColumnV {
    DependsOn { table: Seq<char>, column: Seq<char> },
    Maybe { column: Box<ColumnV> },
    Either { left: Box<ColumnV>, right: Box<ColumnV> },
    Unknown { sql: Seq<char> },
    Cast { source: Box<ColumnV>, data_type: Seq<char> },
    BinaryOp { op: BinaryOpDataV, left: Box<ColumnV>, right: Box<ColumnV> },
    Value { value: ValueType },
}

/// The view of a provenance expression.
pub open spec fn column_view(c: Column) -> ColumnV
    decreases c,
{
    match c {
        Column::DependsOn { table, column } => ColumnV::DependsOn {
            table: table@,
            column: column@,
        },
        Column::Maybe { column } => ColumnV::Maybe { column: Box::new(column_view(*column)) },
        Column::Either { left, right } => ColumnV::Either {
            left: Box::new(column_view(*left)),
            right: Box::new(column_view(*right)),
        },
        Column::Unknown { sql } => ColumnV::Unknown { sql: sql@ },
        Column::Cast { source, data_type } => ColumnV::Cast {
            source: Box::new(column_view(*source)),
            data_type: data_type@,
        },
        Column::BinaryOp { op, left, right } => ColumnV::BinaryOp {
            op: op@,
            left: Box::new(column_view(*left)),
            right: Box::new(column_view(*right)),
        },
        Column::Value(value) => ColumnV::Value { value },
    }
}

impl View for Column {
    type V = ColumnV;

    open spec fn view(&self) -> ColumnV {
        column_view(*self)
    }
}

/// Provenance equality.  `Either` is a choice between alternatives, so it
/// compares as an unordered pair: the two orderings are tried.
pub open spec fn col_veq(a: ColumnV, b: ColumnV) -> bool
    decreases a,
{
    match (a, b) {
        (ColumnV::DependsOn { table: t1, column: c1 }, ColumnV::DependsOn { table: t2, column: c2 }) => t1
            == t2 && c1 == c2,
        (ColumnV::Maybe { column: c1 }, ColumnV::Maybe { column: c2 }) => col_veq(*c1, *c2),
        (ColumnV::Either { left: l1, right: r1 }, ColumnV::Either { left: l2, right: r2 }) => (
        col_veq(*l1, *l2) && col_veq(*r1, *r2)) || (col_veq(*l1, *r2) && col_veq(*r1, *l2)),
        (ColumnV::Unknown { sql: s1 }, ColumnV::Unknown { sql: s2 }) => s1 == s2,
        (
            ColumnV::Cast { source: s1, data_type: d1 },
            ColumnV::Cast { source: s2, data_type: d2 },
        ) => col_veq(*s1, *s2) && d1 == d2,
        (
            ColumnV::BinaryOp { op: o1, left: l1, right: r1 },
            ColumnV::BinaryOp { op: o2, left: l2, right: r2 },
        ) => o1 == o2 && col_veq(*l1, *l2) && col_veq(*r1, *r2),
        (ColumnV::Value { value: v1 }, ColumnV::Value { value: v2 }) => v1 == v2,
        _ => false,
    }
}

fn operator_eq(a: &syntax::Operator, b: &syntax::Operator) -> (r: bool)
    ensures
        r == (a@ == b@),
{
    match (a, b) {
        (syntax::Operator::Plus, syntax::Operator::Plus) => true,
        (syntax::Operator::Minus, syntax::Operator::Minus) => true,
        (syntax::Operator::Multiply, syntax::Operator::Multiply) => true,
        (syntax::Operator::Divide, syntax::Operator::Divide) => true,
        (syntax::Operator::Modulo, syntax::Operator::Modulo) => true,
        (syntax::Operator::StringConcat, syntax::Operator::StringConcat) => true,
        (syntax::Operator::Greater, syntax::Operator::Greater) => true,
        (syntax::Operator::Less, syntax::Operator::Less) => true,
        (syntax::Operator::GreaterEq, syntax::Operator::GreaterEq) => true,
        (syntax::Operator::LessEq, syntax::Operator::LessEq) => true,
        (syntax::Operator::Equal, syntax::Operator::Equal) => true,
        (syntax::Operator::NotEqual, syntax::Operator::NotEqual) => true,
        (syntax::Operator::And, syntax::Operator::And) => true,
        (syntax::Operator::Or, syntax::Operator::Or) => true,
        (syntax::Operator::Xor, syntax::Operator::Xor) => true,
        (syntax::Operator::Other { sql: s1 }, syntax::Operator::Other { sql: s2 }) => crate::inference::str_eq(
            s1.as_str(),
            s2.as_str(),
        ),
        _ => false,
    }
}

fn bin_op_data_eq(a: &BinaryOpData, b: &BinaryOpData) -> (r: bool)
    ensures
        r == (a@ == b@),
{
    match (a, b) {
        (BinaryOpData::Unknown { inner: i1 }, BinaryOpData::Unknown { inner: i2 }) => operator_eq(
            i1,
            i2,
        ),
        (
            BinaryOpData::ConstantType { inner: i1, sql_type: t1 },
            BinaryOpData::ConstantType { inner: i2, sql_type: t2 },
        ) => operator_eq(i1, i2) && t1.equals(t2),
        (BinaryOpData::Numeric { inner: i1 }, BinaryOpData::Numeric { inner: i2 }) => operator_eq(
            i1,
            i2,
        ),
        (BinaryOpData::Concat, BinaryOpData::Concat) => true,
        _ => false,
    }
}

impl Clone for syntax::Operator {
    /// An operator equal in view to this one.
    fn clone(&self) -> (r: Self)
        ensures
            r@ == self@,
    {
        match self {
            syntax::Operator::Plus => syntax::Operator::Plus,
            syntax::Operator::Minus => syntax::Operator::Minus,
            syntax::Operator::Multiply => syntax::Operator::Multiply,
            syntax::Operator::Divide => syntax::Operator::Divide,
            syntax::Operator::Modulo => syntax::Operator::Modulo,
            syntax::Operator::StringConcat => syntax::Operator::StringConcat,
            syntax::Operator::Greater => syntax::Operator::Greater,
            syntax::Operator::Less => syntax::Operator::Less,
            syntax::Operator::GreaterEq => syntax::Operator::GreaterEq,
            syntax::Operator::LessEq => syntax::Operator::LessEq,
            syntax::Operator::Equal => syntax::Operator::Equal,
            syntax::Operator::NotEqual => syntax::Operator::NotEqual,
            syntax::Operator::And => syntax::Operator::And,
            syntax::Operator::Or => syntax::Operator::Or,
            syntax::Operator::Xor => syntax::Operator::Xor,
            syntax::Operator::Other { sql } => syntax::Operator::Other { sql: sql.clone() },
        }
    }
}

impl Clone for BinaryOpData {
    /// Operator data equal in view to this one.
    fn clone(&self) -> (r: Self)
        ensures
            r@ == self@,
    {
        match self {
            BinaryOpData::Unknown { inner } => BinaryOpData::Unknown { inner: inner.clone() },
            BinaryOpData::ConstantType { inner, sql_type } => BinaryOpData::ConstantType {
                inner: inner.clone(),
                sql_type: sql_type.clone(),
            },
            BinaryOpData::Numeric { inner } => BinaryOpData::Numeric { inner: inner.clone() },
            BinaryOpData::Concat => BinaryOpData::Concat,
        }
    }
}

impl Clone for Column {
    /// A provenance expression equal in view to this one.
    fn clone(&self) -> (r: Self)
        ensures
            r@ == self@,
        decreases self,
    {
        match self {
            Column::DependsOn { table, column } => Column::DependsOn {
                table: table.clone(),
                column: column.clone(),
            },
            Column::Maybe { column } => Column::Maybe { column: Box::new((**column).clone()) },
            Column::Either { left, right } => Column::Either {
                left: Box::new((**left).clone()),
                right: Box::new((**right).clone()),
            },
            Column::Unknown { sql } => Column::Unknown { sql: sql.clone() },
            Column::Cast { source, data_type } => Column::Cast {
                source: Box::new((**source).clone()),
                data_type: data_type.clone(),
            },
            Column::BinaryOp { op, left, right } => Column::BinaryOp {
                op: op.clone(),
                left: Box::new((**left).clone()),
                right: Box::new((**right).clone()),
            },
            Column::Value(value) => Column::Value(*value),
        }
    }
}

impl Clone for Table {
    /// A table tree equal in view to this one.
    fn clone(&self) -> (r: Self)
        ensures
            r@ == self@,
        decreases self,
    {
        match self {
            Table::Db { name } => Table::Db { name: name.clone() },
            Table::Alias { name, source } => Table::Alias {
                name: name.clone(),
                source: Box::new((**source).clone()),
            },
            Table::Join { left, right } => Table::Join {
                left: (left.0, Box::new((*left.1).clone())),
                right: (right.0, Box::new((*right.1).clone())),
            },
            Table::Unknown { sql } => Table::Unknown { sql: sql.clone() },
        }
    }
}

/// Wraps a provenance expression in `Maybe` when its join side is
/// null-extended.
pub open spec fn spec_wrap(c: ColumnV, null_extended: bool) -> ColumnV {
    if null_extended {
        ColumnV::Maybe { column: Box::new(c) }
    } else {
        c
    }
}

/// Resolving an unqualified identifier against a table tree: a physical
/// table yields the column itself, an alias is transparent, a join offers
/// both sides (each wrapped in `Maybe` when null-extended), and an
/// unrecognized factor stays unknown.
pub open spec fn spec_find_column(t: TableV, ident: Seq<char>) -> ColumnV
    decreases t,
{
    match t {
        TableV::Db { name } => ColumnV::DependsOn { table: name, column: ident },
        TableV::Alias { name, source } => spec_find_column(*source, ident),
        TableV::Join { left_null, left, right_null, right } => ColumnV::Either {
            left: Box::new(spec_wrap(spec_find_column(*left, ident), left_null)),
            right: Box::new(spec_wrap(spec_find_column(*right, ident), right_null)),
        },
        TableV::Unknown { sql } => ColumnV::Unknown { sql },
    }
}

/// Resolving a qualified identifier `table.ident`: only a table or alias
/// whose name matches yields a hit; a join combines whatever its sides
/// yield, and only misses when both sides miss.
pub open spec fn spec_find_table_column(t: TableV, table: Seq<char>, ident: Seq<char>) -> Option<
    ColumnV,
>
    decreases t,
{
    match t {
        TableV::Db { name } => if name == table {
            Some(ColumnV::DependsOn { table, column: ident })
        } else {
            None
        },
        TableV::Alias { name, source } => if name == table {
            Some(spec_find_column(*source, ident))
        } else {
            None
        },
        TableV::Join { left_null, left, right_null, right } => {
            let l = match spec_find_table_column(*left, table, ident) {
                Some(c) => Some(spec_wrap(c, left_null)),
                None => None,
            };
            let r = match spec_find_table_column(*right, table, ident) {
                Some(c) => Some(spec_wrap(c, right_null)),
                None => None,
            };
            match (l, r) {
                (None, None) => None,
                (None, Some(c)) => Some(c),
                (Some(c), None) => Some(c),
                (Some(lc), Some(rc)) => Some(
                    ColumnV::Either { left: Box::new(lc), right: Box::new(rc) },
                ),
            }
        },
        TableV::Unknown { sql } => Some(ColumnV::Unknown { sql }),
    }
}

impl Column {
    /// The provenance of a column of a physical table.
    pub fn depends_on(table: &str, column: &str) -> (r: Column)
        ensures
            r@ == (ColumnV::DependsOn { table: table@, column: column@ }),
    {
        Column::DependsOn { table: table.to_owned(), column: column.to_owned() }
    }

    /// A choice between two candidate provenances.
    pub fn either(left: Column, right: Column) -> (r: Column)
        ensures
            r@ == (ColumnV::Either { left: Box::new(left@), right: Box::new(right@) }),
    {
        Column::Either { left: Box::new(left), right: Box::new(right) }
    }

    /// Marks the provenance as possibly null-extended by an outer join.
    pub fn maybe(self) -> (r: Column)
        ensures
            r@ == (ColumnV::Maybe { column: Box::new(self@) }),
    {
        Column::Maybe { column: Box::new(self) }
    }

    /// An explicit cast of the provenance to `data_type`.
    pub fn cast(self, data_type: String) -> (r: Column)
        ensures
            r@ == (ColumnV::Cast { source: Box::new(self@), data_type: data_type@ }),
    {
        Column::Cast { source: Box::new(self), data_type }
    }

    /// A binary expression over two provenances.
    pub fn bin_op(op: BinaryOpData, left: Column, right: Column) -> (r: Column)
        ensures
            r@ == (ColumnV::BinaryOp {
                op: op@,
                left: Box::new(left@),
                right: Box::new(right@),
            }),
    {
        Column::BinaryOp { op, left: Box::new(left), right: Box::new(right) }
    }

    /// A literal value.
    pub fn value(value: ValueType) -> (r: Column)
        ensures
            r@ == (ColumnV::Value { value }),
    {
        Column::Value(value)
    }
}

impl Table {
    /// A reference to the physical table `name`.
    pub fn new(name: &str) -> (r: Table)
        ensures
            r@ == (TableV::Db { name: name@ }),
    {
        Table::Db { name: name.to_owned() }
    }

    /// Renames `source` to `name`.
    pub fn alias(name: &str, source: Table) -> (r: Table)
        ensures
            r@ == (TableV::Alias { name: name@, source: Box::new(source@) }),
    {
        Table::Alias { name: name.to_owned(), source: Box::new(source) }
    }

    /// Joins two table trees; each flag says whether that side may be
    /// null-extended.
    pub fn join(left: (bool, Table), right: (bool, Table)) -> (r: Table)
        ensures
            r@ == (TableV::Join {
                left_null: left.0,
                left: Box::new(left.1@),
                right_null: right.0,
                right: Box::new(right.1@),
            }),
    {
        Table::Join { left: (left.0, Box::new(left.1)), right: (right.0, Box::new(right.1)) }
    }

    /// A table factor the resolver does not recognize, kept as its text.
    pub fn unknown(sql: String) -> (r: Table)
        ensures
            r@ == (TableV::Unknown { sql: sql@ }),
    {
        Table::Unknown { sql }
    }

    /// Resolves the unqualified identifier `ident` against this tree.
    pub fn find_column(&self, ident: &str) -> (r: Column)
        ensures
            r@ == spec_find_column(self@, ident@),
        decreases self,
    {
        match self {
            Table::Db { name } => Column::DependsOn {
                table: name.clone(),
                column: ident.to_owned(),
            },
            Table::Alias { source, .. } => source.find_column(ident),
            Table::Join { left, right } => {
                let l = left.1.find_column(ident);
                let l = if left.0 {
                    l.maybe()
                } else {
                    l
                };
                let r = right.1.find_column(ident);
                let r = if right.0 {
                    r.maybe()
                } else {
                    r
                };
                Column::either(l, r)
            },
            Table::Unknown { sql } => Column::Unknown { sql: sql.clone() },
        }
    }

    /// Resolves the qualified identifier `table.ident` against this tree.
    pub fn find_table_column(&self, table: &str, ident: &str) -> (r: Option<Column>)
        ensures
            (match r {
                Some(c) => spec_find_table_column(self@, table@, ident@) == Some(c@),
                None => spec_find_table_column(self@, table@, ident@) is None,
            }),
        decreases self,
    {
        match self {
            Table::Db { name } => {
                if crate::inference::str_eq(name.as_str(), table) {
                    Some(Column::DependsOn { table: table.to_owned(), column: ident.to_owned() })
                } else {
                    None
                }
            },
            Table::Alias { name, source } => {
                if crate::inference::str_eq(name.as_str(), table) {
                    Some(source.find_column(ident))
                } else {
                    None
                }
            },
            Table::Join { left, right } => {
                let l = match left.1.find_table_column(table, ident) {
                    Some(c) => Some(
                        if left.0 {
                            c.maybe()
                        } else {
                            c
                        },
                    ),
                    None => None,
                };
                let r = match right.1.find_table_column(table, ident) {
                    Some(c) => Some(
                        if right.0 {
                            c.maybe()
                        } else {
                            c
                        },
                    ),
                    None => None,
                };
                match (l, r) {
                    (None, None) => None,
                    (None, Some(c)) => Some(c),
                    (Some(c), None) => Some(c),
                    (Some(lc), Some(rc)) => Some(Column::either(lc, rc)),
                }
            },
            Table::Unknown { sql } => Some(Column::Unknown { sql: sql.clone() }),
        }
    }
}

impl DeepView for Column {
    type V = ColumnV;

    open spec fn deep_view(&self) -> ColumnV {
        self.view()
    }
}

impl DeepView for Table {
    type V = TableV;

    open spec fn deep_view(&self) -> TableV {
        self.view()
    }
}

/// The result type of a binary operation when it is fixed by the operator
/// alone.
pub open spec fn spec_try_constant(op: BinaryOpDataV) -> Option<SqlTypeV> {
    match op {
        BinaryOpDataV::ConstantType { sql_type, .. } => Some(sql_type),
        _ => None,
    }
}

/// The result type of a binary operation over two operand types: a
/// constant-typed operator fixes it, arithmetic takes the operand of the
/// higher numeric rank, and concatenation yields text when either side is
/// text.
pub open spec fn spec_try_from_operands(op: BinaryOpDataV, l: SqlTypeV, r: SqlTypeV) -> Option<
    SqlTypeV,
> {
    match op {
        BinaryOpDataV::Unknown { .. } => None,
        BinaryOpDataV::ConstantType { sql_type, .. } => Some(sql_type),
        BinaryOpDataV::Numeric { .. } => {
            if !(spec_is_numeric(l) || spec_is_numeric(r)) {
                None
            } else {
                match spec_numeric_compare(l, r) {
                    None => None,
                    Some(core::cmp::Ordering::Greater) => Some(l),
                    Some(_) => Some(r),
                }
            }
        },
        BinaryOpDataV::Concat => {
            if spec_is_text(l) || spec_is_text(r) {
                Some(SqlTypeV::Text)
            } else {
                None
            }
        },
    }
}

/// How an operator is classified: arithmetic, concatenation, an operator
/// with a fixed boolean result, or unknown.
pub open spec fn spec_classify(op: OperatorV) -> BinaryOpDataV {
    match op {
        OperatorV::Plus
        | OperatorV::Minus
        | OperatorV::Multiply
        | OperatorV::Divide
        | OperatorV::Modulo => BinaryOpDataV::Numeric { inner: op },
        OperatorV::StringConcat => BinaryOpDataV::Concat,
        OperatorV::Greater
        | OperatorV::Less
        | OperatorV::GreaterEq
        | OperatorV::LessEq
        | OperatorV::Equal
        | OperatorV::NotEqual
        | OperatorV::And
        | OperatorV::Or
        | OperatorV::Xor => BinaryOpDataV::ConstantType { inner: op, sql_type: SqlTypeV::Bool },
        OperatorV::Other { .. } => BinaryOpDataV::Unknown { inner: op },
    }
}

impl BinaryOpData {
    /// Classifies an operator.
    pub fn from_operator(op: syntax::Operator) -> (r: BinaryOpData)
        ensures
            r@ == spec_classify(op@),
    {
        match op {
            syntax::Operator::Plus
            | syntax::Operator::Minus
            | syntax::Operator::Multiply
            | syntax::Operator::Divide
            | syntax::Operator::Modulo => BinaryOpData::Numeric { inner: op },
            syntax::Operator::StringConcat => BinaryOpData::Concat,
            syntax::Operator::Greater
            | syntax::Operator::Less
            | syntax::Operator::GreaterEq
            | syntax::Operator::LessEq
            | syntax::Operator::Equal
            | syntax::Operator::NotEqual
            | syntax::Operator::And
            | syntax::Operator::Or
            | syntax::Operator::Xor => BinaryOpData::ConstantType { inner: op, sql_type: SqlType::Bool },
            syntax::Operator::Other { .. } => BinaryOpData::Unknown { inner: op },
        }
    }

    /// Whether the operation's output is certain not to be null whatever
    /// the arguments; no operator gives that guarantee here.
    pub fn not_null(&self) -> (r: Option<bool>)
        ensures
            r == Some(false),
    {
        Some(false)
    }

    /// The output type when the operator fixes it regardless of the
    /// arguments.
    pub fn try_constant(&self) -> (r: Option<SqlType>)
        ensures
            r.deep_view() == spec_try_constant(self@),
    {
        match self {
            BinaryOpData::ConstantType { sql_type, .. } => Some(sql_type.clone()),
            _ => None,
        }
    }

    /// The output type when it can be determined from the operand types.
    pub fn try_from_operands(&self, left: SqlType, right: SqlType) -> (r: Option<SqlType>)
        ensures
            r.deep_view() == spec_try_from_operands(self@, left@, right@),
    {
        match self {
            BinaryOpData::Unknown { .. } => None,
            BinaryOpData::ConstantType { sql_type, .. } => Some(sql_type.clone()),
            BinaryOpData::Numeric { .. } => {
                if !(left.is_numeric() || right.is_numeric()) {
                    return None;
                }
                match left.numeric_compare(&right) {
                    None => None,
                    Some(core::cmp::Ordering::Greater) => Some(left),
                    Some(_) => Some(right),
                }
            },
            BinaryOpData::Concat => {
                if left.is_text() || right.is_text() {
                    return Some(SqlType::Text);
                }
                None
            },
        }
    }
}

/// The doubled-quote escape undone: `""` becomes `"`, scanning from
/// position `i`.
pub open spec fn spec_undouble_from(s: Seq<char>, i: int) -> Seq<char>
    decreases s.len() - i,
{
    if !(0 <= i < s.len()) {
        Seq::empty()
    } else if i + 1 < s.len() && s[i] == '"' && s[i + 1] == '"' {
        seq!['"'] + spec_undouble_from(s, i + 2)
    } else {
        seq![s[i]] + spec_undouble_from(s, i + 1)
    }
}

/// An identifier unescaped: a `"…"` wrapping is stripped and doubled
/// quotes inside become single ones; anything else is kept as it is.
pub open spec fn spec_unescape(s: Seq<char>) -> Seq<char> {
    if s.len() >= 2 && s[0] == '"' && s[s.len() - 1] == '"' {
        spec_undouble_from(s.subrange(1, s.len() - 1), 0)
    } else {
        s
    }
}

/// Undoes identifier quoting: strips one layer of double quotes and turns
/// doubled inner quotes into single ones.
pub fn unescape(name: &str) -> (r: String)
    ensures
        r@ == spec_unescape(name@),
{
    let len = name.unicode_len();
    if !(len >= 2 && name.get_char(0) == '"' && name.get_char(len - 1) == '"') {
        return name.to_owned();
    }
    let inner = name.substring_char(1, len - 1);
    let ghost s = inner@;
    let inner_len = len - 2;
    let mut out = String::new();
    let mut i: usize = 0;
    while i < inner_len
        invariant
            s == inner@,
            inner_len == s.len(),
            i <= inner_len,
            spec_undouble_from(s, 0) == out@ + spec_undouble_from(s, i as int),
        decreases inner_len - i,
    {
        if i + 1 < inner_len && inner.get_char(i) == '"' && inner.get_char(i + 1) == '"' {
            out.append("\"");
            proof {
                reveal_strlit("\"");
            }
            i = i + 2;
        } else {
            let piece = inner.substring_char(i, i + 1);
            out.append(piece);
            proof {
                assert(piece@ =~= seq![s[i as int]]);
            }
            i = i + 1;
        }
    }
    proof {
        assert(name@.subrange(1, name@.len() - 1) == s);
        assert(out@ =~= spec_unescape(name@));
    }
    out
}

/// The table tree of one table factor: a named table (unescaped, wrapped
/// in `Alias` when aliased), a parenthesized join (recursed into), or an
/// unrecognized factor kept as text.
pub open spec fn spec_relation_tables(f: syntax::Relation) -> TableV
    decreases f, 0int,
{
    match f {
        syntax::Relation::Named { name, alias } => {
            let base = TableV::Db { name: spec_unescape(name@) };
            match alias {
                Some(a) => TableV::Alias { name: a@, source: Box::new(base) },
                None => base,
            }
        },
        syntax::Relation::Nested { inner, alias } => {
            let base = spec_get_join(*inner);
            match alias {
                Some(a) => TableV::Alias { name: a@, source: Box::new(base) },
                None => base,
            }
        },
        syntax::Relation::Other { sql } => TableV::Unknown { sql: sql@ },
    }
}

/// Folds the join list onto the accumulated tree, using the outer-join
/// table: INNER extends neither side, LEFT the right side, RIGHT the left
/// side, FULL and CROSS both; other join kinds turn the whole tree
/// unknown.
pub open spec fn spec_fold_joins(acc: TableV, joins: Seq<syntax::JoinStep>, i: int) -> TableV
    decreases joins, joins.len() - i,
{
    if !(0 <= i < joins.len()) {
        acc
    } else {
        let j = joins[i];
        match j.kind {
            syntax::JoinKind::Other => TableV::Unknown { sql: j.sql@ },
            _ => {
                let nulls = spec_join_nulls(j.kind);
                let right = spec_relation_tables(j.relation);
                let next = TableV::Join {
                    left_null: nulls.0,
                    left: Box::new(acc),
                    right_null: nulls.1,
                    right: Box::new(right),
                };
                spec_fold_joins(next, joins, i + 1)
            },
        }
    }
}

/// Which sides of a join may be null-extended.
pub open spec fn spec_join_nulls(kind: syntax::JoinKind) -> (bool, bool) {
    match kind {
        syntax::JoinKind::Inner => (false, false),
        syntax::JoinKind::Left => (false, true),
        syntax::JoinKind::Right => (true, false),
        syntax::JoinKind::Full => (true, true),
        syntax::JoinKind::Cross => (true, true),
        syntax::JoinKind::Other => (false, false),
    }
}

/// The table tree of one FROM entry: its base factor with every join
/// folded in.
pub open spec fn spec_get_join(t: syntax::JoinedTable) -> TableV
    decreases t, 1int,
{
    spec_fold_joins(spec_relation_tables(t.relation), t.joins@, 0)
}

/// The table trees of a FROM clause, one per entry.
pub open spec fn spec_identify_tables(ts: Seq<syntax::JoinedTable>) -> Seq<TableV> {
    Seq::new(ts.len(), |i: int| spec_get_join(ts[i]))
}

/// Builds the table tree of one table factor.
pub fn relation_tables(factor: &syntax::Relation) -> (r: Table)
    ensures
        r@ == spec_relation_tables(*factor),
    decreases factor,
{
    match factor {
        syntax::Relation::Named { name, alias } => {
            let unescaped = unescape(name.as_str());
            let base = Table::Db { name: unescaped };
            let r = match alias {
                Some(a) => {
                    let x = Table::Alias { name: a.clone(), source: Box::new(base) };
                    assert(x@ == spec_relation_tables(*factor));
                    x
                },
                None => {
                    assert(base@ == spec_relation_tables(*factor));
                    base
                },
            };
            r
        },
        syntax::Relation::Nested { inner, alias } => {
            let base = get_join(inner);
            let r = match alias {
                Some(a) => Table::Alias { name: a.clone(), source: Box::new(base) },
                None => base,
            };
            assert(r@ == spec_relation_tables(*factor));
            r
        },
        syntax::Relation::Other { sql } => {
            let r = Table::Unknown { sql: sql.clone() };
            assert(r@ == spec_relation_tables(*factor));
            r
        },
    }
}

/// Builds the table tree of one FROM entry by folding its joins.
pub fn get_join(table: &syntax::JoinedTable) -> (r: Table)
    ensures
        r@ == spec_get_join(*table),
    decreases table,
{
    let mut acc = relation_tables(&table.relation);
    let n = table.joins.len();
    let mut i: usize = 0;
    while i < n
        invariant
            n == table.joins.len(),
            i <= n,
            spec_get_join(*table) == spec_fold_joins(acc@, table.joins@, i as int),
        decreases n - i,
    {
        let join = &table.joins[i];
        let (left_null, right_null) = match join.kind {
            syntax::JoinKind::Inner => (false, false),
            syntax::JoinKind::Left => (false, true),
            syntax::JoinKind::Right => (true, false),
            syntax::JoinKind::Full => (true, true),
            syntax::JoinKind::Cross => (true, true),
            syntax::JoinKind::Other => {
                return Table::Unknown { sql: join.sql.clone() };
            },
        };
        let right = relation_tables(&join.relation);
        acc = Table::Join {
            left: (left_null, Box::new(acc)),
            right: (right_null, Box::new(right)),
        };
        i = i + 1;
    }
    acc
}

/// Builds the table trees of a FROM clause.
pub fn identify_tables(tables: &Vec<syntax::JoinedTable>) -> (r: Vec<Table>)
    ensures
        r.deep_view() == spec_identify_tables(tables@),
{
    let mut out: Vec<Table> = Vec::new();
    let n = tables.len();
    let mut i: usize = 0;
    while i < n
        invariant
            n == tables.len(),
            i <= n,
            out.len() == i,
            forall|j: int| 0 <= j < i ==> out.deep_view()[j] == spec_get_join(tables@[j]),
        decreases n - i,
    {
        let t = get_join(&tables[i]);
        let ghost t_view = t@;
        let ghost prev = out@;
        let ghost prev_deep = out.deep_view();
        out.push(t);
        proof {
            assert(out@.len() == i + 1);
            assert(out@[i as int]@ == t_view);
            assert forall|j: int| 0 <= j < i + 1 implies out.deep_view()[j] == spec_get_join(
                tables@[j],
            ) by {
                assert(out.deep_view()[j] == out@[j].deep_view());
                if j < i {
                    assert(out@[j] == prev[j]);
                    assert(prev_deep[j] == prev[j].deep_view());
                }
            }
        }
        i = i + 1;
    }
    proof {
        assert(out.deep_view() =~= spec_identify_tables(tables@));
    }
    out
}


/// A numeric literal written with a decimal point or an exponent is a
/// float; otherwise it is an integer.
pub open spec fn spec_has_float_mark(s: Seq<char>) -> bool {
    exists|i: int| 0 <= i < s.len() && (s[i] == '.' || s[i] == 'e' || s[i] == 'E')
}

/// The provenance of a literal; a placeholder has none.
pub open spec fn spec_value_column(l: syntax::Literal) -> Option<ColumnV> {
    match l {
        syntax::Literal::Number { text } => Some(
            ColumnV::Value {
                value: if spec_has_float_mark(text@) {
                    ValueType::Float
                } else {
                    ValueType::Int
                },
            },
        ),
        syntax::Literal::Str => Some(ColumnV::Value { value: ValueType::Str }),
        syntax::Literal::Boolean => Some(ColumnV::Value { value: ValueType::Boolean }),
        syntax::Literal::Null => Some(ColumnV::Value { value: ValueType::Null }),
        syntax::Literal::Placeholder => None,
    }
}

/// The word `count`, compared without regard to ASCII case.
pub open spec fn spec_matches_count(s: Seq<char>) -> bool {
    &&& s.len() == 5
    &&& (s[0] == 'c' || s[0] == 'C')
    &&& (s[1] == 'o' || s[1] == 'O')
    &&& (s[2] == 'u' || s[2] == 'U')
    &&& (s[3] == 'n' || s[3] == 'N')
    &&& (s[4] == 't' || s[4] == 'T')
}

/// Folds an unqualified identifier over the remaining candidate tables,
/// offering each further candidate through `Either`.
pub open spec fn spec_fold_ident(tables: Seq<TableV>, ident: Seq<char>, i: int, acc: ColumnV) -> ColumnV
    decreases tables.len() - i,
{
    if !(0 <= i < tables.len()) {
        acc
    } else {
        spec_fold_ident(
            tables,
            ident,
            i + 1,
            ColumnV::Either {
                left: Box::new(acc),
                right: Box::new(spec_find_column(tables[i], ident)),
            },
        )
    }
}

/// Resolves an unqualified identifier against every candidate table;
/// `None` when there is no table at all.
pub open spec fn spec_resolve_ident(tables: Seq<TableV>, ident: Seq<char>) -> Option<ColumnV> {
    if tables.len() == 0 {
        None
    } else {
        Some(spec_fold_ident(tables, ident, 1, spec_find_column(tables[0], ident)))
    }
}

/// Folds a qualified identifier over the remaining candidate tables,
/// keeping the `Either`-fold of the hits.
pub open spec fn spec_fold_table_col(
    tables: Seq<TableV>,
    tname: Seq<char>,
    cname: Seq<char>,
    i: int,
    acc: Option<ColumnV>,
) -> Option<ColumnV>
    decreases tables.len() - i,
{
    if !(0 <= i < tables.len()) {
        acc
    } else {
        let cur = spec_find_table_column(tables[i], tname, cname);
        let acc2 = match (acc, cur) {
            (None, v) => v,
            (Some(a), Some(c)) => Some(ColumnV::Either { left: Box::new(a), right: Box::new(c) }),
            (Some(a), None) => Some(a),
        };
        spec_fold_table_col(tables, tname, cname, i + 1, acc2)
    }
}

/// The provenance of one projected expression, when the resolver can give
/// one.
pub open spec fn spec_resolve_expr(e: syntax::Expression, tables: Seq<TableV>) -> Option<ColumnV>
    decreases e,
{
    match e {
        syntax::Expression::Identifier { name } => spec_resolve_ident(tables, name@),
        syntax::Expression::CompoundIdentifier { names } => if names@.len() >= 2 {
            spec_fold_table_col(
                tables,
                names@[names@.len() - 2]@,
                names@[names@.len() - 1]@,
                0,
                None,
            )
        } else {
            None
        },
        syntax::Expression::Cast { expr, data_type } => match spec_resolve_expr(*expr, tables) {
            Some(c) => Some(ColumnV::Cast { source: Box::new(c), data_type: data_type@ }),
            None => None,
        },
        syntax::Expression::Nested { expr } => spec_resolve_expr(*expr, tables),
        syntax::Expression::BinaryOp { op, left, right } => match (
            spec_resolve_expr(*left, tables),
            spec_resolve_expr(*right, tables),
        ) {
            (Some(l), Some(r)) => Some(
                ColumnV::BinaryOp {
                    op: spec_classify(op@),
                    left: Box::new(l),
                    right: Box::new(r),
                },
            ),
            _ => None,
        },
        syntax::Expression::Literal { value } => spec_value_column(value),
        syntax::Expression::FunctionCall { name, sql } => if spec_matches_count(name@) {
            Some(ColumnV::Value { value: ValueType::Int })
        } else {
            Some(ColumnV::Unknown { sql: sql@ })
        },
        syntax::Expression::Other { sql } => Some(ColumnV::Unknown { sql: sql@ }),
    }
}

fn has_float_mark(text: &str) -> (r: bool)
    ensures
        r == spec_has_float_mark(text@),
{
    let len = text.unicode_len();
    let mut i: usize = 0;
    while i < len
        invariant
            len == text@.len(),
            i <= len,
            forall|j: int| 0 <= j < i ==> !(text@[j] == '.' || text@[j] == 'e' || text@[j] == 'E'),
        decreases len - i,
    {
        let c = text.get_char(i);
        if c == '.' || c == 'e' || c == 'E' {
            return true;
        }
        i = i + 1;
    }
    false
}

fn matches_count(name: &str) -> (r: bool)
    ensures
        r == spec_matches_count(name@),
{
    if name.unicode_len() != 5 {
        return false;
    }
    let c0 = name.get_char(0);
    let c1 = name.get_char(1);
    let c2 = name.get_char(2);
    let c3 = name.get_char(3);
    let c4 = name.get_char(4);
    (c0 == 'c' || c0 == 'C') && (c1 == 'o' || c1 == 'O') && (c2 == 'u' || c2 == 'U') && (c3 == 'n'
        || c3 == 'N') && (c4 == 't' || c4 == 'T')
}

/// Resolves one projected expression against the candidate tables.
pub fn find_field_in_expr(expr: &syntax::Expression, tables: &Vec<Table>) -> (r: Option<Column>)
    ensures
        r.deep_view() == spec_resolve_expr(*expr, tables.deep_view()),
    decreases expr,
{
    match expr {
        syntax::Expression::Identifier { name } => {
            if tables.len() == 0 {
                return None;
            }
            let mut acc = tables[0].find_column(name.as_str());
            proof {
                assert(tables.deep_view()[0] == tables@[0]@);
            }
            let n = tables.len();
            let mut i: usize = 1;
            while i < n
                invariant
                    n == tables.len(),
                    1 <= i <= n,
                    spec_fold_ident(
                        tables.deep_view(),
                        name@,
                        1,
                        spec_find_column(tables.deep_view()[0], name@),
                    ) == spec_fold_ident(tables.deep_view(), name@, i as int, acc@),
                decreases n - i,
            {
                let next = tables[i].find_column(name.as_str());
                proof {
                    assert(tables.deep_view()[i as int] == tables@[i as int]@);
                }
                acc = Column::either(acc, next);
                i = i + 1;
            }
            Some(acc)
        },
        syntax::Expression::CompoundIdentifier { names } => {
            if names.len() < 2 {
                return None;
            }
            let tname = &names[names.len() - 2];
            let cname = &names[names.len() - 1];
            let mut acc: Option<Column> = None;
            let n = tables.len();
            let mut i: usize = 0;
            while i < n
                invariant
                    n == tables.len(),
                    i <= n,
                    names@.len() >= 2,
                    tname@ == names@[names@.len() - 2]@,
                    cname@ == names@[names@.len() - 1]@,
                    spec_fold_table_col(
                        tables.deep_view(),
                        tname@,
                        cname@,
                        0,
                        None,
                    ) == spec_fold_table_col(
                        tables.deep_view(),
                        tname@,
                        cname@,
                        i as int,
                        acc.deep_view(),
                    ),
                decreases n - i,
            {
                let cur = tables[i].find_table_column(tname.as_str(), cname.as_str());
                proof {
                    assert(tables.deep_view()[i as int] == tables@[i as int]@);
                }
                acc = match (acc, cur) {
                    (None, v) => v,
                    (Some(a), Some(c)) => Some(Column::either(a, c)),
                    (Some(a), None) => Some(a),
                };
                i = i + 1;
            }
            acc
        },
        syntax::Expression::Cast { expr: inner, data_type } => {
            match find_field_in_expr(inner, tables) {
                Some(c) => Some(c.cast(data_type.clone())),
                None => None,
            }
        },
        syntax::Expression::Nested { expr: inner } => find_field_in_expr(inner, tables),
        syntax::Expression::BinaryOp { op, left, right } => {
            let l = find_field_in_expr(left, tables);
            let r = find_field_in_expr(right, tables);
            match (l, r) {
                (Some(lc), Some(rc)) => Some(
                    Column::bin_op(BinaryOpData::from_operator(op.clone()), lc, rc),
                ),
                _ => None,
            }
        },
        syntax::Expression::Literal { value } => {
            match value {
                syntax::Literal::Number { text } => {
                    if has_float_mark(text.as_str()) {
                        Some(Column::Value(ValueType::Float))
                    } else {
                        Some(Column::Value(ValueType::Int))
                    }
                },
                syntax::Literal::Str => Some(Column::Value(ValueType::Str)),
                syntax::Literal::Boolean => Some(Column::Value(ValueType::Boolean)),
                syntax::Literal::Null => Some(Column::Value(ValueType::Null)),
                syntax::Literal::Placeholder => None,
            }
        },
        syntax::Expression::FunctionCall { name, sql } => {
            if matches_count(name.as_str()) {
                Some(Column::Value(ValueType::Int))
            } else {
                Some(Column::Unknown { sql: sql.clone() })
            }
        },
        syntax::Expression::Other { sql } => Some(Column::Unknown { sql: sql.clone() }),
    }
}


/// The map that a list of (name, provenance) entries denotes; a later
/// entry under the same name wins.
pub open spec fn map_of_entries(s: Seq<(String, Column)>) -> Map<Seq<char>, ColumnV>
    decreases s.len(),
{
    if s.len() == 0 {
        Map::empty()
    } else {
        map_of_entries(s.drop_last()).insert(s.last().0@, s.last().1@)
    }
}

proof fn lemma_map_entries_skip(s: Seq<(String, Column)>, i: int, k: Seq<char>)
    requires
        0 <= i <= s.len(),
        forall|j: int| i <= j < s.len() ==> s[j].0@ != k,
    ensures
        map_of_entries(s).contains_key(k) == map_of_entries(s.take(i)).contains_key(k),
        map_of_entries(s).contains_key(k) ==> map_of_entries(s)[k] == map_of_entries(s.take(i))[k],
    decreases s.len() - i,
{
    if i == s.len() {
        assert(s.take(i) =~= s);
    } else {
        lemma_map_entries_skip(s, i + 1, k);
        let t = s.take(i + 1);
        assert(t.drop_last() =~= s.take(i));
        assert(t.last() == s[i]);
        assert(map_of_entries(s.take(i + 1)) == map_of_entries(s.take(i)).insert(
            s[i].0@,
            s[i].1@,
        ));
    }
}

/// The mapping from each projected output name to its provenance.
pub struct FieldMap {
    entries: Vec<(String, Column)>,
}

impl View for FieldMap {
    type V = Map<Seq<char>, ColumnV>;

    closed spec fn view(&self) -> Map<Seq<char>, ColumnV> {
        map_of_entries(self.entries@)
    }
}

impl FieldMap {
    /// An empty field map.
    pub fn new() -> (r: FieldMap)
        ensures
            r@ == Map::<Seq<char>, ColumnV>::empty(),
    {
        let r = FieldMap { entries: Vec::new() };
        proof {
            assert(r.entries@.len() == 0);
        }
        r
    }

    /// Binds `name` to `column`, replacing an earlier binding of the same
    /// name.
    pub fn insert(&mut self, name: String, column: Column)
        ensures
            final(self)@ == old(self)@.insert(name@, column@),
    {
        let ghost prev = self.entries@;
        let ghost nv = name@;
        let ghost cv = column@;
        self.entries.push((name, column));
        proof {
            assert(self.entries@.drop_last() =~= prev);
            assert(self.entries@.last().0@ == nv);
            assert(self.entries@.last().1@ == cv);
        }
    }

    /// The bindings, in insertion order; in lookups a later binding of a
    /// name shadows an earlier one.
    pub fn entries(&self) -> (r: &Vec<(String, Column)>)
        ensures
            map_of_entries(r@) == self@,
    {
        &self.entries
    }

    /// Looks a name up; the latest binding wins.
    pub fn get(&self, name: &str) -> (r: Option<&Column>)
        ensures
            (match r {
                Some(c) => self@.contains_key(name@) && c@ == self@[name@],
                None => !self@.contains_key(name@),
            }),
    {
        let n = self.entries.len();
        let mut i: usize = n;
        while i > 0
            invariant
                n == self.entries.len(),
                i <= n,
                forall|j: int| i <= j < n ==> self.entries@[j].0@ != name@,
            decreases i,
        {
            let idx = i - 1;
            if crate::inference::str_eq(self.entries[idx].0.as_str(), name) {
                proof {
                    lemma_map_entries_skip(self.entries@, idx + 1, name@);
                    let t = self.entries@.take(idx + 1);
                    assert(t.drop_last() =~= self.entries@.take(idx as int));
                    assert(t.last() == self.entries@[idx as int]);
                    assert(map_of_entries(t) == map_of_entries(t.drop_last()).insert(
                        self.entries@[idx as int].0@,
                        self.entries@[idx as int].1@,
                    ));
                }
                return Some(&self.entries[idx].1);
            }
            i = idx;
        }
        proof {
            lemma_map_entries_skip(self.entries@, 0, name@);
            assert(self.entries@.take(0) =~= Seq::<(String, Column)>::empty());
        }
        None
    }
}

/// The output name of a projection item: its alias when it has one, else
/// the last identifier segment of a plain or compound identifier.
pub open spec fn spec_item_name(item: syntax::ProjectionItem) -> Option<Seq<char>> {
    match item {
        syntax::ProjectionItem::UnnamedExpr { expr } => match expr {
            syntax::Expression::Identifier { name } => Some(name@),
            syntax::Expression::CompoundIdentifier { names } => if names@.len() > 0 {
                Some(names@[names@.len() - 1]@)
            } else {
                None
            },
            _ => None,
        },
        syntax::ProjectionItem::ExprWithAlias { alias, .. } => Some(alias@),
        syntax::ProjectionItem::Other => None,
    }
}

/// The expression a projection item projects, when the item has a name.
pub open spec fn spec_item_expr(item: syntax::ProjectionItem) -> Option<syntax::Expression> {
    match item {
        syntax::ProjectionItem::UnnamedExpr { expr } => Some(expr),
        syntax::ProjectionItem::ExprWithAlias { expr, .. } => Some(expr),
        syntax::ProjectionItem::Other => None,
    }
}

/// Builds the field map from projection item `i` on: an item contributes
/// a binding when it has an output name and its expression resolves.
pub open spec fn spec_fields_from(
    items: Seq<syntax::ProjectionItem>,
    tables: Seq<TableV>,
    i: int,
    acc: Map<Seq<char>, ColumnV>,
) -> Map<Seq<char>, ColumnV>
    decreases items.len() - i,
{
    if !(0 <= i < items.len()) {
        acc
    } else {
        let acc2 = match (spec_item_name(items[i]), spec_item_expr(items[i])) {
            (Some(name), Some(expr)) => match spec_resolve_expr(expr, tables) {
                Some(col) => acc.insert(name, col),
                None => acc,
            },
            _ => acc,
        };
        spec_fields_from(items, tables, i + 1, acc2)
    }
}

/// The field map of a projection.
pub open spec fn spec_fields_map(items: Seq<syntax::ProjectionItem>, tables: Seq<TableV>) -> Map<
    Seq<char>,
    ColumnV,
> {
    spec_fields_from(items, tables, 0, Map::empty())
}

/// Builds the mapping from output names to provenance expressions for a
/// projection or RETURNING list.
pub fn find_fields_in_items(items: &Vec<syntax::ProjectionItem>, tables: &Vec<Table>) -> (r: FieldMap)
    ensures
        r@ == spec_fields_map(items@, tables.deep_view()),
{
    let mut map = FieldMap::new();
    let n = items.len();
    let mut i: usize = 0;
    while i < n
        invariant
            n == items.len(),
            i <= n,
            spec_fields_map(items@, tables.deep_view()) == spec_fields_from(
                items@,
                tables.deep_view(),
                i as int,
                map@,
            ),
        decreases n - i,
    {
        let item = &items[i];
        match item {
            syntax::ProjectionItem::UnnamedExpr { expr } => {
                let name: Option<String> = match expr {
                    syntax::Expression::Identifier { name } => Some(name.clone()),
                    syntax::Expression::CompoundIdentifier { names } => {
                        if names.len() > 0 {
                            Some(names[names.len() - 1].clone())
                        } else {
                            None
                        }
                    },
                    _ => None,
                };
                match name {
                    Some(name) => {
                        match find_field_in_expr(expr, tables) {
                            Some(col) => {
                                map.insert(name, col);
                            },
                            None => {},
                        }
                    },
                    None => {},
                }
            },
            syntax::ProjectionItem::ExprWithAlias { expr, alias } => {
                match find_field_in_expr(expr, tables) {
                    Some(col) => {
                        map.insert(alias.clone(), col);
                    },
                    None => {},
                }
            },
            syntax::ProjectionItem::Other => {},
        }
        i = i + 1;
    }
    map
}

/// The table trees a statement draws from.
pub open spec fn spec_find_tables(s: syntax::Stmt) -> Seq<TableV> {
    match s {
        syntax::Stmt::Query { body: syntax::QueryBody::Select { from, .. }, .. } => spec_identify_tables(
            from@,
        ),
        syntax::Stmt::Query { body: syntax::QueryBody::Other { sql }, .. } => seq![
            TableV::Unknown { sql: sql@ },
        ],
        syntax::Stmt::Insert { table: syntax::TableName::Name { name }, .. } => seq![
            TableV::Db { name: spec_unescape(name@) },
        ],
        syntax::Stmt::Insert { table: syntax::TableName::Other { sql }, .. } => seq![
            TableV::Unknown { sql: sql@ },
        ],
        syntax::Stmt::Update { table, .. } => seq![spec_get_join(table)],
        syntax::Stmt::Delete { from, .. } => spec_identify_tables(from@),
        syntax::Stmt::Other { sql } => seq![TableV::Unknown { sql: sql@ }],
    }
}

/// Lists the top-level table trees a statement draws from.
pub fn find_tables(statement: &syntax::Stmt) -> (r: Vec<Table>)
    ensures
        r.deep_view() == spec_find_tables(*statement),
{
    match statement {
        syntax::Stmt::Query { body, .. } => {
            match body {
                syntax::QueryBody::Select { from, .. } => {
                    let r = identify_tables(from);
                    proof {
                        assert(r.deep_view() =~= spec_find_tables(*statement));
                    }
                    r
                },
                syntax::QueryBody::Other { sql } => {
                    let mut r: Vec<Table> = Vec::new();
                    r.push(Table::Unknown { sql: sql.clone() });
                    proof {
                        assert(r.deep_view() =~= spec_find_tables(*statement));
                    }
                    r
                },
            }
        },
        syntax::Stmt::Insert { table, .. } => {
            let mut r: Vec<Table> = Vec::new();
            match table {
                syntax::TableName::Name { name } => {
                    let unescaped = unescape(name.as_str());
                    r.push(Table::Db { name: unescaped });
                },
                syntax::TableName::Other { sql } => {
                    r.push(Table::Unknown { sql: sql.clone() });
                },
            }
            proof {
                assert(r.deep_view() =~= spec_find_tables(*statement));
            }
            r
        },
        syntax::Stmt::Update { table, .. } => {
            let mut r: Vec<Table> = Vec::new();
            r.push(get_join(table));
            proof {
                assert(r.deep_view() =~= spec_find_tables(*statement));
            }
            r
        },
        syntax::Stmt::Delete { from, .. } => {
            let r = identify_tables(from);
            proof {
                assert(r.deep_view() =~= spec_find_tables(*statement));
            }
            r
        },
        syntax::Stmt::Other { sql } => {
            let mut r: Vec<Table> = Vec::new();
            r.push(Table::Unknown { sql: sql.clone() });
            proof {
                assert(r.deep_view() =~= spec_find_tables(*statement));
            }
            r
        },
    }
}

/// Maps each output name of the statement to its provenance.  `SELECT`
/// and `RETURNING` lists are resolved against the statement's tables; a
/// `WITH` clause, a non-`SELECT` query body and a table-function target
/// are refused, and a statement without a returning list yields the empty
/// map.
pub fn find_fields(statement: &syntax::Stmt) -> (r: Result<FieldMap, ParserError>)
    ensures
        (match *statement {
            syntax::Stmt::Query { with: true, .. } => (r matches Err(
                ParserError::UnsupportedQueryElement { name },
            ) && name@ == "with"@),
            syntax::Stmt::Query {
                with: false,
                body: syntax::QueryBody::Select { projection, from },
            } => (r matches Ok(m) && m@ == spec_fields_map(projection@, spec_identify_tables(from@))),
            syntax::Stmt::Query { with: false, body: syntax::QueryBody::Other { sql } } => (r
                matches Err(ParserError::UnsupportedStatement { statement: s }) && s@ == sql@),
            syntax::Stmt::Insert { table: syntax::TableName::Other { sql }, .. } => (r matches Err(
                ParserError::UnsupportedQueryElement { name },
            ) && name@ == sql@),
            syntax::Stmt::Insert { table: syntax::TableName::Name { name }, returning } => (
            match returning {
                Some(items) => (r matches Ok(m) && m@ == spec_fields_map(
                    items@,
                    seq![TableV::Db { name: spec_unescape(name@) }],
                )),
                None => (r matches Ok(m) && m@ == Map::<Seq<char>, ColumnV>::empty()),
            }),
            syntax::Stmt::Update { table, returning } => (match returning {
                Some(items) => (r matches Ok(m) && m@ == spec_fields_map(
                    items@,
                    seq![spec_get_join(table)],
                )),
                None => (r matches Ok(m) && m@ == Map::<Seq<char>, ColumnV>::empty()),
            }),
            syntax::Stmt::Delete { from, returning } => (match returning {
                Some(items) => (r matches Ok(m) && m@ == spec_fields_map(
                    items@,
                    spec_identify_tables(from@),
                )),
                None => (r matches Ok(m) && m@ == Map::<Seq<char>, ColumnV>::empty()),
            }),
            syntax::Stmt::Other { sql } => (r matches Err(
                ParserError::UnsupportedStatement { statement: s },
            ) && s@ == sql@),
        }),
{
    match statement {
        syntax::Stmt::Query { with, body } => {
            if *with {
                return Err(ParserError::UnsupportedQueryElement { name: "with".to_owned() });
            }
            match body {
                syntax::QueryBody::Select { projection, from } => {
                    let tables = identify_tables(from);
                    let m = find_fields_in_items(projection, &tables);
                    Ok(m)
                },
                syntax::QueryBody::Other { sql } => Err(
                    ParserError::UnsupportedStatement { statement: sql.clone() },
                ),
            }
        },
        syntax::Stmt::Insert { table, returning } => {
            match table {
                syntax::TableName::Name { name } => {
                    match returning {
                        Some(items) => {
                            let unescaped = unescape(name.as_str());
                            let mut tables: Vec<Table> = Vec::new();
                            tables.push(Table::Db { name: unescaped });
                            let m = find_fields_in_items(items, &tables);
                            proof {
                                assert(tables.deep_view() =~= seq![
                                    TableV::Db { name: spec_unescape(name@) },
                                ]);
                            }
                            Ok(m)
                        },
                        None => Ok(FieldMap::new()),
                    }
                },
                syntax::TableName::Other { sql } => Err(
                    ParserError::UnsupportedQueryElement { name: sql.clone() },
                ),
            }
        },
        syntax::Stmt::Update { table, returning } => {
            match returning {
                Some(items) => {
                    let mut tables: Vec<Table> = Vec::new();
                    tables.push(get_join(table));
                    let m = find_fields_in_items(items, &tables);
                    proof {
                        assert(tables.deep_view() =~= seq![spec_get_join(*table)]);
                    }
                    Ok(m)
                },
                None => Ok(FieldMap::new()),
            }
        },
        syntax::Stmt::Delete { from, returning } => {
            match returning {
                Some(items) => {
                    let tables = identify_tables(from);
                    let m = find_fields_in_items(items, &tables);
                    Ok(m)
                },
                None => Ok(FieldMap::new()),
            }
        },
        syntax::Stmt::Other { sql } => Err(
            ParserError::UnsupportedStatement { statement: sql.clone() },
        ),
    }
}

impl Column {
    /// Whether two provenance expressions are the same, with `Either`
    /// compared as an unordered pair.
    pub fn equals(&self, other: &Column) -> (r: bool)
        ensures
            r == col_veq(self@, other@),
        decreases self,
    {
        match (self, other) {
            (
                Column::DependsOn { table: t1, column: c1 },
                Column::DependsOn { table: t2, column: c2 },
            ) => crate::inference::str_eq(t1.as_str(), t2.as_str()) && crate::inference::str_eq(
                c1.as_str(),
                c2.as_str(),
            ),
            (Column::Maybe { column: c1 }, Column::Maybe { column: c2 }) => c1.equals(c2),
            (Column::Either { left: l1, right: r1 }, Column::Either { left: l2, right: r2 }) => (
            l1.equals(l2) && r1.equals(r2)) || (l1.equals(r2) && r1.equals(l2)),
            (Column::Unknown { sql: s1 }, Column::Unknown { sql: s2 }) => crate::inference::str_eq(
                s1.as_str(),
                s2.as_str(),
            ),
            (
                Column::Cast { source: s1, data_type: d1 },
                Column::Cast { source: s2, data_type: d2 },
            ) => s1.equals(s2) && crate::inference::str_eq(d1.as_str(), d2.as_str()),
            (
                Column::BinaryOp { op: o1, left: l1, right: r1 },
                Column::BinaryOp { op: o2, left: l2, right: r2 },
            ) => bin_op_data_eq(o1, o2) && l1.equals(l2) && r1.equals(r2),
            (Column::Value(v1), Column::Value(v2)) => v1 == v2,
            _ => false,
        }
    }
}

} // verus!
