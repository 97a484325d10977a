//! The statement shapes the provenance resolver walks: the subset of the
//! SQL syntax tree that matters for tracing projected columns back to
//! physical tables, held as plain values.  Everything the resolver does not
//! interpret is preserved as its SQL text.

use vstd::prelude::*;

verus! {

/// A binary operator, as far as the resolver tells them apart.
#[derive(Debug, PartialEq, Eq, Hash)]
pub enum Operator {
    Plus,
    Minus,
    Multiply,
    Divide,
    Modulo,
    StringConcat,
    Greater,
    Less,
    GreaterEq,
    LessEq,
    Equal,
    NotEqual,
    And,
    Or,
    Xor,
    Other { sql: String },
}

/// A literal value, reduced to its kind; number literals keep their text so
/// the integer/float distinction can be read off the shape.
#[derive(Debug, Clone, PartialEq, Eq, Hash)]
pub enum Literal {
    Number { text: String },
    Str,
    Boolean,
    Null,
    Placeholder,
}

/// An expression in a projection.
#[derive(Debug, PartialEq, Eq, Hash)]
pub enum Expression {
    Identifier { name: String },
    CompoundIdentifier { names: Vec<String> },
    Cast { expr: Box<Expression>, data_type: String },
    Nested { expr: Box<Expression> },
    BinaryOp { op: Operator, left: Box<Expression>, right: Box<Expression> },
    Literal { value: Literal },
    FunctionCall { name: String, sql: String },
    Other { sql: String },
}

/// One item of the list following `SELECT`, or of a `RETURNING` clause.
#[derive(Debug, PartialEq, Eq, Hash)]
pub enum ProjectionItem {
    UnnamedExpr { expr: Expression },
    ExprWithAlias { expr: Expression, alias: String },
    Other,
}

/// How a join combines its two sides.
#[derive(Debug, Clone, Copy, PartialEq, Eq, Hash, Structural)]
pub enum JoinKind {
    Inner,
    Left,
    Right,
    Full,
    Cross,
    Other,
}

/// One join step: the kind, the joined relation, and the join's SQL text
/// for the kinds the resolver does not handle.
#[derive(Debug, PartialEq, Eq, Hash)]
pub struct JoinStep {
    pub kind: JoinKind,
    pub relation: Relation,
    pub sql: String,
}

/// A table factor in a FROM clause.
#[derive(Debug, PartialEq, Eq, Hash)]
pub enum Relation {
    Named { name: String, alias: Option<String> },
    Nested { inner: Box<JoinedTable>, alias: Option<String> },
    Other { sql: String },
}

/// A relation together with the joins applied to it.
#[derive(Debug, PartialEq, Eq, Hash)]
pub struct JoinedTable {
    pub relation: Relation,
    pub joins: Vec<JoinStep>,
}

/// The table an INSERT writes to.
#[derive(Debug, Clone, PartialEq, Eq, Hash)]
pub enum TableName {
    Name { name: String },
    Other { sql: String },
}

/// The body of a query statement.
#[derive(Debug, PartialEq, Eq, Hash)]
pub enum QueryBody {
    Select { projection: Vec<ProjectionItem>, from: Vec<JoinedTable> },
    Other { sql: String },
}

/// A statement, reduced to what the resolver reads.
#[derive(Debug, PartialEq, Eq, Hash)]
pub enum Stmt {
    Query { with: bool, body: QueryBody },
    Insert { table: TableName, returning: Option<Vec<ProjectionItem>> },
    Update { table: JoinedTable, returning: Option<Vec<ProjectionItem>> },
    Delete { from: Vec<JoinedTable>, returning: Option<Vec<ProjectionItem>> },
    Other { sql: String },
}

} // verus!
