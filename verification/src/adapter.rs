//! The SQL syntax-tree adapter: parses query text with the `sqlparser`
//! crate and reduces its tree to the plain statement shapes in [`crate::ast`].
//! Everything here is a declaration of, or a direct transcription from,
//! `sqlparser`'s own types; nothing is computed beyond moving fields.

use vstd::prelude::*;

use crate::parser::ParserError;
use crate::syntax;
use sqlparser::ast::BinaryOperator;
use sqlparser::ast::Expr;
use sqlparser::ast::JoinOperator;
use sqlparser::ast::SelectItem;

verus! {

#[verifier::external_type_specification]
#[verifier::external_body]
pub struct ExStatement(sqlparser::ast::Statement);

#[verifier::external_type_specification]
#[verifier::external_body]
pub struct ExQuery(sqlparser::ast::Query);

#[verifier::external_type_specification]
#[verifier::external_body]
pub struct ExInsert(sqlparser::ast::Insert);

#[verifier::external_type_specification]
#[verifier::external_body]
pub struct ExUpdate(sqlparser::ast::Update);

#[verifier::external_type_specification]
#[verifier::external_body]
pub struct ExDelete(sqlparser::ast::Delete);

#[verifier::external_type_specification]
#[verifier::external_body]
pub struct ExSelectItem(sqlparser::ast::SelectItem);

#[verifier::external_type_specification]
#[verifier::external_body]
pub struct ExTableWithJoins(sqlparser::ast::TableWithJoins);

#[verifier::external_type_specification]
#[verifier::external_body]
pub struct ExJoin(sqlparser::ast::Join);

#[verifier::external_type_specification]
#[verifier::external_body]
pub struct ExJoinOperator(sqlparser::ast::JoinOperator);

#[verifier::external_type_specification]
#[verifier::external_body]
pub struct ExTableFactor(sqlparser::ast::TableFactor);

#[verifier::external_type_specification]
#[verifier::external_body]
pub struct ExExpr(sqlparser::ast::Expr);

#[verifier::external_type_specification]
#[verifier::external_body]
pub struct ExIdent(sqlparser::ast::Ident);

#[verifier::external_type_specification]
#[verifier::external_body]
pub struct ExBinaryOperator(sqlparser::ast::BinaryOperator);

#[verifier::external_type_specification]
#[verifier::external_body]
pub struct ExValueWithSpan(sqlparser::ast::ValueWithSpan);

/// Relies on sqlparser's `Ident`: its `value` field is the identifier
/// without quotes.
#[verifier::external_body]
fn ident_of(i: &sqlparser::ast::Ident) -> String {
    i.value.clone()
}

fn idents_of(ids: &Vec<sqlparser::ast::Ident>) -> Vec<String> {
    let mut out: Vec<String> = Vec::new();
    let n = ids.len();
    let mut i: usize = 0;
    while i < n
        invariant
            n == ids.len(),
            i <= n,
        decreases n - i,
    {
        out.push(ident_of(&ids[i]));
        i = i + 1;
    }
    out
}

/// Relies on sqlparser's `BinaryOperator`: the arithmetic and string
/// operators, one arm each; the rest go through `op_of_rest`.
#[verifier::external_body]
fn op_of(o: &sqlparser::ast::BinaryOperator) -> syntax::Operator {
    match o {
        BinaryOperator::Plus => syntax::Operator::Plus,
        BinaryOperator::Minus => syntax::Operator::Minus,
        BinaryOperator::Multiply => syntax::Operator::Multiply,
        BinaryOperator::Divide => syntax::Operator::Divide,
        BinaryOperator::Modulo => syntax::Operator::Modulo,
        BinaryOperator::StringConcat => syntax::Operator::StringConcat,
        _ => op_of_rest(o),
    }
}

/// Relies on sqlparser's `BinaryOperator`: the comparison and logical
/// operators, one arm each, every other operator kept as its SQL text.
#[verifier::external_body]
fn op_of_rest(o: &sqlparser::ast::BinaryOperator) -> syntax::Operator {
    match o {
        BinaryOperator::Gt => syntax::Operator::Greater,
        BinaryOperator::Lt => syntax::Operator::Less,
        BinaryOperator::GtEq => syntax::Operator::GreaterEq,
        BinaryOperator::LtEq => syntax::Operator::LessEq,
        BinaryOperator::Eq => syntax::Operator::Equal,
        BinaryOperator::NotEq => syntax::Operator::NotEqual,
        BinaryOperator::And => syntax::Operator::And,
        BinaryOperator::Or => syntax::Operator::Or,
        BinaryOperator::Xor => syntax::Operator::Xor,
        _ => syntax::Operator::Other { sql: o.to_string() },
    }
}

/// Relies on sqlparser's `Value`: numbers keep their text, every string
/// literal kind counts as a string, placeholders are told apart.
#[verifier::external_body]
fn lit_of(v: &sqlparser::ast::ValueWithSpan) -> syntax::Literal {
    match &v.value {
        sqlparser::ast::Value::Number(text, _) => syntax::Literal::Number { text: text.clone() },
        sqlparser::ast::Value::Boolean(_) => syntax::Literal::Boolean,
        sqlparser::ast::Value::Null => syntax::Literal::Null,
        sqlparser::ast::Value::Placeholder(_) => syntax::Literal::Placeholder,
        _ => syntax::Literal::Str,
    }
}

/// Relies on sqlparser's `Expr`: the leaf shapes the resolver reads, one
/// arm each; compound shapes go through `expr_of_structured`.
#[verifier::external_body]
fn expr_of(e: &sqlparser::ast::Expr) -> syntax::Expression {
    match e {
        Expr::Identifier(i) => syntax::Expression::Identifier { name: ident_of(i) },
        Expr::CompoundIdentifier(ids) => syntax::Expression::CompoundIdentifier { names: idents_of(ids) },
        Expr::Value(v) => syntax::Expression::Literal { value: lit_of(v) },
        Expr::Function(f) => syntax::Expression::FunctionCall { name: f.name.to_string(), sql: e.to_string() },
        _ => expr_of_structured(e),
    }
}

/// Relies on sqlparser's `Expr`: casts, parentheses and binary
/// operations, recursing through `expr_of`; anything else kept as its SQL
/// text.
#[verifier::external_body]
fn expr_of_structured(e: &sqlparser::ast::Expr) -> syntax::Expression {
    match e {
        Expr::Cast { expr, data_type, .. } => syntax::Expression::Cast { expr: Box::new(expr_of(expr)), data_type: data_type.to_string() },
        Expr::Nested(inner) => syntax::Expression::Nested { expr: Box::new(expr_of(inner)) },
        Expr::BinaryOp { left, op, right } => syntax::Expression::BinaryOp { op: op_of(op), left: Box::new(expr_of(left)), right: Box::new(expr_of(right)) },
        _ => syntax::Expression::Other { sql: e.to_string() },
    }
}

/// Relies on sqlparser's `SelectItem`: plain and aliased expressions are
/// converted, wildcards are not.
#[verifier::external_body]
fn item_of(it: &sqlparser::ast::SelectItem) -> syntax::ProjectionItem {
    match it {
        SelectItem::UnnamedExpr(e) => syntax::ProjectionItem::UnnamedExpr { expr: expr_of(e) },
        SelectItem::ExprWithAlias { expr, alias } => syntax::ProjectionItem::ExprWithAlias { expr: expr_of(expr), alias: alias.value.clone() },
        _ => syntax::ProjectionItem::Other,
    }
}

fn items_of(items: &Vec<sqlparser::ast::SelectItem>) -> Vec<syntax::ProjectionItem> {
    let mut out: Vec<syntax::ProjectionItem> = Vec::new();
    let n = items.len();
    let mut i: usize = 0;
    while i < n
        invariant
            n == items.len(),
            i <= n,
        decreases n - i,
    {
        out.push(item_of(&items[i]));
        i = i + 1;
    }
    out
}

/// Relies on sqlparser's `JoinOperator`: the kinds the resolver knows,
/// one arm each.
#[verifier::external_body]
fn jop_kind(op: &sqlparser::ast::JoinOperator) -> syntax::JoinKind {
    match op {
        JoinOperator::Inner(_) | JoinOperator::Join(_) => syntax::JoinKind::Inner,
        JoinOperator::LeftOuter(_) | JoinOperator::Left(_) => syntax::JoinKind::Left,
        JoinOperator::RightOuter(_) | JoinOperator::Right(_) => syntax::JoinKind::Right,
        JoinOperator::FullOuter(_) => syntax::JoinKind::Full,
        JoinOperator::CrossJoin(_) => syntax::JoinKind::Cross,
        _ => syntax::JoinKind::Other,
    }
}

/// Relies on sqlparser's `Join`: its operator, joined relation, and text.
#[verifier::external_body]
fn join_of(j: &sqlparser::ast::Join) -> syntax::JoinStep
    decreases j,
{
    syntax::JoinStep { kind: jop_kind(&j.join_operator), relation: factor_of(&j.relation), sql: j.to_string() }
}

fn joins_of(js: &Vec<sqlparser::ast::Join>) -> Vec<syntax::JoinStep> {
    let mut out: Vec<syntax::JoinStep> = Vec::new();
    let n = js.len();
    let mut i: usize = 0;
    while i < n
        invariant
            n == js.len(),
            i <= n,
        decreases n - i,
    {
        out.push(join_of(&js[i]));
        i = i + 1;
    }
    out
}

/// Relies on sqlparser's `TableFactor`: named tables and parenthesized
/// joins with their aliases, anything else kept as its SQL text.
#[verifier::external_body]
fn factor_of(f: &sqlparser::ast::TableFactor) -> syntax::Relation
    decreases f,
{
    match f {
        sqlparser::ast::TableFactor::Table { name, alias, .. } => syntax::Relation::Named { name: name.to_string(), alias: alias.as_ref().map(|a| a.to_string()) },
        sqlparser::ast::TableFactor::NestedJoin { table_with_joins, alias } => syntax::Relation::Nested { inner: Box::new(twj_of(table_with_joins)), alias: alias.as_ref().map(|a| a.to_string()) },
        _ => syntax::Relation::Other { sql: f.to_string() },
    }
}

/// Relies on sqlparser's `TableWithJoins`: its base relation and joins.
#[verifier::external_body]
fn twj_of(t: &sqlparser::ast::TableWithJoins) -> syntax::JoinedTable
    decreases t,
{
    syntax::JoinedTable { relation: factor_of(&t.relation), joins: joins_of(&t.joins) }
}

fn twjs_of(ts: &Vec<sqlparser::ast::TableWithJoins>) -> Vec<syntax::JoinedTable> {
    let mut out: Vec<syntax::JoinedTable> = Vec::new();
    let n = ts.len();
    let mut i: usize = 0;
    while i < n
        invariant
            n == ts.len(),
            i <= n,
        decreases n - i,
    {
        out.push(twj_of(&ts[i]));
        i = i + 1;
    }
    out
}

/// Relies on sqlparser's `Query`: its `WITH` clause and `SELECT` body;
/// any other body is kept as the query's text.
#[verifier::external_body]
fn query_stmt(q: &sqlparser::ast::Query) -> syntax::Stmt {
    let body = match &*q.body {
        sqlparser::ast::SetExpr::Select(sel) => syntax::QueryBody::Select { projection: items_of(&sel.projection), from: twjs_of(&sel.from) },
        _ => syntax::QueryBody::Other { sql: q.to_string() },
    };
    syntax::Stmt::Query { with: q.with.is_some(), body }
}

/// Relies on sqlparser's `Insert`: its target table and RETURNING list.
#[verifier::external_body]
fn insert_stmt(i: &sqlparser::ast::Insert) -> syntax::Stmt {
    let table = match &i.table {
        sqlparser::ast::TableObject::TableName(n) => syntax::TableName::Name { name: n.to_string() },
        _ => syntax::TableName::Other { sql: i.table.to_string() },
    };
    syntax::Stmt::Insert { table, returning: i.returning.as_ref().map(items_of) }
}

/// Relies on sqlparser's `Update`: its table and RETURNING list.
#[verifier::external_body]
fn update_stmt(u: &sqlparser::ast::Update) -> syntax::Stmt {
    syntax::Stmt::Update { table: twj_of(&u.table), returning: u.returning.as_ref().map(items_of) }
}

/// Relies on sqlparser's `Delete`: its FROM list and RETURNING list.
#[verifier::external_body]
fn delete_stmt(d: &sqlparser::ast::Delete) -> syntax::Stmt {
    let from = match &d.from {
        sqlparser::ast::FromTable::WithFromKeyword(ts) => twjs_of(ts),
        sqlparser::ast::FromTable::WithoutKeyword(ts) => twjs_of(ts),
    };
    syntax::Stmt::Delete { from, returning: d.returning.as_ref().map(items_of) }
}

/// Relies on sqlparser's `Statement`: the four shapes the resolver
/// handles, anything else kept as its SQL text.
#[verifier::external_body]
fn stmt_of(s: &sqlparser::ast::Statement) -> syntax::Stmt {
    match s {
        sqlparser::ast::Statement::Query(q) => query_stmt(q),
        sqlparser::ast::Statement::Insert(i) => insert_stmt(i),
        sqlparser::ast::Statement::Update(u) => update_stmt(u),
        sqlparser::ast::Statement::Delete(d) => delete_stmt(d),
        _ => syntax::Stmt::Other { sql: s.to_string() },
    }
}

/// What parsing a query yields: the statement shapes of
/// [`crate::syntax`], or the parser's message.  The result is a function
/// of the text alone — `sqlparser::parser::Parser::parse_sql` with the
/// fixed PostgreSQL dialect, reduced by the conversions above — so it can
/// be named; no contract says what the name is on given values.
pub uninterp spec fn spec_parsed(query: Seq<char>) -> Result<Seq<syntax::Stmt>, Seq<char>>;

/// Relies on `sqlparser::parser::Parser::parse_sql` with the PostgreSQL
/// dialect, reduced by the conversions above: the statements the text
/// parses to, or the parser's message; [`spec_parsed`] names this result.
#[verifier::external_body]
fn parse_statements(query: &str) -> (r: Result<Vec<syntax::Stmt>, String>)
    ensures
        (match r {
            Ok(v) => spec_parsed(query@) matches Ok(m) && v@ == m,
            Err(e) => spec_parsed(query@) matches Err(m) && e@ == m,
        }),
{
    let dialect = sqlparser::dialect::PostgreSqlDialect {};
    match sqlparser::parser::Parser::parse_sql(&dialect, query) {
        Ok(stmts) => Ok(stmts.iter().map(stmt_of).collect()),
        Err(e) => Err(e.to_string()),
    }
}

/// Parses query text into the statement shapes the resolver walks.  A
/// rejection by the SQL parser comes back as `ParserError::ParseFailed`
/// with the parser's message.
pub fn to_ast(query: &str) -> (r: Result<Vec<syntax::Stmt>, ParserError>)
    ensures
        (r matches Ok(v) ==> spec_parsed(query@) matches Ok(m) && v@ == m),
        (r matches Err(e) ==> (e matches ParserError::ParseFailed { message }
            && spec_parsed(query@) matches Err(m) && message@ == m)),
{
    match parse_statements(query) {
        Ok(stmts) => Ok(stmts),
        Err(message) => Err(ParserError::ParseFailed { message }),
    }
}

} // verus!
