//! The call into `sqlparser`, and the mapping of its syntax tree onto [`crate::syntax`].
//!
//! [`parse_sql`] parses a text with the generic dialect and hands back its
//! statements in the library's own syntax model; the private functions below
//! take a syntax tree of `sqlparser` apart, field by field, into that model,
//! and turn every variant the lowering does not read into `Other`. What the
//! parse of a text gives is named [`sql_syntax`].

use vstd::prelude::*;
use sqlparser::ast;
use sqlparser::dialect::GenericDialect;
use sqlparser::parser::Parser;
use crate::screen::kept_from_parser;
use crate::syntax::{
    SqlAssignmentTarget, SqlBinaryOperator, SqlExpr, SqlFunction, SqlFunctionArg, SqlFunctionArgExpr,
    SqlFunctionArgumentList, SqlFunctionArguments, SqlGroupBy, SqlIdent, SqlJoinConstraint, SqlJoinOperator,
    SqlObjectName, SqlOrderBy, SqlOrderByExpr, SqlQuery, QueryClauses, SelectClauses, SqlSelectItem, SqlSetExpr,
    SqlSetOperator, SqlAssignment, SqlDelete, SqlInsert, SqlJoin, SqlSelect, SqlStatement,
    SqlTableFactor, SqlTableObject, SqlTableWithJoins, SqlUnaryOperator, SqlValue, SqlWildcardOptions,
};

verus! {

/// Declares `sqlparser::ast::Statement` to Verus as an opaque type.
#[verifier::external_type_specification]
#[verifier::external_body]
pub struct ExAstStatement(sqlparser::ast::Statement);

/// Declares `sqlparser::ast::Assignment` to Verus as an opaque type.
#[verifier::external_type_specification]
#[verifier::external_body]
pub struct ExAstAssignment(sqlparser::ast::Assignment);

/// Declares `sqlparser::ast::Query` to Verus as an opaque type.
#[verifier::external_type_specification]
#[verifier::external_body]
pub struct ExAstQuery(sqlparser::ast::Query);

/// Declares `sqlparser::ast::SetExpr` to Verus as an opaque type.
#[verifier::external_type_specification]
#[verifier::external_body]
pub struct ExAstSetExpr(sqlparser::ast::SetExpr);

/// Declares `sqlparser::ast::SetOperator` to Verus as an opaque type.
#[verifier::external_type_specification]
#[verifier::external_body]
pub struct ExAstSetOperator(sqlparser::ast::SetOperator);

/// Declares `sqlparser::ast::Select` to Verus as an opaque type.
#[verifier::external_type_specification]
#[verifier::external_body]
pub struct ExAstSelect(sqlparser::ast::Select);

/// Declares `sqlparser::ast::SelectItem` to Verus as an opaque type.
#[verifier::external_type_specification]
#[verifier::external_body]
pub struct ExAstSelectItem(sqlparser::ast::SelectItem);

/// Declares `sqlparser::ast::WildcardAdditionalOptions` to Verus as an opaque type.
#[verifier::external_type_specification]
#[verifier::external_body]
pub struct ExAstWildcardAdditionalOptions(sqlparser::ast::WildcardAdditionalOptions);

/// Declares `sqlparser::ast::TableWithJoins` to Verus as an opaque type.
#[verifier::external_type_specification]
#[verifier::external_body]
pub struct ExAstTableWithJoins(sqlparser::ast::TableWithJoins);

/// Declares `sqlparser::ast::TableFactor` to Verus as an opaque type.
#[verifier::external_type_specification]
#[verifier::external_body]
pub struct ExAstTableFactor(sqlparser::ast::TableFactor);

/// Declares `sqlparser::ast::JoinOperator` to Verus as an opaque type.
#[verifier::external_type_specification]
#[verifier::external_body]
pub struct ExAstJoinOperator(sqlparser::ast::JoinOperator);

/// Declares `sqlparser::ast::JoinConstraint` to Verus as an opaque type.
#[verifier::external_type_specification]
#[verifier::external_body]
pub struct ExAstJoinConstraint(sqlparser::ast::JoinConstraint);

/// Declares `sqlparser::ast::Ident` to Verus as an opaque type.
#[verifier::external_type_specification]
#[verifier::external_body]
pub struct ExAstIdent(sqlparser::ast::Ident);

/// Declares `sqlparser::ast::ObjectName` to Verus as an opaque type.
#[verifier::external_type_specification]
#[verifier::external_body]
pub struct ExAstObjectName(sqlparser::ast::ObjectName);

/// Declares `sqlparser::ast::Expr` to Verus as an opaque type.
#[verifier::external_type_specification]
#[verifier::external_body]
pub struct ExAstExpr(sqlparser::ast::Expr);

/// Declares `sqlparser::ast::UnaryOperator` to Verus as an opaque type.
#[verifier::external_type_specification]
#[verifier::external_body]
pub struct ExAstUnaryOperator(sqlparser::ast::UnaryOperator);

/// Declares `sqlparser::ast::BinaryOperator` to Verus as an opaque type.
#[verifier::external_type_specification]
#[verifier::external_body]
pub struct ExAstBinaryOperator(sqlparser::ast::BinaryOperator);

/// Declares `sqlparser::ast::Value` to Verus as an opaque type.
#[verifier::external_type_specification]
#[verifier::external_body]
pub struct ExAstValue(sqlparser::ast::Value);

/// Declares `sqlparser::ast::Function` to Verus as an opaque type.
#[verifier::external_type_specification]
#[verifier::external_body]
pub struct ExAstFunction(sqlparser::ast::Function);

/// Declares `sqlparser::ast::FunctionArguments` to Verus as an opaque type.
#[verifier::external_type_specification]
#[verifier::external_body]
pub struct ExAstFunctionArguments(sqlparser::ast::FunctionArguments);

/// Declares `sqlparser::ast::FunctionArg` to Verus as an opaque type.
#[verifier::external_type_specification]
#[verifier::external_body]
pub struct ExAstFunctionArg(sqlparser::ast::FunctionArg);

/// Declares `sqlparser::ast::OrderBy` to Verus as an opaque type.
#[verifier::external_type_specification]
#[verifier::external_body]
pub struct ExAstOrderBy(sqlparser::ast::OrderBy);

/// Declares `sqlparser::ast::Insert` to Verus as an opaque type.
#[verifier::external_type_specification]
#[verifier::external_body]
pub struct ExAstInsert(sqlparser::ast::Insert);

/// Declares `sqlparser::ast::Delete` to Verus as an opaque type.
#[verifier::external_type_specification]
#[verifier::external_body]
pub struct ExAstDelete(sqlparser::ast::Delete);

/// The statements that `sqlparser`, with its generic dialect, reads from a
/// text, mapped onto [`crate::syntax`]; or the message of its parse error.
pub uninterp spec fn sql_syntax(text: Seq<char>) -> Result<Seq<SqlStatement>, Seq<char>>;

/// Calls `sqlparser::parser::Parser::parse_sql` with the generic dialect and maps
/// each statement onto the library's syntax tree; a parse error becomes its
/// message (`to_string`). Claims only that the outcome is a function of the
/// text, named [`sql_syntax`].
///
/// The parser panics, rather than failing, where `FLUSH RELAY LOGS FOR CHANNEL`
/// has no channel name after it, or `GRANTED BY` in `GRANT` or `REVOKE` no
/// identifier; the texts that can reach those places, and texts longer than
/// [`crate::screen::MAX_TEXT_BYTES`], are left out by `requires` (see
/// [`crate::screen`]). The mapping recurses once per level of an expression,
/// and every level takes at least one byte of the text, so within that bound
/// the recursion is at most [`crate::screen::MAX_TEXT_BYTES`] deep; how much
/// stack a level takes is not stated here.
#[verifier::external_body]
pub(crate) fn parse_sql(text: &str) -> (r: Result<Vec<SqlStatement>, String>)
    requires
        !kept_from_parser(text@),
    ensures
        match r {
            Ok(statements) => sql_syntax(text@) == Ok::<Seq<SqlStatement>, Seq<char>>(statements@),
            Err(message) => sql_syntax(text@) == Err::<Seq<SqlStatement>, Seq<char>>(message@),
        },
{
    match Parser::parse_sql(&GenericDialect {}, text) {
        Ok(statements) => Ok(statements.into_iter().map(statement_of).collect()),
        Err(error) => Err(error.to_string()),
    }
}

/// Maps `sqlparser::ast::Statement`; statements outside the lowering become `Other`.
/// It has no contract: nothing is claimed of what it returns.
#[verifier::external_body]
fn statement_of(s: ast::Statement) -> SqlStatement {
    match s {
        ast::Statement::Query(q) => SqlStatement::Query(Box::new(query_of(*q))),
        ast::Statement::Insert(i) => SqlStatement::Insert(insert_of(i)),
        ast::Statement::Update { table, assignments, from, selection, returning, or } =>
            update_of(table, assignments, selection, from.is_some(), returning.is_some(), or.is_some()),
        ast::Statement::Delete(d) => SqlStatement::Delete(delete_of(d)),
        other => transaction_of(other),
    }
}

/// Maps the transaction statements of `sqlparser::ast::Statement`; any other becomes `Other`.
/// It has no contract: nothing is claimed of what it returns.
#[verifier::external_body]
fn transaction_of(s: ast::Statement) -> SqlStatement {
    match s {
        ast::Statement::StartTransaction { modes, modifier, .. } =>
            SqlStatement::StartTransaction { modes: modes.len(), modifier: modifier.is_some() },
        ast::Statement::Commit { chain, end, modifier } => SqlStatement::Commit { chain, end, modifier: modifier.is_some() },
        ast::Statement::Rollback { chain, savepoint } => SqlStatement::Rollback { chain, savepoint: savepoint.map(ident_of) },
        _ => SqlStatement::Other,
    }
}

/// Maps the parts of a `sqlparser::ast::Statement::Update`; FROM, RETURNING and OR come as presence flags.
/// It has no contract: nothing is claimed of what it returns.
#[verifier::external_body]
fn update_of(
    table: ast::TableWithJoins,
    assignments: Vec<ast::Assignment>,
    selection: Option<ast::Expr>,
    from: bool,
    returning: bool,
    or: bool,
) -> SqlStatement {
    SqlStatement::Update {
        table: table_with_joins_of(table),
        assignments: assignments.into_iter().map(assignment_of).collect(),
        from, selection: selection.map(expr_of), returning, or,
    }
}

/// Maps `sqlparser::ast::Assignment` and its target.
/// It has no contract: nothing is claimed of what it returns.
#[verifier::external_body]
fn assignment_of(a: ast::Assignment) -> SqlAssignment {
    let target = match a.target {
        ast::AssignmentTarget::ColumnName(name) => SqlAssignmentTarget::ColumnName(name_of(name)),
        ast::AssignmentTarget::Tuple(_) => SqlAssignmentTarget::Tuple,
    };
    SqlAssignment { target, value: expr_of(a.value) }
}

/// Maps `sqlparser::ast::Query`; the clauses around the body become presence flags.
/// It has no contract: nothing is claimed of what it returns.
#[verifier::external_body]
fn query_of(q: ast::Query) -> SqlQuery {
    let clauses = QueryClauses {
        with: q.with.is_some(), limit: q.limit.is_some(), limit_by: !q.limit_by.is_empty(),
        offset: q.offset.is_some(), fetch: q.fetch.is_some(), locks: !q.locks.is_empty(),
        for_clause: q.for_clause.is_some(), settings: q.settings.is_some(), format_clause: q.format_clause.is_some(),
    };
    SqlQuery { clauses, body: Box::new(set_expr_of(*q.body)), order_by: q.order_by.map(order_by_of) }
}

/// Maps `sqlparser::ast::SetExpr`; `VALUES` keeps its rows.
/// It has no contract: nothing is claimed of what it returns.
#[verifier::external_body]
fn set_expr_of(b: ast::SetExpr) -> SqlSetExpr {
    match b {
        ast::SetExpr::Select(s) => SqlSetExpr::Select(Box::new(select_of(*s))),
        ast::SetExpr::Query(q) => SqlSetExpr::Query(Box::new(query_of(*q))),
        ast::SetExpr::SetOperation { op, .. } => SqlSetExpr::SetOperation(set_operator_of(op)),
        ast::SetExpr::Values(v) => SqlSetExpr::Values(v.rows.into_iter().map(|row| row.into_iter().map(expr_of).collect()).collect()),
        ast::SetExpr::Insert(_) => SqlSetExpr::Insert,
        ast::SetExpr::Update(_) => SqlSetExpr::Update,
        ast::SetExpr::Table(_) => SqlSetExpr::Table,
    }
}

/// Maps `sqlparser::ast::SetOperator`.
/// It has no contract: nothing is claimed of what it returns.
#[verifier::external_body]
fn set_operator_of(op: ast::SetOperator) -> SqlSetOperator {
    match op {
        ast::SetOperator::Union => SqlSetOperator::Union,
        ast::SetOperator::Except => SqlSetOperator::Except,
        ast::SetOperator::Intersect => SqlSetOperator::Intersect,
        ast::SetOperator::Minus => SqlSetOperator::Minus,
    }
}

/// Maps `sqlparser::ast::Select`.
/// It has no contract: nothing is claimed of what it returns.
#[verifier::external_body]
fn select_of(s: ast::Select) -> SqlSelect {
    let group_by = match &s.group_by {
        ast::GroupByExpr::All(modifiers) => SqlGroupBy::All { modifiers: modifiers.len() },
        ast::GroupByExpr::Expressions(exprs, modifiers) => SqlGroupBy::Expressions { expressions: exprs.len(), modifiers: modifiers.len() },
    };
    SqlSelect {
        clauses: select_clauses_of(&s),
        projection: s.projection.into_iter().map(select_item_of).collect(),
        from: s.from.into_iter().map(table_with_joins_of).collect(),
        selection: s.selection.map(expr_of),
        group_by,
    }
}

/// Which of the clauses of a `sqlparser::ast::Select` that the lowering refuses are present.
/// It has no contract: nothing is claimed of what it returns.
#[verifier::external_body]
fn select_clauses_of(s: &ast::Select) -> SelectClauses {
    SelectClauses {
        distinct: s.distinct.is_some(), top: s.top.is_some(), into: s.into.is_some(),
        prewhere: s.prewhere.is_some(), lateral_views: !s.lateral_views.is_empty(),
        cluster_by: !s.cluster_by.is_empty(), distribute_by: !s.distribute_by.is_empty(),
        sort_by: !s.sort_by.is_empty(), having: s.having.is_some(), named_window: !s.named_window.is_empty(),
        qualify: s.qualify.is_some(), value_table_mode: s.value_table_mode.is_some(), connect_by: s.connect_by.is_some(),
    }
}

/// Maps `sqlparser::ast::SelectItem`.
/// It has no contract: nothing is claimed of what it returns.
#[verifier::external_body]
fn select_item_of(i: ast::SelectItem) -> SqlSelectItem {
    match i {
        ast::SelectItem::UnnamedExpr(e) => SqlSelectItem::UnnamedExpr(expr_of(e)),
        ast::SelectItem::ExprWithAlias { expr, alias } => SqlSelectItem::ExprWithAlias { expr: expr_of(expr), alias: ident_of(alias) },
        ast::SelectItem::QualifiedWildcard(name, options) => SqlSelectItem::QualifiedWildcard(name_of(name), wildcard_options_of(&options)),
        ast::SelectItem::Wildcard(options) => SqlSelectItem::Wildcard(wildcard_options_of(&options)),
    }
}

/// Which options of a `sqlparser::ast::WildcardAdditionalOptions` are present.
/// It has no contract: nothing is claimed of what it returns.
#[verifier::external_body]
fn wildcard_options_of(o: &ast::WildcardAdditionalOptions) -> SqlWildcardOptions {
    SqlWildcardOptions {
        ilike: o.opt_ilike.is_some(), exclude: o.opt_exclude.is_some(), except: o.opt_except.is_some(),
        replace: o.opt_replace.is_some(), rename: o.opt_rename.is_some(),
    }
}

/// Maps `sqlparser::ast::TableWithJoins` and its joins.
/// It has no contract: nothing is claimed of what it returns.
#[verifier::external_body]
fn table_with_joins_of(t: ast::TableWithJoins) -> SqlTableWithJoins {
    SqlTableWithJoins {
        relation: table_factor_of(t.relation),
        joins: t.joins.into_iter().map(|j| SqlJoin { relation: table_factor_of(j.relation), join_operator: join_operator_of(j.join_operator) }).collect(),
    }
}

/// Maps `sqlparser::ast::TableFactor`; a named table keeps presence flags for its modifiers.
/// It has no contract: nothing is claimed of what it returns.
#[verifier::external_body]
fn table_factor_of(f: ast::TableFactor) -> SqlTableFactor {
    match f {
        ast::TableFactor::Table { name, alias, args, with_hints, version, partitions, sample, .. } => SqlTableFactor::Table {
            name: name_of(name), alias: alias.is_some(), args: args.is_some(), with_hints: !with_hints.is_empty(),
            version: version.is_some(), partitions: !partitions.is_empty(), sample: sample.is_some(),
        },
        _ => SqlTableFactor::Other,
    }
}

/// Maps `sqlparser::ast::JoinOperator`; only an inner join keeps its constraint.
/// It has no contract: nothing is claimed of what it returns.
#[verifier::external_body]
fn join_operator_of(o: ast::JoinOperator) -> SqlJoinOperator {
    match o {
        ast::JoinOperator::Inner(c) => SqlJoinOperator::Inner(join_constraint_of(c)),
        ast::JoinOperator::LeftOuter(_) => SqlJoinOperator::LeftOuter,
        ast::JoinOperator::RightOuter(_) => SqlJoinOperator::RightOuter,
        ast::JoinOperator::FullOuter(_) => SqlJoinOperator::FullOuter,
        ast::JoinOperator::CrossJoin => SqlJoinOperator::CrossJoin,
        ast::JoinOperator::Semi(_) => SqlJoinOperator::Semi, ast::JoinOperator::LeftSemi(_) => SqlJoinOperator::LeftSemi,
        ast::JoinOperator::RightSemi(_) => SqlJoinOperator::RightSemi, ast::JoinOperator::Anti(_) => SqlJoinOperator::Anti,
        ast::JoinOperator::LeftAnti(_) => SqlJoinOperator::LeftAnti, ast::JoinOperator::RightAnti(_) => SqlJoinOperator::RightAnti,
        ast::JoinOperator::CrossApply => SqlJoinOperator::CrossApply, ast::JoinOperator::OuterApply => SqlJoinOperator::OuterApply,
        ast::JoinOperator::AsOf { .. } => SqlJoinOperator::AsOf,
    }
}

/// Maps `sqlparser::ast::JoinConstraint`.
/// It has no contract: nothing is claimed of what it returns.
#[verifier::external_body]
fn join_constraint_of(c: ast::JoinConstraint) -> SqlJoinConstraint {
    match c {
        ast::JoinConstraint::On(e) => SqlJoinConstraint::On(expr_of(e)),
        ast::JoinConstraint::Using(_) => SqlJoinConstraint::Using,
        ast::JoinConstraint::Natural => SqlJoinConstraint::Natural,
        ast::JoinConstraint::None => SqlJoinConstraint::Absent,
    }
}

/// Maps `sqlparser::ast::Ident`: its value and quote character.
/// It has no contract: nothing is claimed of what it returns.
#[verifier::external_body]
fn ident_of(i: ast::Ident) -> SqlIdent {
    SqlIdent { value: i.value, quote_style: i.quote_style }
}

/// Maps `sqlparser::ast::ObjectName`: its parts in order.
/// It has no contract: nothing is claimed of what it returns.
#[verifier::external_body]
fn name_of(n: ast::ObjectName) -> SqlObjectName {
    SqlObjectName(n.0.into_iter().map(ident_of).collect())
}

/// Maps `sqlparser::ast::Expr`; expressions outside the lowering become `Other`.
/// It has no contract: nothing is claimed of what it returns.
#[verifier::external_body]
fn expr_of(e: ast::Expr) -> SqlExpr {
    match e {
        ast::Expr::Identifier(i) => SqlExpr::Identifier(ident_of(i)),
        ast::Expr::CompoundIdentifier(parts) => SqlExpr::CompoundIdentifier(parts.into_iter().map(ident_of).collect()),
        ast::Expr::Value(v) => SqlExpr::Value(value_of(v)),
        ast::Expr::UnaryOp { op, expr } => SqlExpr::UnaryOp { op: unary_operator_of(op), expr: boxed(expr) },
        ast::Expr::BinaryOp { left, op, right } =>
            SqlExpr::BinaryOp { left: boxed(left), op: binary_operator_of(op), right: boxed(right) },
        other => enclosing_expr_of(other),
    }
}

/// Maps the variants of `sqlparser::ast::Expr` that wrap one expression or a call; any other becomes `Other`.
/// It has no contract: nothing is claimed of what it returns.
#[verifier::external_body]
fn enclosing_expr_of(e: ast::Expr) -> SqlExpr {
    match e {
        ast::Expr::IsNull(inner) => SqlExpr::IsNull(boxed(inner)),
        ast::Expr::IsNotNull(inner) => SqlExpr::IsNotNull(boxed(inner)),
        ast::Expr::Nested(inner) => SqlExpr::Nested(boxed(inner)),
        ast::Expr::Function(f) => SqlExpr::Function(function_of(f)),
        _ => SqlExpr::Other,
    }
}

/// Maps a boxed `sqlparser::ast::Expr`.
/// It has no contract: nothing is claimed of what it returns.
#[verifier::external_body]
fn boxed(e: Box<ast::Expr>) -> Box<SqlExpr> {
    Box::new(expr_of(*e))
}

/// Maps `sqlparser::ast::UnaryOperator`.
/// It has no contract: nothing is claimed of what it returns.
#[verifier::external_body]
fn unary_operator_of(op: ast::UnaryOperator) -> SqlUnaryOperator {
    match op {
        ast::UnaryOperator::Plus => SqlUnaryOperator::Plus,
        ast::UnaryOperator::Minus => SqlUnaryOperator::Minus,
        ast::UnaryOperator::Not => SqlUnaryOperator::Not,
        _ => SqlUnaryOperator::Other,
    }
}

/// Maps `sqlparser::ast::BinaryOperator`.
/// It has no contract: nothing is claimed of what it returns.
#[verifier::external_body]
fn binary_operator_of(op: ast::BinaryOperator) -> SqlBinaryOperator {
    match op {
        ast::BinaryOperator::Eq => SqlBinaryOperator::Eq,
        ast::BinaryOperator::NotEq => SqlBinaryOperator::NotEq,
        ast::BinaryOperator::Lt => SqlBinaryOperator::Lt,
        ast::BinaryOperator::LtEq => SqlBinaryOperator::LtEq,
        ast::BinaryOperator::Gt => SqlBinaryOperator::Gt,
        ast::BinaryOperator::GtEq => SqlBinaryOperator::GtEq,
        ast::BinaryOperator::And => SqlBinaryOperator::And,
        ast::BinaryOperator::Or => SqlBinaryOperator::Or,
        _ => SqlBinaryOperator::Other,
    }
}

/// Maps `sqlparser::ast::Value`.
/// It has no contract: nothing is claimed of what it returns.
#[verifier::external_body]
fn value_of(v: ast::Value) -> SqlValue {
    match v {
        ast::Value::Number(text, long) => SqlValue::Number(text, long),
        ast::Value::SingleQuotedString(s) => SqlValue::SingleQuotedString(s),
        ast::Value::Boolean(b) => SqlValue::Boolean(b),
        ast::Value::Null => SqlValue::Null,
        _ => SqlValue::Other,
    }
}

/// Maps `sqlparser::ast::Function`; its modifiers become presence flags.
/// It has no contract: nothing is claimed of what it returns.
#[verifier::external_body]
fn function_of(f: ast::Function) -> SqlFunction {
    SqlFunction {
        name: name_of(f.name), parameters: function_arguments_of(f.parameters), args: function_arguments_of(f.args),
        filter: f.filter.is_some(), null_treatment: f.null_treatment.is_some(), over: f.over.is_some(),
        within_group: !f.within_group.is_empty(),
    }
}

/// Maps `sqlparser::ast::FunctionArguments`.
/// It has no contract: nothing is claimed of what it returns.
#[verifier::external_body]
fn function_arguments_of(a: ast::FunctionArguments) -> SqlFunctionArguments {
    match a {
        ast::FunctionArguments::None => SqlFunctionArguments::Absent,
        ast::FunctionArguments::Subquery(_) => SqlFunctionArguments::Subquery,
        ast::FunctionArguments::List(list) => SqlFunctionArguments::List(SqlFunctionArgumentList {
            duplicate_treatment: list.duplicate_treatment.is_some(),
            args: list.args.into_iter().map(function_arg_of).collect(),
            clauses: !list.clauses.is_empty(),
        }),
    }
}

/// Maps `sqlparser::ast::FunctionArg`; named arguments keep no detail.
/// It has no contract: nothing is claimed of what it returns.
#[verifier::external_body]
fn function_arg_of(a: ast::FunctionArg) -> SqlFunctionArg {
    match a {
        ast::FunctionArg::Unnamed(ast::FunctionArgExpr::Expr(e)) => SqlFunctionArg::Unnamed(SqlFunctionArgExpr::Expr(expr_of(e))),
        ast::FunctionArg::Unnamed(ast::FunctionArgExpr::QualifiedWildcard(n)) => SqlFunctionArg::Unnamed(SqlFunctionArgExpr::QualifiedWildcard(name_of(n))),
        ast::FunctionArg::Unnamed(ast::FunctionArgExpr::Wildcard) => SqlFunctionArg::Unnamed(SqlFunctionArgExpr::Wildcard),
        _ => SqlFunctionArg::Named,
    }
}

/// Maps `sqlparser::ast::OrderBy` and its keys.
/// It has no contract: nothing is claimed of what it returns.
#[verifier::external_body]
fn order_by_of(o: ast::OrderBy) -> SqlOrderBy {
    SqlOrderBy {
        exprs: o.exprs.into_iter().map(|e| SqlOrderByExpr {
            expr: expr_of(e.expr), asc: e.asc, nulls_first: e.nulls_first, with_fill: e.with_fill.is_some(),
        }).collect(),
        interpolate: o.interpolate.is_some(),
    }
}

/// Maps `sqlparser::ast::Insert`; its clauses and modifiers become presence flags.
/// It has no contract: nothing is claimed of what it returns.
#[verifier::external_body]
fn insert_of(i: ast::Insert) -> SqlInsert {
    let table = match i.table {
        ast::TableObject::TableName(name) => SqlTableObject::TableName(name_of(name)),
        ast::TableObject::TableFunction(_) => SqlTableObject::TableFunction,
    };
    SqlInsert {
        or: i.or.is_some(), into: i.into, table, columns: i.columns.into_iter().map(ident_of).collect(),
        overwrite: i.overwrite, source: i.source.map(|q| Box::new(query_of(*q))), assignments: !i.assignments.is_empty(),
        has_table_keyword: i.has_table_keyword, on: i.on.is_some(), returning: i.returning.is_some(), replace_into: i.replace_into,
    }
}

/// Maps `sqlparser::ast::Delete`; its clauses become presence flags.
/// It has no contract: nothing is claimed of what it returns.
#[verifier::external_body]
fn delete_of(d: ast::Delete) -> SqlDelete {
    let from = match d.from {
        ast::FromTable::WithFromKeyword(tables) | ast::FromTable::WithoutKeyword(tables) => tables,
    };
    SqlDelete {
        tables: !d.tables.is_empty(), from: from.into_iter().map(table_with_joins_of).collect(), using: d.using.is_some(),
        selection: d.selection.map(expr_of), returning: d.returning.is_some(), order_by: !d.order_by.is_empty(), limit: d.limit.is_some(),
    }
}

} // verus!
