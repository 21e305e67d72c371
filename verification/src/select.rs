//! SELECT queries: the clauses that the subset refuses, and the lowering of the rest.

use vstd::prelude::*;
use crate::filter::{lower_selection, spec_lower_selection};
use crate::join::{lower_join, spec_lower_join};
use crate::names::{single_from, spec_single_from, spec_table_name, table_name};
use crate::order::{lower_order, spec_lower_order};
use crate::projection::{lower_projection, spec_lower_projection};
use crate::query::{SelectQuery, SpecSelectQuery};
use crate::refusal::{outside, outcome, refuse, QueryRefusal, SpecRefusal};
use crate::syntax::{SqlGroupBy, SqlOrderBy, SqlQuery, SqlSetExpr, SqlSetOperator, SqlSelect};

verus! {

pub open spec fn spec_grouped(group_by: SqlGroupBy) -> bool {
    match group_by {
        SqlGroupBy::All { .. } => true,
        SqlGroupBy::Expressions { expressions, modifiers } => expressions != 0 || modifiers != 0,
    }
}

/// Whether a SELECT groups its rows.
pub fn grouped(group_by: &SqlGroupBy) -> (r: bool)
    ensures
        r == spec_grouped(*group_by),
{
    match group_by {
        SqlGroupBy::All { .. } => true,
        SqlGroupBy::Expressions { expressions, modifiers } => *expressions != 0 || *modifiers != 0,
    }
}

pub open spec fn spec_reject_distinct_group(select: SqlSelect) -> Result<(), SpecRefusal> {
    if select.clauses.distinct {
        refuse("DISTINCT"@)
    } else if select.clauses.having {
        refuse("HAVING"@)
    } else if spec_grouped(select.group_by) {
        refuse("GROUP BY"@)
    } else {
        Ok(())
    }
}

/// Refuses DISTINCT, HAVING and GROUP BY.
pub fn reject_distinct_group(select: &SqlSelect) -> (r: Result<(), QueryRefusal>)
    ensures
        outcome(r) == spec_reject_distinct_group(*select),
{
    if select.clauses.distinct {
        return Err(outside("DISTINCT"));
    }
    if select.clauses.having {
        return Err(outside("HAVING"));
    }
    if grouped(&select.group_by) {
        return Err(outside("GROUP BY"));
    }
    Ok(())
}

pub open spec fn spec_reject_positioning(select: SqlSelect) -> Result<(), SpecRefusal> {
    if select.clauses.top {
        refuse("TOP"@)
    } else if select.clauses.into {
        refuse("SELECT INTO"@)
    } else if select.clauses.prewhere {
        refuse("PREWHERE"@)
    } else {
        Ok(())
    }
}

/// Refuses TOP, SELECT INTO and PREWHERE.
pub fn reject_positioning(select: &SqlSelect) -> (r: Result<(), QueryRefusal>)
    ensures
        outcome(r) == spec_reject_positioning(*select),
{
    if select.clauses.top {
        return Err(outside("TOP"));
    }
    if select.clauses.into {
        return Err(outside("SELECT INTO"));
    }
    if select.clauses.prewhere {
        return Err(outside("PREWHERE"));
    }
    Ok(())
}

pub open spec fn spec_reject_clustering(select: SqlSelect) -> Result<(), SpecRefusal> {
    if select.clauses.cluster_by || select.clauses.distribute_by {
        refuse("CLUSTER BY"@)
    } else if select.clauses.sort_by {
        refuse("SORT BY"@)
    } else if select.clauses.lateral_views {
        refuse("LATERAL VIEW"@)
    } else {
        Ok(())
    }
}

/// Refuses CLUSTER BY, DISTRIBUTE BY, SORT BY and LATERAL VIEW.
pub fn reject_clustering(select: &SqlSelect) -> (r: Result<(), QueryRefusal>)
    ensures
        outcome(r) == spec_reject_clustering(*select),
{
    if select.clauses.cluster_by || select.clauses.distribute_by {
        return Err(outside("CLUSTER BY"));
    }
    if select.clauses.sort_by {
        return Err(outside("SORT BY"));
    }
    if select.clauses.lateral_views {
        return Err(outside("LATERAL VIEW"));
    }
    Ok(())
}

pub open spec fn spec_reject_windowing(select: SqlSelect) -> Result<(), SpecRefusal> {
    if select.clauses.named_window {
        refuse("WINDOW"@)
    } else if select.clauses.qualify {
        refuse("QUALIFY"@)
    } else if select.clauses.connect_by || select.clauses.value_table_mode {
        refuse("CONNECT BY"@)
    } else {
        Ok(())
    }
}

/// Refuses WINDOW, QUALIFY, CONNECT BY and value-table modes.
pub fn reject_windowing(select: &SqlSelect) -> (r: Result<(), QueryRefusal>)
    ensures
        outcome(r) == spec_reject_windowing(*select),
{
    if select.clauses.named_window {
        return Err(outside("WINDOW"));
    }
    if select.clauses.qualify {
        return Err(outside("QUALIFY"));
    }
    if select.clauses.connect_by || select.clauses.value_table_mode {
        return Err(outside("CONNECT BY"));
    }
    Ok(())
}

pub open spec fn spec_reject_options(select: SqlSelect) -> Result<(), SpecRefusal> {
    match spec_reject_distinct_group(select) {
        Err(e) => Err(e),
        Ok(_) => match spec_reject_positioning(select) {
            Err(e) => Err(e),
            Ok(_) => match spec_reject_clustering(select) {
                Err(e) => Err(e),
                Ok(_) => spec_reject_windowing(select),
            },
        },
    }
}

/// Refuses every SELECT clause outside the subset.
pub fn reject_options(select: &SqlSelect) -> (r: Result<(), QueryRefusal>)
    ensures
        outcome(r) == spec_reject_options(*select),
{
    reject_distinct_group(select)?;
    reject_positioning(select)?;
    reject_clustering(select)?;
    reject_windowing(select)
}

pub open spec fn spec_reject_ctes(query: SqlQuery) -> Result<(), SpecRefusal> {
    if query.clauses.with {
        refuse("WITH"@)
    } else {
        Ok(())
    }
}

/// Refuses common table expressions.
pub fn reject_ctes(query: &SqlQuery) -> (r: Result<(), QueryRefusal>)
    ensures
        outcome(r) == spec_reject_ctes(*query),
{
    if query.clauses.with {
        return Err(outside("WITH"));
    }
    Ok(())
}

pub open spec fn spec_reject_paging(query: SqlQuery) -> Result<(), SpecRefusal> {
    if query.clauses.limit || query.clauses.limit_by {
        refuse("LIMIT"@)
    } else if query.clauses.offset {
        refuse("OFFSET"@)
    } else if query.clauses.fetch {
        refuse("FETCH"@)
    } else {
        Ok(())
    }
}

/// Refuses LIMIT, OFFSET and FETCH.
pub fn reject_paging(query: &SqlQuery) -> (r: Result<(), QueryRefusal>)
    ensures
        outcome(r) == spec_reject_paging(*query),
{
    if query.clauses.limit || query.clauses.limit_by {
        return Err(outside("LIMIT"));
    }
    if query.clauses.offset {
        return Err(outside("OFFSET"));
    }
    if query.clauses.fetch {
        return Err(outside("FETCH"));
    }
    Ok(())
}

pub open spec fn spec_reject_locks(query: SqlQuery) -> Result<(), SpecRefusal> {
    if query.clauses.locks || query.clauses.for_clause {
        refuse("FOR UPDATE"@)
    } else if query.clauses.settings || query.clauses.format_clause {
        refuse("SETTINGS"@)
    } else {
        Ok(())
    }
}

/// Refuses locking clauses, FOR clauses, SETTINGS and FORMAT.
pub fn reject_locks(query: &SqlQuery) -> (r: Result<(), QueryRefusal>)
    ensures
        outcome(r) == spec_reject_locks(*query),
{
    if query.clauses.locks || query.clauses.for_clause {
        return Err(outside("FOR UPDATE"));
    }
    if query.clauses.settings || query.clauses.format_clause {
        return Err(outside("SETTINGS"));
    }
    Ok(())
}

pub open spec fn spec_reject_query_tail(query: SqlQuery) -> Result<(), SpecRefusal> {
    match spec_reject_ctes(query) {
        Err(e) => Err(e),
        Ok(_) => match spec_reject_paging(query) {
            Err(e) => Err(e),
            Ok(_) => spec_reject_locks(query),
        },
    }
}

/// Refuses every clause around a query body outside the subset.
pub fn reject_query_tail(query: &SqlQuery) -> (r: Result<(), QueryRefusal>)
    ensures
        outcome(r) == spec_reject_query_tail(*query),
{
    reject_ctes(query)?;
    reject_paging(query)?;
    reject_locks(query)
}

pub open spec fn spec_reject_order(query: SqlQuery) -> Result<(), SpecRefusal> {
    match query.order_by {
        Some(_) => refuse("ORDER BY"@),
        None => Ok(()),
    }
}

/// Refuses an ORDER BY.
pub fn reject_order(query: &SqlQuery) -> (r: Result<(), QueryRefusal>)
    ensures
        outcome(r) == spec_reject_order(*query),
{
    match query.order_by {
        Some(_) => Err(outside("ORDER BY")),
        None => Ok(()),
    }
}

pub open spec fn spec_body_label(body: SqlSetExpr) -> Seq<char> {
    match body {
        SqlSetExpr::Select(_) => "SELECT"@,
        SqlSetExpr::Query(_) => "parenthesized query"@,
        SqlSetExpr::SetOperation(SqlSetOperator::Union) => "UNION"@,
        SqlSetExpr::SetOperation(SqlSetOperator::Except) => "EXCEPT"@,
        SqlSetExpr::SetOperation(SqlSetOperator::Intersect) => "INTERSECT"@,
        SqlSetExpr::SetOperation(SqlSetOperator::Minus) => "MINUS"@,
        SqlSetExpr::Values(_) => "VALUES"@,
        SqlSetExpr::Insert => "INSERT"@,
        SqlSetExpr::Update => "UPDATE"@,
        SqlSetExpr::Table => "TABLE"@,
    }
}

/// The name of a kind of query body, as a refusal shows it.
pub fn body_label(body: &SqlSetExpr) -> (r: &'static str)
    ensures
        r@ == spec_body_label(*body),
{
    match body {
        SqlSetExpr::Select(_) => "SELECT",
        SqlSetExpr::Query(_) => "parenthesized query",
        SqlSetExpr::SetOperation(SqlSetOperator::Union) => "UNION",
        SqlSetExpr::SetOperation(SqlSetOperator::Except) => "EXCEPT",
        SqlSetExpr::SetOperation(SqlSetOperator::Intersect) => "INTERSECT",
        SqlSetExpr::SetOperation(SqlSetOperator::Minus) => "MINUS",
        SqlSetExpr::Values(_) => "VALUES",
        SqlSetExpr::Insert => "INSERT",
        SqlSetExpr::Update => "UPDATE",
        SqlSetExpr::Table => "TABLE",
    }
}

pub open spec fn spec_select_of(body: SqlSetExpr) -> Result<SqlSelect, SpecRefusal> {
    match body {
        SqlSetExpr::Select(select) => Ok(*select),
        other => refuse(spec_body_label(other)),
    }
}

/// The SELECT of a query body, which must be a plain SELECT.
pub fn select_of(body: SqlSetExpr) -> (r: Result<Box<SqlSelect>, QueryRefusal>)
    ensures
        match r {
            Ok(s) => spec_select_of(body) == Ok::<SqlSelect, SpecRefusal>(*s),
            Err(e) => spec_select_of(body) == Err::<SqlSelect, SpecRefusal>(e@),
        },
{
    match body {
        SqlSetExpr::Select(select) => Ok(select),
        other => Err(outside(body_label(&other))),
    }
}

pub open spec fn spec_lower_select(select: SqlSelect, order_by: Option<SqlOrderBy>) -> Result<SpecSelectQuery, SpecRefusal> {
    match spec_reject_options(select) {
        Err(e) => Err(e),
        Ok(_) => match spec_single_from(select.from@) {
            Err(e) => Err(e),
            Ok(from) => match spec_table_name(from.relation) {
                Err(e) => Err(e),
                Ok(name) => match spec_lower_join(from.joins@, name) {
                    Err(e) => Err(e),
                    Ok(join) => {
                        let has_join = join is Some;
                        match spec_lower_projection(select.projection@, has_join) {
                            Err(e) => Err(e),
                            Ok(items) => match spec_lower_selection(select.selection, has_join) {
                                Err(e) => Err(e),
                                Ok(filter) => match spec_lower_order(order_by, items, has_join) {
                                    Err(e) => Err(e),
                                    Ok(order) => Ok(SpecSelectQuery { items, from: name, join, filter, order }),
                                },
                            },
                        }
                    },
                },
            },
        },
    }
}

/// A SELECT over one table, with at most one join, a WHERE and an ORDER BY.
pub fn lower_select(select: &SqlSelect, order_by: &Option<SqlOrderBy>) -> (r: Result<SelectQuery, QueryRefusal>)
    ensures
        outcome(r) == spec_lower_select(*select, *order_by),
{
    reject_options(select)?;
    let from = single_from(select.from.as_slice())?;
    let name = table_name(&from.relation)?;
    let join = lower_join(from.joins.as_slice(), &name)?;
    let has_join = join.is_some();
    let items = lower_projection(select.projection.as_slice(), has_join)?;
    let filter = lower_selection(&select.selection, has_join)?;
    let order = lower_order(order_by, &items, has_join)?;
    Ok(SelectQuery { items, from: name, join, filter, order })
}

pub open spec fn spec_lower_query(query: SqlQuery) -> Result<SpecSelectQuery, SpecRefusal> {
    match spec_reject_query_tail(query) {
        Err(e) => Err(e),
        Ok(_) => match spec_select_of(*query.body) {
            Err(e) => Err(e),
            Ok(select) => spec_lower_select(select, query.order_by),
        },
    }
}

/// A query whose body is a SELECT.
pub fn lower_query(query: Box<SqlQuery>) -> (r: Result<SelectQuery, QueryRefusal>)
    ensures
        outcome(r) == spec_lower_query(*query),
{
    reject_query_tail(&query)?;
    let SqlQuery { body, order_by, .. } = *query;
    let select = select_of(*body)?;
    lower_select(&select, &order_by)
}

} // verus!
