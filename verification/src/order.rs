//! ORDER BY: keys over columns, ascending or descending.

use vstd::prelude::*;
use crate::filter::{column_ref_of, spec_column_ref_of};
use crate::query::{ColumnRef, Direction, Items, OrderKey, SpecColumnRef, SpecItems, SpecOrderKey};
use crate::refusal::{
    collect_all, lemma_collect_refused, lemma_collect_step, outside, outcome, refuse, QueryRefusal,
    SpecRefusal,
};
use crate::syntax::{SqlExpr, SqlOrderBy, SqlOrderByExpr, SqlValue};

verus! {

pub open spec fn spec_reject_nulls(expr: SqlOrderByExpr) -> Result<(), SpecRefusal> {
    match expr.nulls_first {
        Some(true) => refuse("NULLS FIRST"@),
        Some(false) => refuse("NULLS LAST"@),
        None => Ok(()),
    }
}

/// Refuses `NULLS FIRST` and `NULLS LAST`.
pub fn reject_nulls(expr: &SqlOrderByExpr) -> (r: Result<(), QueryRefusal>)
    ensures
        outcome(r) == spec_reject_nulls(*expr),
{
    match expr.nulls_first {
        Some(true) => Err(outside("NULLS FIRST")),
        Some(false) => Err(outside("NULLS LAST")),
        None => Ok(()),
    }
}

pub open spec fn spec_direction_of(asc: Option<bool>) -> Direction {
    match asc {
        Some(false) => Direction::Descending,
        _ => Direction::Ascending,
    }
}

/// The direction of a key: descending only where `DESC` is written.
pub fn direction_of(asc: Option<bool>) -> (r: Direction)
    ensures
        r == spec_direction_of(asc),
{
    match asc {
        Some(false) => Direction::Descending,
        _ => Direction::Ascending,
    }
}

pub open spec fn spec_order_column(expr: SqlExpr, has_join: bool) -> Result<SpecColumnRef, SpecRefusal> {
    match expr {
        SqlExpr::Identifier(_) => spec_column_ref_of(expr, has_join),
        SqlExpr::CompoundIdentifier(_) => spec_column_ref_of(expr, has_join),
        SqlExpr::Value(SqlValue::Number(..)) => refuse("ORDER BY position"@),
        _ => refuse("ORDER BY expression"@),
    }
}

/// The column of an ORDER BY key.
pub fn order_column(expr: &SqlExpr, has_join: bool) -> (r: Result<ColumnRef, QueryRefusal>)
    ensures
        outcome(r) == spec_order_column(*expr, has_join),
{
    match expr {
        SqlExpr::Identifier(_) | SqlExpr::CompoundIdentifier(_) => column_ref_of(expr, has_join),
        SqlExpr::Value(SqlValue::Number(..)) => Err(outside("ORDER BY position")),
        _ => Err(outside("ORDER BY expression")),
    }
}

pub open spec fn spec_lower_order_key(expr: SqlOrderByExpr, has_join: bool) -> Result<SpecOrderKey, SpecRefusal> {
    match spec_reject_nulls(expr) {
        Err(e) => Err(e),
        Ok(_) => match spec_order_column(expr.expr, has_join) {
            Err(e) => Err(e),
            Ok(column) => Ok(SpecOrderKey { column, direction: spec_direction_of(expr.asc) }),
        },
    }
}

/// One ORDER BY key.
pub fn lower_order_key(expr: &SqlOrderByExpr, has_join: bool) -> (r: Result<OrderKey, QueryRefusal>)
    ensures
        outcome(r) == spec_lower_order_key(*expr, has_join),
{
    reject_nulls(expr)?;
    let column = order_column(&expr.expr, has_join)?;
    Ok(OrderKey { column, direction: direction_of(expr.asc) })
}

pub open spec fn order_key_step(has_join: bool) -> spec_fn(SqlOrderByExpr) -> Result<SpecOrderKey, SpecRefusal> {
    |e: SqlOrderByExpr| spec_lower_order_key(e, has_join)
}

pub open spec fn spec_lower_order(order_by: Option<SqlOrderBy>, items: SpecItems, has_join: bool) -> Result<Seq<SpecOrderKey>, SpecRefusal> {
    match order_by {
        None => Ok(Seq::empty()),
        Some(order_by) => if items is Aggregates {
            refuse("ORDER BY with an aggregate"@)
        } else {
            collect_all(order_by.exprs@, order_key_step(has_join))
        },
    }
}

pub open spec fn keys_outcome(r: Result<Vec<OrderKey>, QueryRefusal>) -> Result<Seq<SpecOrderKey>, SpecRefusal> {
    match r {
        Ok(keys) => Ok(keys@.map_values(|k: OrderKey| k@)),
        Err(e) => Err(e@),
    }
}

/// The keys of an optional ORDER BY, which a query of aggregates cannot have.
pub fn lower_order(order_by: &Option<SqlOrderBy>, items: &Items, has_join: bool) -> (r: Result<Vec<OrderKey>, QueryRefusal>)
    ensures
        keys_outcome(r) == spec_lower_order(*order_by, items@, has_join),
{
    let clause = match order_by {
        Some(o) => o,
        None => {
            let keys: Vec<OrderKey> = Vec::new();
            assert(keys@.map_values(|k: OrderKey| k@) =~= Seq::<SpecOrderKey>::empty());
            return Ok(keys);
        },
    };
    if let Items::Aggregates(_) = items {
        return Err(outside("ORDER BY with an aggregate"));
    }
    let ghost f = order_key_step(has_join);
    let ghost exprs = clause.exprs@;
    let mut keys: Vec<OrderKey> = Vec::new();
    let n = clause.exprs.len();
    let mut i: usize = 0;
    assert(exprs.take(0) =~= Seq::<SqlOrderByExpr>::empty());
    assert(keys@.map_values(|k: OrderKey| k@) =~= Seq::<SpecOrderKey>::empty());
    while i < n
        invariant
            n == exprs.len(),
            exprs == clause.exprs@,
            i <= n,
            f == order_key_step(has_join),
            !(items@ is Aggregates),
            *order_by == Some(*clause),
            collect_all(exprs.take(i as int), f) == Ok::<Seq<SpecOrderKey>, SpecRefusal>(keys@.map_values(|k: OrderKey| k@)),
        decreases n - i,
    {
        let ghost before = keys@;
        proof {
            lemma_collect_step(exprs, f, i as int);
        }
        let key = match lower_order_key(&clause.exprs[i], has_join) {
            Ok(k) => k,
            Err(e) => {
                proof {
                    assert(f(exprs[i as int]) == spec_lower_order_key(exprs[i as int], has_join));
                    assert(collect_all(exprs.take(i + 1), f) is Err);
                    lemma_collect_refused(exprs, f, i + 1);
                }
                return Err(e);
            },
        };
        keys.push(key);
        assert(keys@.map_values(|k: OrderKey| k@) =~= before.map_values(|k: OrderKey| k@).push(key@));
        i = i + 1;
    }
    assert(exprs.take(n as int) =~= exprs);
    Ok(keys)
}

} // verus!
