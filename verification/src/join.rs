//! Joins: at most one inner join, on one column equality.

use vstd::prelude::*;
use crate::filter::{column_ref_of, spec_column_ref_of};
use crate::names::{spec_table_name, table_name};
use crate::query::{opt_join, ColumnRef, Join, SpecColumnRef, SpecJoin};
use crate::refusal::{outside, outcome, refuse, QueryRefusal, SpecRefusal};
use crate::syntax::{SqlBinaryOperator, SqlExpr, SqlJoinConstraint, SqlJoinOperator, SqlJoin};

verus! {

pub open spec fn spec_join_label(operator: SqlJoinOperator) -> Seq<char> {
    match operator {
        SqlJoinOperator::Inner(_) => "JOIN"@,
        SqlJoinOperator::LeftOuter => "LEFT JOIN"@,
        SqlJoinOperator::RightOuter => "RIGHT JOIN"@,
        SqlJoinOperator::FullOuter => "FULL JOIN"@,
        SqlJoinOperator::CrossJoin => "CROSS JOIN"@,
        SqlJoinOperator::Semi => "SEMI JOIN"@,
        SqlJoinOperator::LeftSemi => "LEFT SEMI JOIN"@,
        SqlJoinOperator::RightSemi => "RIGHT SEMI JOIN"@,
        SqlJoinOperator::Anti => "ANTI JOIN"@,
        SqlJoinOperator::LeftAnti => "LEFT ANTI JOIN"@,
        SqlJoinOperator::RightAnti => "RIGHT ANTI JOIN"@,
        SqlJoinOperator::CrossApply => "CROSS APPLY"@,
        SqlJoinOperator::OuterApply => "OUTER APPLY"@,
        SqlJoinOperator::AsOf => "ASOF JOIN"@,
    }
}

/// The name of a kind of join, as a refusal shows it.
pub fn join_label(operator: &SqlJoinOperator) -> (r: &'static str)
    ensures
        r@ == spec_join_label(*operator),
{
    match operator {
        SqlJoinOperator::Inner(_) => "JOIN",
        SqlJoinOperator::LeftOuter => "LEFT JOIN",
        SqlJoinOperator::RightOuter => "RIGHT JOIN",
        SqlJoinOperator::FullOuter => "FULL JOIN",
        SqlJoinOperator::CrossJoin => "CROSS JOIN",
        SqlJoinOperator::Semi => "SEMI JOIN",
        SqlJoinOperator::LeftSemi => "LEFT SEMI JOIN",
        SqlJoinOperator::RightSemi => "RIGHT SEMI JOIN",
        SqlJoinOperator::Anti => "ANTI JOIN",
        SqlJoinOperator::LeftAnti => "LEFT ANTI JOIN",
        SqlJoinOperator::RightAnti => "RIGHT ANTI JOIN",
        SqlJoinOperator::CrossApply => "CROSS APPLY",
        SqlJoinOperator::OuterApply => "OUTER APPLY",
        SqlJoinOperator::AsOf => "ASOF JOIN",
    }
}

pub open spec fn spec_join_on(operator: SqlJoinOperator) -> Result<SqlExpr, SpecRefusal> {
    match operator {
        SqlJoinOperator::Inner(SqlJoinConstraint::On(expr)) => Ok(expr),
        SqlJoinOperator::Inner(SqlJoinConstraint::Using) => refuse("JOIN USING"@),
        SqlJoinOperator::Inner(SqlJoinConstraint::Natural) => refuse("NATURAL JOIN"@),
        SqlJoinOperator::Inner(SqlJoinConstraint::Absent) => refuse("JOIN without ON"@),
        other => refuse(spec_join_label(other)),
    }
}

/// The ON condition of an inner join.
pub fn join_on(operator: &SqlJoinOperator) -> (r: Result<&SqlExpr, QueryRefusal>)
    ensures
        match r {
            Ok(e) => spec_join_on(*operator) == Ok::<SqlExpr, SpecRefusal>(*e),
            Err(e) => spec_join_on(*operator) == Err::<SqlExpr, SpecRefusal>(e@),
        },
{
    match operator {
        SqlJoinOperator::Inner(SqlJoinConstraint::On(expr)) => Ok(expr),
        SqlJoinOperator::Inner(SqlJoinConstraint::Using) => Err(outside("JOIN USING")),
        SqlJoinOperator::Inner(SqlJoinConstraint::Natural) => Err(outside("NATURAL JOIN")),
        SqlJoinOperator::Inner(SqlJoinConstraint::Absent) => Err(outside("JOIN without ON")),
        other => Err(outside(join_label(other))),
    }
}

pub open spec fn spec_on_sides(left: SqlExpr, right: SqlExpr) -> Result<(SpecColumnRef, SpecColumnRef), SpecRefusal> {
    match spec_column_ref_of(left, true) {
        Err(e) => Err(e),
        Ok(l) => match spec_column_ref_of(right, true) {
            Err(e) => Err(e),
            Ok(r) => Ok((l, r)),
        },
    }
}

/// The two qualified columns of a join equality.
pub fn on_sides(left: &SqlExpr, right: &SqlExpr) -> (r: Result<(ColumnRef, ColumnRef), QueryRefusal>)
    ensures
        outcome(r) == spec_on_sides(*left, *right),
{
    Ok((column_ref_of(left, true)?, column_ref_of(right, true)?))
}

pub open spec fn spec_lower_on(expr: SqlExpr) -> Result<(SpecColumnRef, SpecColumnRef), SpecRefusal> {
    match expr {
        SqlExpr::BinaryOp { left, op: SqlBinaryOperator::Eq, right } => spec_on_sides(*left, *right),
        _ => refuse("this JOIN condition"@),
    }
}

/// The columns of an ON condition, which must be one equality.
pub fn lower_on(expr: &SqlExpr) -> (r: Result<(ColumnRef, ColumnRef), QueryRefusal>)
    ensures
        outcome(r) == spec_lower_on(*expr),
{
    match expr {
        SqlExpr::BinaryOp { left, op: SqlBinaryOperator::Eq, right } => on_sides(left, right),
        _ => Err(outside("this JOIN condition")),
    }
}

pub open spec fn spec_one_join(join: SqlJoin, from_name: Seq<char>) -> Result<SpecJoin, SpecRefusal> {
    match spec_table_name(join.relation) {
        Err(e) => Err(e),
        Ok(table) => if table == from_name {
            refuse("self join"@)
        } else {
            match spec_join_on(join.join_operator) {
                Err(e) => Err(e),
                Ok(condition) => match spec_lower_on(condition) {
                    Err(e) => Err(e),
                    Ok((left, right)) => Ok(SpecJoin { table, left, right }),
                },
            }
        },
    }
}

/// An inner join with a table other than the one it joins.
pub fn one_join(join: &SqlJoin, from_name: &String) -> (r: Result<Join, QueryRefusal>)
    ensures
        outcome(r) == spec_one_join(*join, from_name@),
{
    let table = table_name(&join.relation)?;
    if table == *from_name {
        return Err(outside("self join"));
    }
    let condition = join_on(&join.join_operator)?;
    let (left, right) = lower_on(condition)?;
    Ok(Join { table, left, right })
}

pub open spec fn spec_lower_join(joins: Seq<SqlJoin>, from_name: Seq<char>) -> Result<Option<SpecJoin>, SpecRefusal> {
    if joins.len() == 0 {
        Ok(None)
    } else if joins.len() > 1 {
        refuse("multiple joins"@)
    } else {
        match spec_one_join(joins[0], from_name) {
            Err(e) => Err(e),
            Ok(j) => Ok(Some(j)),
        }
    }
}

pub open spec fn join_outcome(r: Result<Option<Join>, QueryRefusal>) -> Result<Option<SpecJoin>, SpecRefusal> {
    match r {
        Ok(j) => Ok(opt_join(j)),
        Err(e) => Err(e@),
    }
}

/// The join of a FROM item: none, or one inner join.
pub fn lower_join(joins: &[SqlJoin], from_name: &String) -> (r: Result<Option<Join>, QueryRefusal>)
    ensures
        join_outcome(r) == spec_lower_join(joins@, from_name@),
{
    if joins.len() == 0 {
        return Ok(None);
    }
    if joins.len() > 1 {
        return Err(outside("multiple joins"));
    }
    match one_join(&joins[0], from_name) {
        Ok(j) => Ok(Some(j)),
        Err(e) => Err(e),
    }
}

} // verus!
