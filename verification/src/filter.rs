//! WHERE clauses: conditions on columns, combined with AND and OR.
//!
//! A condition is lowered with an explicit stack of tasks, so that deep
//! chains of AND and OR do not deepen the call stack. What the stack machine
//! computes is [`spec_filter`], the plain recursive reading of the condition.

use vstd::prelude::*;
use crate::literal::{literal_of, spec_literal_of};
use crate::names::ident_name;
use crate::query::{ColumnRef, Comparison, Filter, SpecColumnRef, SpecFilter};
use crate::refusal::{invalid, outside, outcome, refuse, QueryRefusal, SpecRefusal};
use crate::syntax::{SqlBinaryOperator, SqlExpr};

verus! {

pub open spec fn spec_column_ref_of(expr: SqlExpr, has_join: bool) -> Result<SpecColumnRef, SpecRefusal> {
    match expr {
        SqlExpr::Identifier(ident) => {
            if has_join {
                refuse("unqualified column in a join"@)
            } else {
                Ok(SpecColumnRef { table: None, column: ident.value@ })
            }
        },
        SqlExpr::CompoundIdentifier(parts) => {
            if parts.len() == 2 {
                Ok(SpecColumnRef { table: Some(parts[0].value@), column: parts[1].value@ })
            } else {
                refuse("this column reference"@)
            }
        },
        _ => refuse("this column reference"@),
    }
}

/// The column that an expression names: `column`, or `table.column`.
/// With a join, the column must name its table.
pub fn column_ref_of(expr: &SqlExpr, has_join: bool) -> (r: Result<ColumnRef, QueryRefusal>)
    ensures
        outcome(r) == spec_column_ref_of(*expr, has_join),
{
    match expr {
        SqlExpr::Identifier(ident) => {
            if has_join {
                return Err(outside("unqualified column in a join"));
            }
            Ok(ColumnRef { table: None, column: ident_name(ident) })
        },
        SqlExpr::CompoundIdentifier(parts) => {
            if parts.len() != 2 {
                return Err(outside("this column reference"));
            }
            Ok(ColumnRef { table: Some(ident_name(&parts[0])), column: ident_name(&parts[1]) })
        },
        _ => Err(outside("this column reference")),
    }
}

pub open spec fn spec_comparison(op: SqlBinaryOperator) -> Option<Comparison> {
    match op {
        SqlBinaryOperator::Eq => Some(Comparison::Equal),
        SqlBinaryOperator::NotEq => Some(Comparison::NotEqual),
        SqlBinaryOperator::Lt => Some(Comparison::Less),
        SqlBinaryOperator::LtEq => Some(Comparison::LessOrEqual),
        SqlBinaryOperator::Gt => Some(Comparison::Greater),
        SqlBinaryOperator::GtEq => Some(Comparison::GreaterOrEqual),
        _ => None,
    }
}

/// The comparison that an operator stands for, if it is one.
pub fn comparison_of(op: &SqlBinaryOperator) -> (r: Option<Comparison>)
    ensures
        r == spec_comparison(*op),
{
    match op {
        SqlBinaryOperator::Eq => Some(Comparison::Equal),
        SqlBinaryOperator::NotEq => Some(Comparison::NotEqual),
        SqlBinaryOperator::Lt => Some(Comparison::Less),
        SqlBinaryOperator::LtEq => Some(Comparison::LessOrEqual),
        SqlBinaryOperator::Gt => Some(Comparison::Greater),
        SqlBinaryOperator::GtEq => Some(Comparison::GreaterOrEqual),
        _ => None,
    }
}

pub open spec fn spec_compare_leaf(left: SqlExpr, op: SqlBinaryOperator, right: SqlExpr, has_join: bool) -> Result<SpecFilter, SpecRefusal> {
    match spec_column_ref_of(left, has_join) {
        Err(e) => Err(e),
        Ok(column) => match spec_comparison(op) {
            None => refuse("this comparison"@),
            Some(comparison) => match spec_literal_of(right) {
                Err(e) => Err(e),
                Ok(value) => Ok(SpecFilter::Compare { column, comparison, value }),
            },
        },
    }
}

/// A comparison of a column (on the left) with a literal (on the right).
pub fn compare_leaf(left: &SqlExpr, op: &SqlBinaryOperator, right: &SqlExpr, has_join: bool) -> (r: Result<Filter, QueryRefusal>)
    ensures
        outcome(r) == spec_compare_leaf(*left, *op, *right, has_join),
{
    let column = column_ref_of(left, has_join)?;
    let comparison = match comparison_of(op) {
        Some(c) => c,
        None => return Err(outside("this comparison")),
    };
    let value = literal_of(right)?;
    Ok(Filter::Compare { column, comparison, value })
}

pub open spec fn spec_lower_leaf(expr: SqlExpr, has_join: bool) -> Result<SpecFilter, SpecRefusal> {
    match expr {
        SqlExpr::IsNull(inner) => match spec_column_ref_of(*inner, has_join) {
            Ok(c) => Ok(SpecFilter::IsNull(c)),
            Err(e) => Err(e),
        },
        SqlExpr::IsNotNull(inner) => match spec_column_ref_of(*inner, has_join) {
            Ok(c) => Ok(SpecFilter::IsNotNull(c)),
            Err(e) => Err(e),
        },
        SqlExpr::BinaryOp { left, op, right } => spec_compare_leaf(*left, op, *right, has_join),
        _ => refuse("this condition"@),
    }
}

/// A condition that is neither AND nor OR.
pub fn lower_leaf(expr: &SqlExpr, has_join: bool) -> (r: Result<Filter, QueryRefusal>)
    ensures
        outcome(r) == spec_lower_leaf(*expr, has_join),
{
    match expr {
        SqlExpr::IsNull(inner) => Ok(Filter::IsNull(column_ref_of(inner, has_join)?)),
        SqlExpr::IsNotNull(inner) => Ok(Filter::IsNotNull(column_ref_of(inner, has_join)?)),
        SqlExpr::BinaryOp { left, op, right } => compare_leaf(left, op, right, has_join),
        _ => Err(outside("this condition")),
    }
}

pub open spec fn spec_joined(is_and: bool, left: SpecFilter, right: SpecFilter) -> SpecFilter {
    if is_and {
        SpecFilter::And(Box::new(left), Box::new(right))
    } else {
        SpecFilter::Or(Box::new(left), Box::new(right))
    }
}

/// `left AND right`, or `left OR right`.
pub fn joined_filter(is_and: bool, left: Filter, right: Filter) -> (r: Filter)
    ensures
        r@ == spec_joined(is_and, left@, right@),
        is_and ==> r@ == SpecFilter::And(Box::new(left@), Box::new(right@)),
        !is_and ==> r@ == SpecFilter::Or(Box::new(left@), Box::new(right@)),
{
    if is_and {
        return Filter::And(Box::new(left), Box::new(right));
    }
    Filter::Or(Box::new(left), Box::new(right))
}

/// What a condition lowers to, read recursively: AND and OR combine the
/// lowered sides (the left side first), parentheses are transparent, and
/// anything else is a single condition.
pub open spec fn spec_filter(expr: SqlExpr, has_join: bool) -> Result<SpecFilter, SpecRefusal>
    decreases expr,
{
    match expr {
        SqlExpr::BinaryOp { left, op: SqlBinaryOperator::And, right } => match spec_filter(*left, has_join) {
            Err(e) => Err(e),
            Ok(l) => match spec_filter(*right, has_join) {
                Err(e) => Err(e),
                Ok(r) => Ok(spec_joined(true, l, r)),
            },
        },
        SqlExpr::BinaryOp { left, op: SqlBinaryOperator::Or, right } => match spec_filter(*left, has_join) {
            Err(e) => Err(e),
            Ok(l) => match spec_filter(*right, has_join) {
                Err(e) => Err(e),
                Ok(r) => Ok(spec_joined(false, l, r)),
            },
        },
        SqlExpr::Nested(inner) => spec_filter(*inner, has_join),
        _ => spec_lower_leaf(expr, has_join),
    }
}

/// One pending piece of work of the filter lowering.
pub enum Task<'e> {
    /// Lower this condition and push its filter on the output.
    Visit(&'e SqlExpr),
    /// Replace the two topmost filters of the output by their AND.
    CombineAnd,
    /// Replace the two topmost filters of the output by their OR.
    CombineOr,
}

pub enum SpecTask {
    Visit(SqlExpr),
    CombineAnd,
    CombineOr,
}

impl<'e> View for Task<'e> {
    type V = SpecTask;

    open spec fn view(&self) -> SpecTask {
        match self {
            Task::Visit(e) => SpecTask::Visit(**e),
            Task::CombineAnd => SpecTask::CombineAnd,
            Task::CombineOr => SpecTask::CombineOr,
        }
    }
}

pub open spec fn tasks_view<'e>(tasks: Seq<Task<'e>>) -> Seq<SpecTask> {
    tasks.map_values(|t: Task<'e>| t@)
}

pub open spec fn filters_view(filters: Seq<Filter>) -> Seq<SpecFilter> {
    filters.map_values(|f: Filter| f@)
}

/// The output after combining its two topmost filters, if it has two.
pub open spec fn spec_combined(out: Seq<SpecFilter>, is_and: bool) -> Option<Seq<SpecFilter>> {
    if out.len() >= 2 {
        Some(out.take(out.len() - 2).push(spec_joined(is_and, out[out.len() - 2], out[out.len() - 1])))
    } else {
        None
    }
}

pub open spec fn unbalanced() -> SpecRefusal {
    SpecRefusal::Invalid("unbalanced filter"@)
}

/// What is left to compute: the output that running `tasks` (the last one
/// first) on `out` ends with.
pub open spec fn finish(tasks: Seq<SpecTask>, out: Seq<SpecFilter>, has_join: bool) -> Result<Seq<SpecFilter>, SpecRefusal>
    decreases tasks.len(),
{
    if tasks.len() == 0 {
        Ok(out)
    } else {
        let rest = tasks.drop_last();
        match tasks.last() {
            SpecTask::Visit(e) => match spec_filter(e, has_join) {
                Err(err) => Err(err),
                Ok(f) => finish(rest, out.push(f), has_join),
            },
            SpecTask::CombineAnd => match spec_combined(out, true) {
                Some(o) => finish(rest, o, has_join),
                None => Err(unbalanced()),
            },
            SpecTask::CombineOr => match spec_combined(out, false) {
                Some(o) => finish(rest, o, has_join),
                None => Err(unbalanced()),
            },
        }
    }
}

/// The state after one task: its effect on the pending tasks and on the output.
pub open spec fn spec_step(task: SpecTask, has_join: bool, tasks: Seq<SpecTask>, out: Seq<SpecFilter>) -> Result<(Seq<SpecTask>, Seq<SpecFilter>), SpecRefusal> {
    match task {
        SpecTask::Visit(expr) => match expr {
            SqlExpr::BinaryOp { left, op: SqlBinaryOperator::And, right } => Ok(
                (tasks.push(SpecTask::CombineAnd).push(SpecTask::Visit(*right)).push(SpecTask::Visit(*left)), out),
            ),
            SqlExpr::BinaryOp { left, op: SqlBinaryOperator::Or, right } => Ok(
                (tasks.push(SpecTask::CombineOr).push(SpecTask::Visit(*right)).push(SpecTask::Visit(*left)), out),
            ),
            SqlExpr::Nested(inner) => Ok((tasks.push(SpecTask::Visit(*inner)), out)),
            _ => match spec_lower_leaf(expr, has_join) {
                Ok(f) => Ok((tasks, out.push(f))),
                Err(e) => Err(e),
            },
        },
        SpecTask::CombineAnd => match spec_combined(out, true) {
            Some(o) => Ok((tasks, o)),
            None => Err(unbalanced()),
        },
        SpecTask::CombineOr => match spec_combined(out, false) {
            Some(o) => Ok((tasks, o)),
            None => Err(unbalanced()),
        },
    }
}

pub open spec fn expr_size(e: SqlExpr) -> nat
    decreases e,
{
    match e {
        SqlExpr::BinaryOp { left, op, right } => 1 + expr_size(*left) + expr_size(*right),
        SqlExpr::Nested(inner) => 1 + expr_size(*inner),
        _ => 1,
    }
}

pub open spec fn task_weight(t: SpecTask) -> nat {
    match t {
        SpecTask::Visit(e) => 2 * expr_size(e),
        _ => 1,
    }
}

/// A bound on the work that the pending tasks still need.
pub open spec fn pending(tasks: Seq<SpecTask>) -> nat
    decreases tasks.len(),
{
    if tasks.len() == 0 {
        0
    } else {
        pending(tasks.drop_last()) + task_weight(tasks.last())
    }
}

proof fn lemma_push<A>(s: Seq<A>, a: A)
    ensures
        s.push(a).drop_last() == s,
        s.push(a).last() == a,
        s.push(a).len() == s.len() + 1,
{
    assert(s.push(a).drop_last() =~= s);
}

proof fn lemma_pending_push(s: Seq<SpecTask>, t: SpecTask)
    ensures
        pending(s.push(t)) == pending(s) + task_weight(t),
{
    lemma_push(s, t);
}

proof fn lemma_finish_push(tasks: Seq<SpecTask>, t: SpecTask, out: Seq<SpecFilter>, has_join: bool)
    ensures
        finish(tasks.push(t), out, has_join) == (match t {
            SpecTask::Visit(e) => match spec_filter(e, has_join) {
                Err(err) => Err(err),
                Ok(f) => finish(tasks, out.push(f), has_join),
            },
            SpecTask::CombineAnd => match spec_combined(out, true) {
                Some(o) => finish(tasks, o, has_join),
                None => Err(unbalanced()),
            },
            SpecTask::CombineOr => match spec_combined(out, false) {
                Some(o) => finish(tasks, o, has_join),
                None => Err(unbalanced()),
            },
        }),
{
    lemma_push(tasks, t);
}

proof fn lemma_combined_pair(out: Seq<SpecFilter>, l: SpecFilter, r: SpecFilter, is_and: bool)
    ensures
        spec_combined(out.push(l).push(r), is_and) == Some(out.push(spec_joined(is_and, l, r))),
{
    let o = out.push(l).push(r);
    assert(o.take(o.len() - 2) =~= out);
    assert(o[o.len() - 2] == l);
    assert(o[o.len() - 1] == r);
}

/// Running one task leaves what is left to compute unchanged, and lowers the pending work.
proof fn lemma_step(task: SpecTask, has_join: bool, tasks: Seq<SpecTask>, out: Seq<SpecFilter>)
    ensures
        match spec_step(task, has_join, tasks, out) {
            Ok((t2, o2)) => finish(t2, o2, has_join) == finish(tasks.push(task), out, has_join)
                && pending(t2) < pending(tasks.push(task)),
            Err(e) => finish(tasks.push(task), out, has_join) == Err::<Seq<SpecFilter>, SpecRefusal>(e),
        },
{
    lemma_finish_push(tasks, task, out, has_join);
    lemma_pending_push(tasks, task);
    match task {
        SpecTask::Visit(expr) => {
            match expr {
                SqlExpr::BinaryOp { left, op: SqlBinaryOperator::And, right } => {
                    lemma_two_sides(tasks, SpecTask::CombineAnd, true, *left, *right, out, has_join);
                },
                SqlExpr::BinaryOp { left, op: SqlBinaryOperator::Or, right } => {
                    lemma_two_sides(tasks, SpecTask::CombineOr, false, *left, *right, out, has_join);
                },
                SqlExpr::Nested(inner) => {
                    lemma_finish_push(tasks, SpecTask::Visit(*inner), out, has_join);
                    lemma_pending_push(tasks, SpecTask::Visit(*inner));
                },
                _ => {},
            }
        },
        _ => {},
    }
}

proof fn lemma_two_sides(
    tasks: Seq<SpecTask>,
    combine: SpecTask,
    is_and: bool,
    left: SqlExpr,
    right: SqlExpr,
    out: Seq<SpecFilter>,
    has_join: bool,
)
    requires
        is_and ==> combine == SpecTask::CombineAnd,
        !is_and ==> combine == SpecTask::CombineOr,
    ensures
        finish(tasks.push(combine).push(SpecTask::Visit(right)).push(SpecTask::Visit(left)), out, has_join)
            == (match spec_filter(left, has_join) {
                Err(e) => Err(e),
                Ok(l) => match spec_filter(right, has_join) {
                    Err(e) => Err(e),
                    Ok(r) => finish(tasks, out.push(spec_joined(is_and, l, r)), has_join),
                },
            }),
        pending(tasks.push(combine).push(SpecTask::Visit(right)).push(SpecTask::Visit(left)))
            == pending(tasks) + 1 + 2 * expr_size(right) + 2 * expr_size(left),
{
    let t1 = tasks.push(combine);
    let t2 = t1.push(SpecTask::Visit(right));
    lemma_finish_push(t2, SpecTask::Visit(left), out, has_join);
    lemma_pending_push(tasks, combine);
    lemma_pending_push(t1, SpecTask::Visit(right));
    lemma_pending_push(t2, SpecTask::Visit(left));
    match spec_filter(left, has_join) {
        Err(e) => {},
        Ok(l) => {
            lemma_finish_push(t1, SpecTask::Visit(right), out.push(l), has_join);
            match spec_filter(right, has_join) {
                Err(e) => {},
                Ok(r) => {
                    lemma_finish_push(tasks, combine, out.push(l).push(r), has_join);
                    lemma_combined_pair(out, l, r, is_and);
                },
            }
        },
    }
}

proof fn lemma_map_push<A, B>(s: Seq<A>, a: A, f: spec_fn(A) -> B)
    ensures
        s.push(a).map_values(f) == s.map_values(f).push(f(a)),
{
    assert(s.push(a).map_values(f) =~= s.map_values(f).push(f(a)));
}

proof fn lemma_map_drop_last<A, B>(s: Seq<A>, f: spec_fn(A) -> B)
    requires
        s.len() > 0,
    ensures
        s.drop_last().map_values(f) == s.map_values(f).drop_last(),
        s.map_values(f).last() == f(s.last()),
{
    assert(s.drop_last().map_values(f) =~= s.map_values(f).drop_last());
}

/// Pushes a task that combines the two sides, then the right side, then the left side,
/// so that the left side runs first.
pub fn push_tree<'e>(
    tasks: &mut Vec<Task<'e>>,
    combine: Task<'e>,
    left: &'e SqlExpr,
    right: &'e SqlExpr,
) -> (r: Result<(), QueryRefusal>)
    ensures
        r is Ok,
        final(tasks)@ == old(tasks)@.push(combine).push(Task::Visit(right)).push(Task::Visit(left)),
{
    tasks.push(combine);
    tasks.push(Task::Visit(right));
    tasks.push(Task::Visit(left));
    Ok(())
}

/// Pushes the filter of a single condition on the output.
pub fn push_leaf(output: &mut Vec<Filter>, expr: &SqlExpr, has_join: bool) -> (r: Result<(), QueryRefusal>)
    ensures
        match spec_lower_leaf(*expr, has_join) {
            Ok(f) => r is Ok && filters_view(final(output)@) == filters_view(old(output)@).push(f),
            Err(e) => r matches Err(x) && x@ == e && final(output)@ == old(output)@,
        },
        r is Ok ==> final(output)@.len() == old(output)@.len() + 1 && final(output)@.drop_last() == old(output)@,
{
    let leaf = lower_leaf(expr, has_join)?;
    output.push(leaf);
    proof {
        lemma_map_push(old(output)@, leaf, |f: Filter| f@);
    }
    Ok(())
}

/// Runs a `Visit` task: AND and OR push their sides, parentheses push their
/// content, and any other condition pushes its filter on the output.
pub fn visit_filter<'e>(
    expr: &'e SqlExpr,
    has_join: bool,
    tasks: &mut Vec<Task<'e>>,
    output: &mut Vec<Filter>,
) -> (r: Result<(), QueryRefusal>)
    ensures
        match spec_step(SpecTask::Visit(*expr), has_join, tasks_view(old(tasks)@), filters_view(old(output)@)) {
            Ok((t, o)) => r is Ok && tasks_view(final(tasks)@) == t && filters_view(final(output)@) == o,
            Err(e) => r matches Err(x) && x@ == e,
        },
        r is Err ==> final(tasks)@ == old(tasks)@ && final(output)@ == old(output)@,
        match expr {
            SqlExpr::BinaryOp { left, op: SqlBinaryOperator::And, right } => final(tasks)@ == old(tasks)@.push(
                Task::CombineAnd,
            ).push(Task::Visit(&**right)).push(Task::Visit(&**left)) && final(output)@ == old(output)@,
            SqlExpr::BinaryOp { left, op: SqlBinaryOperator::Or, right } => final(tasks)@ == old(tasks)@.push(
                Task::CombineOr,
            ).push(Task::Visit(&**right)).push(Task::Visit(&**left)) && final(output)@ == old(output)@,
            SqlExpr::Nested(inner) => final(tasks)@ == old(tasks)@.push(Task::Visit(&**inner))
                && final(output)@ == old(output)@,
            _ => final(tasks)@ == old(tasks)@ && (r is Ok ==> final(output)@.len() == old(output)@.len() + 1
                && final(output)@.drop_last() == old(output)@),
        },
{
    let ghost t0 = old(tasks)@;
    let ghost f = |t: Task<'e>| t@;
    match expr {
        SqlExpr::BinaryOp { left, op: SqlBinaryOperator::And, right } => {
            let r = push_tree(tasks, Task::CombineAnd, left, right);
            proof {
                lemma_map_push(t0, Task::CombineAnd, f);
                lemma_map_push(t0.push(Task::CombineAnd), Task::Visit(right), f);
                lemma_map_push(t0.push(Task::CombineAnd).push(Task::Visit(right)), Task::Visit(left), f);
            }
            r
        },
        SqlExpr::BinaryOp { left, op: SqlBinaryOperator::Or, right } => {
            let r = push_tree(tasks, Task::CombineOr, left, right);
            proof {
                lemma_map_push(t0, Task::CombineOr, f);
                lemma_map_push(t0.push(Task::CombineOr), Task::Visit(right), f);
                lemma_map_push(t0.push(Task::CombineOr).push(Task::Visit(right)), Task::Visit(left), f);
            }
            r
        },
        SqlExpr::Nested(inner) => {
            tasks.push(Task::Visit(inner));
            proof {
                lemma_map_push(t0, Task::Visit(inner), f);
            }
            Ok(())
        },
        _ => push_leaf(output, expr, has_join),
    }
}

/// Runs a combining task: the two topmost filters of the output become
/// their AND (or OR); the output is left as it was where it holds fewer than two.
pub fn combine_filter(output: &mut Vec<Filter>, is_and: bool) -> (r: Result<(), QueryRefusal>)
    ensures
        match spec_combined(filters_view(old(output)@), is_and) {
            Some(o) => r is Ok && filters_view(final(output)@) == o,
            None => r matches Err(x) && x@ == unbalanced() && final(output)@ == old(output)@,
        },
        r is Ok ==> old(output)@.len() >= 2 && final(output)@.len() == old(output)@.len() - 1
            && final(output)@.drop_last() == old(output)@.take(old(output)@.len() - 2),
{
    let ghost f = |x: Filter| x@;
    let ghost o0 = old(output)@;
    if output.len() < 2 {
        return Err(invalid("unbalanced filter"));
    }
    let right = match output.pop() {
        Some(r) => r,
        None => return Err(invalid("unbalanced filter")),
    };
    let left = match output.pop() {
        Some(l) => l,
        None => return Err(invalid("unbalanced filter")),
    };
    let joined = joined_filter(is_and, left, right);
    output.push(joined);
    proof {
        let n = o0.len();
        assert(o0.take(n - 2) =~= o0.drop_last().drop_last());
        lemma_map_drop_last(o0, f);
        lemma_map_drop_last(o0.drop_last(), f);
        lemma_map_push(o0.take(n - 2), joined, f);
        assert(o0.take(n - 2).map_values(f) =~= o0.map_values(f).take(n - 2));
        assert(o0.map_values(f)[n - 2] == left@);
        assert(o0.map_values(f)[n - 1] == right@);
    }
    Ok(())
}

/// Runs one task.
pub fn run_task<'e>(
    task: Task<'e>,
    has_join: bool,
    tasks: &mut Vec<Task<'e>>,
    output: &mut Vec<Filter>,
) -> (r: Result<(), QueryRefusal>)
    ensures
        match spec_step(task@, has_join, tasks_view(old(tasks)@), filters_view(old(output)@)) {
            Ok((t, o)) => r is Ok && tasks_view(final(tasks)@) == t && filters_view(final(output)@) == o,
            Err(e) => r matches Err(x) && x@ == e,
        },
        r is Err ==> final(tasks)@ == old(tasks)@ && final(output)@ == old(output)@,
        !(task is Visit) ==> final(tasks)@ == old(tasks)@,
        !(task is Visit) && r is Ok ==> old(output)@.len() >= 2 && final(output)@.len() == old(output)@.len() - 1
            && final(output)@.drop_last() == old(output)@.take(old(output)@.len() - 2),
        match task {
            Task::Visit(expr) => match expr {
                SqlExpr::BinaryOp { left, op: SqlBinaryOperator::And, right } => final(tasks)@ == old(tasks)@.push(
                    Task::CombineAnd,
                ).push(Task::Visit(&**right)).push(Task::Visit(&**left)) && final(output)@ == old(output)@,
                SqlExpr::BinaryOp { left, op: SqlBinaryOperator::Or, right } => final(tasks)@ == old(tasks)@.push(
                    Task::CombineOr,
                ).push(Task::Visit(&**right)).push(Task::Visit(&**left)) && final(output)@ == old(output)@,
                SqlExpr::Nested(inner) => final(tasks)@ == old(tasks)@.push(Task::Visit(&**inner))
                    && final(output)@ == old(output)@,
                _ => final(tasks)@ == old(tasks)@ && (r is Ok ==> final(output)@.len() == old(output)@.len() + 1
                    && final(output)@.drop_last() == old(output)@),
            },
            _ => true,
        },
{
    match task {
        Task::Visit(expr) => visit_filter(expr, has_join, tasks, output),
        Task::CombineAnd => combine_filter(output, true),
        Task::CombineOr => combine_filter(output, false),
    }
}

/// Lowers a WHERE condition; the result is that of [`spec_filter`].
pub fn lower_filter(expr: &SqlExpr, has_join: bool) -> (r: Result<Filter, QueryRefusal>)
    ensures
        outcome(r) == spec_filter(*expr, has_join),
{
    let ghost start = seq![SpecTask::Visit(*expr)];
    let ghost target = finish(start, Seq::empty(), has_join);
    let mut tasks: Vec<Task> = Vec::new();
    tasks.push(Task::Visit(expr));
    let mut output: Vec<Filter> = Vec::new();
    proof {
        assert(tasks_view(tasks@) =~= start);
        assert(filters_view(output@) =~= Seq::<SpecFilter>::empty());
        lemma_finish_push(Seq::empty(), SpecTask::Visit(*expr), Seq::empty(), has_join);
        assert(Seq::<SpecTask>::empty().push(SpecTask::Visit(*expr)) =~= start);
        match spec_filter(*expr, has_join) {
            Ok(f) => {
                assert(finish(Seq::empty(), Seq::empty().push(f), has_join) == Ok::<Seq<SpecFilter>, SpecRefusal>(seq![f]));
            },
            Err(e) => {},
        }
    }
    loop
        invariant
            finish(tasks_view(tasks@), filters_view(output@), has_join) == target,
            target == (match spec_filter(*expr, has_join) {
                Err(e) => Err(e),
                Ok(f) => Ok::<Seq<SpecFilter>, SpecRefusal>(seq![f]),
            }),
        ensures
            tasks@.len() == 0,
            finish(tasks_view(tasks@), filters_view(output@), has_join) == target,
        decreases pending(tasks_view(tasks@)),
    {
        let ghost before = tasks@;
        match tasks.pop() {
            None => break,
            Some(task) => {
                proof {
                    lemma_map_drop_last(before, |t: Task| t@);
                    lemma_push(tasks_view(tasks@), task@);
                    assert(tasks_view(before) =~= tasks_view(tasks@).push(task@));
                    lemma_step(task@, has_join, tasks_view(tasks@), filters_view(output@));
                }
                run_task(task, has_join, &mut tasks, &mut output)?;
            },
        }
    }
    assert(tasks_view(tasks@) =~= Seq::<SpecTask>::empty());
    match output.pop() {
        Some(f) => {
            proof {
                lemma_map_drop_last(output@.push(f), |x: Filter| x@);
            }
            Ok(f)
        },
        None => Err(outside("empty filter")),
    }
}

pub open spec fn spec_lower_selection(selection: Option<SqlExpr>, has_join: bool) -> Result<Option<SpecFilter>, SpecRefusal> {
    match selection {
        Some(expr) => match spec_filter(expr, has_join) {
            Ok(f) => Ok(Some(f)),
            Err(e) => Err(e),
        },
        None => Ok(None),
    }
}

pub open spec fn filter_outcome(r: Result<Option<Filter>, QueryRefusal>) -> Result<Option<SpecFilter>, SpecRefusal> {
    match r {
        Ok(Some(f)) => Ok(Some(f@)),
        Ok(None) => Ok(None),
        Err(e) => Err(e@),
    }
}

/// The filter of an optional WHERE clause.
pub fn lower_selection(selection: &Option<SqlExpr>, has_join: bool) -> (r: Result<Option<Filter>, QueryRefusal>)
    ensures
        filter_outcome(r) == spec_lower_selection(*selection, has_join),
{
    match selection {
        Some(expr) => match lower_filter(expr, has_join) {
            Ok(f) => Ok(Some(f)),
            Err(e) => Err(e),
        },
        None => Ok(None),
    }
}

} // verus!
