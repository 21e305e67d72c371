//! INSERT, UPDATE and DELETE.

use vstd::prelude::*;
use crate::filter::{lower_selection, spec_lower_selection};
use crate::literal::{spec_value_of, value_of};
use crate::names::{
    delete_table, ident_name, sole_table, spec_delete_table, spec_sole_table, spec_table_object_name,
    table_object_name,
};
use crate::query::{
    opt_scalar, ColumnAssignment, DeleteRows, InsertRow, Scalar, SpecColumnAssignment, SpecDeleteRows, SpecInsertRow,
    SpecScalar, SpecUpdate, SpecWrite, Update, Write,
};
use crate::refusal::{
    collect_all, invalid, lemma_collect_refused, lemma_collect_step, outside, outcome, refuse,
    QueryRefusal, SpecRefusal,
};
use crate::syntax::{SqlAssignmentTarget, SqlExpr, SqlIdent, SqlQuery, SqlSetExpr, SqlAssignment, SqlDelete, SqlInsert, SqlStatement};

verus! {

pub open spec fn spec_reject_insert_options(insert: SqlInsert) -> Result<(), SpecRefusal> {
    if insert.on {
        refuse("ON CONFLICT"@)
    } else if insert.returning {
        refuse("RETURNING"@)
    } else if insert.assignments {
        refuse("INSERT with SET"@)
    } else {
        Ok(())
    }
}

/// Refuses ON CONFLICT, RETURNING and INSERT ... SET.
pub fn reject_insert_options(insert: &SqlInsert) -> (r: Result<(), QueryRefusal>)
    ensures
        outcome(r) == spec_reject_insert_options(*insert),
{
    if insert.on {
        return Err(outside("ON CONFLICT"));
    }
    if insert.returning {
        return Err(outside("RETURNING"));
    }
    if insert.assignments {
        return Err(outside("INSERT with SET"));
    }
    Ok(())
}

pub open spec fn spec_reject_insert_shape(insert: SqlInsert) -> Result<(), SpecRefusal> {
    if insert.or || insert.overwrite || insert.replace_into {
        refuse("INSERT with a conflict modifier"@)
    } else if !insert.into || insert.has_table_keyword {
        refuse("INSERT ... TABLE"@)
    } else {
        Ok(())
    }
}

/// Refuses INSERT OR, OVERWRITE, REPLACE INTO, and INSERT without INTO or with TABLE.
pub fn reject_insert_shape(insert: &SqlInsert) -> (r: Result<(), QueryRefusal>)
    ensures
        outcome(r) == spec_reject_insert_shape(*insert),
{
    if insert.or || insert.overwrite || insert.replace_into {
        return Err(outside("INSERT with a conflict modifier"));
    }
    if !insert.into || insert.has_table_keyword {
        return Err(outside("INSERT ... TABLE"));
    }
    Ok(())
}

pub open spec fn names_of(idents: Seq<SqlIdent>) -> Seq<Seq<char>> {
    idents.map_values(|i: SqlIdent| i.value@)
}

pub open spec fn spec_insert_columns(insert: SqlInsert) -> Result<Seq<Seq<char>>, SpecRefusal> {
    if insert.columns.len() == 0 {
        refuse("INSERT without a column list"@)
    } else {
        Ok(names_of(insert.columns@))
    }
}

pub open spec fn names_outcome(r: Result<Vec<String>, QueryRefusal>) -> Result<Seq<Seq<char>>, SpecRefusal> {
    match r {
        Ok(names) => Ok(names@.map_values(|s: String| s@)),
        Err(e) => Err(e@),
    }
}

/// The columns that an INSERT names, which it must name.
pub fn insert_columns(insert: &SqlInsert) -> (r: Result<Vec<String>, QueryRefusal>)
    ensures
        names_outcome(r) == spec_insert_columns(*insert),
{
    let n = insert.columns.len();
    if n == 0 {
        return Err(outside("INSERT without a column list"));
    }
    let mut names: Vec<String> = Vec::new();
    let mut i: usize = 0;
    while i < n
        invariant
            n == insert.columns@.len(),
            i <= n,
            names@.map_values(|s: String| s@) =~= names_of(insert.columns@.take(i as int)),
        decreases n - i,
    {
        let ghost before = names@;
        let name = ident_name(&insert.columns[i]);
        names.push(name);
        assert(names@.map_values(|s: String| s@) =~= before.map_values(|s: String| s@).push(name@));
        assert(names_of(insert.columns@.take(i + 1)) =~= names_of(insert.columns@.take(i as int)).push(name@));
        i = i + 1;
    }
    assert(insert.columns@.take(n as int) =~= insert.columns@);
    Ok(names)
}

pub open spec fn value_step() -> spec_fn(SqlExpr) -> Result<Option<SpecScalar>, SpecRefusal> {
    |e: SqlExpr| spec_value_of(e)
}

pub open spec fn spec_insert_row(source: Option<Box<SqlQuery>>) -> Result<Seq<Option<SpecScalar>>, SpecRefusal> {
    match source {
        None => refuse("INSERT without VALUES"@),
        Some(query) => match *query.body {
            SqlSetExpr::Values(rows) => if rows.len() != 1 {
                refuse("multi-row INSERT"@)
            } else {
                collect_all(rows[0]@, value_step())
            },
            _ => refuse("INSERT ... SELECT"@),
        },
    }
}

pub open spec fn values_view(values: Seq<Option<Scalar>>) -> Seq<Option<SpecScalar>> {
    values.map_values(|v: Option<Scalar>| opt_scalar(v))
}

pub open spec fn row_outcome(r: Result<Vec<Option<Scalar>>, QueryRefusal>) -> Result<Seq<Option<SpecScalar>>, SpecRefusal> {
    match r {
        Ok(values) => Ok(values_view(values@)),
        Err(e) => Err(e@),
    }
}

/// The values of each expression of a row, in order; the first refusal wins.
fn row_values(row: &Vec<SqlExpr>) -> (r: Result<Vec<Option<Scalar>>, QueryRefusal>)
    ensures
        row_outcome(r) == collect_all(row@, value_step()),
{
    let ghost f = value_step();
    let n = row.len();
    let mut values: Vec<Option<Scalar>> = Vec::new();
    let mut i: usize = 0;
    assert(row@.take(0) =~= Seq::<SqlExpr>::empty());
    assert(values_view(values@) =~= Seq::<Option<SpecScalar>>::empty());
    while i < n
        invariant
            n == row@.len(),
            i <= n,
            f == value_step(),
            collect_all(row@.take(i as int), f) == Ok::<Seq<Option<SpecScalar>>, SpecRefusal>(values_view(values@)),
        decreases n - i,
    {
        let ghost before = values@;
        proof {
            lemma_collect_step(row@, f, i as int);
        }
        let value = match value_of(&row[i]) {
            Ok(v) => v,
            Err(e) => {
                proof {
                    lemma_collect_refused(row@, f, i + 1);
                }
                return Err(e);
            },
        };
        values.push(value);
        assert(values_view(values@) =~= values_view(before).push(opt_scalar(value)));
        i = i + 1;
    }
    assert(row@.take(n as int) =~= row@);
    Ok(values)
}

/// The one row of values that an INSERT writes.
pub fn insert_row(source: Option<Box<SqlQuery>>) -> (r: Result<Vec<Option<Scalar>>, QueryRefusal>)
    ensures
        row_outcome(r) == spec_insert_row(source),
{
    let query = match source {
        Some(q) => q,
        None => return Err(outside("INSERT without VALUES")),
    };
    match &*query.body {
        SqlSetExpr::Values(rows) => {
            if rows.len() != 1 {
                return Err(outside("multi-row INSERT"));
            }
            row_values(&rows[0])
        },
        _ => Err(outside("INSERT ... SELECT")),
    }
}

pub open spec fn spec_lower_insert(insert: SqlInsert) -> Result<SpecWrite, SpecRefusal> {
    match spec_reject_insert_options(insert) {
        Err(e) => Err(e),
        Ok(_) => match spec_reject_insert_shape(insert) {
            Err(e) => Err(e),
            Ok(_) => match spec_table_object_name(insert.table) {
                Err(e) => Err(e),
                Ok(table) => match spec_insert_columns(insert) {
                    Err(e) => Err(e),
                    Ok(columns) => match spec_insert_row(insert.source) {
                        Err(e) => Err(e),
                        Ok(values) => Ok(SpecWrite::Insert(SpecInsertRow { table, columns, values })),
                    },
                },
            },
        },
    }
}

/// An INSERT of one row of literals into named columns.
pub fn lower_insert(insert: SqlInsert) -> (r: Result<Write, QueryRefusal>)
    ensures
        outcome(r) == spec_lower_insert(insert),
{
    reject_insert_options(&insert)?;
    reject_insert_shape(&insert)?;
    let table = table_object_name(&insert.table)?;
    let columns = insert_columns(&insert)?;
    let values = insert_row(insert.source)?;
    Ok(Write::Insert(InsertRow { table, columns, values }))
}

pub open spec fn spec_reject_delete_tail(delete: SqlDelete) -> Result<(), SpecRefusal> {
    if delete.using {
        refuse("DELETE USING"@)
    } else if delete.returning {
        refuse("RETURNING"@)
    } else if delete.order_by || delete.limit || delete.tables {
        refuse("DELETE with a tail clause"@)
    } else {
        Ok(())
    }
}

/// Refuses USING, RETURNING, ORDER BY, LIMIT and multi-table DELETE.
pub fn reject_delete_tail(delete: &SqlDelete) -> (r: Result<(), QueryRefusal>)
    ensures
        outcome(r) == spec_reject_delete_tail(*delete),
{
    if delete.using {
        return Err(outside("DELETE USING"));
    }
    if delete.returning {
        return Err(outside("RETURNING"));
    }
    if delete.order_by || delete.limit || delete.tables {
        return Err(outside("DELETE with a tail clause"));
    }
    Ok(())
}

pub open spec fn spec_lower_delete(delete: SqlDelete) -> Result<SpecWrite, SpecRefusal> {
    match spec_reject_delete_tail(delete) {
        Err(e) => Err(e),
        Ok(_) => match spec_delete_table(delete) {
            Err(e) => Err(e),
            Ok(table) => match spec_lower_selection(delete.selection, false) {
                Err(e) => Err(e),
                Ok(filter) => Ok(SpecWrite::Delete(SpecDeleteRows { table, filter })),
            },
        },
    }
}

/// A DELETE from one table, with an optional WHERE.
pub fn lower_delete(delete: SqlDelete) -> (r: Result<Write, QueryRefusal>)
    ensures
        outcome(r) == spec_lower_delete(delete),
{
    reject_delete_tail(&delete)?;
    let table = delete_table(&delete)?;
    let filter = lower_selection(&delete.selection, false)?;
    Ok(Write::Delete(DeleteRows { table, filter }))
}

pub open spec fn spec_reject_update_tail(has_from: bool, has_returning: bool, has_or: bool) -> Result<(), SpecRefusal> {
    if has_from {
        refuse("UPDATE with FROM"@)
    } else if has_returning {
        refuse("RETURNING"@)
    } else if has_or {
        refuse("UPDATE with a conflict modifier"@)
    } else {
        Ok(())
    }
}

/// Refuses UPDATE ... FROM, RETURNING and UPDATE OR.
pub fn reject_update_tail(has_from: bool, has_returning: bool, has_or: bool) -> (r: Result<(), QueryRefusal>)
    ensures
        outcome(r) == spec_reject_update_tail(has_from, has_returning, has_or),
{
    if has_from {
        return Err(outside("UPDATE with FROM"));
    }
    if has_returning {
        return Err(outside("RETURNING"));
    }
    if has_or {
        return Err(outside("UPDATE with a conflict modifier"));
    }
    Ok(())
}

pub open spec fn spec_target_column(target: SqlAssignmentTarget) -> Result<Seq<char>, SpecRefusal> {
    match target {
        SqlAssignmentTarget::ColumnName(name) => if name.0.len() != 1 {
            refuse("qualified column in SET"@)
        } else {
            Ok(name.0[0].value@)
        },
        SqlAssignmentTarget::Tuple => refuse("tuple assignment"@),
    }
}

/// The column that a SET assignment writes.
pub fn target_column(target: &SqlAssignmentTarget) -> (r: Result<String, QueryRefusal>)
    ensures
        outcome(r) == spec_target_column(*target),
{
    match target {
        SqlAssignmentTarget::ColumnName(name) => {
            if name.0.len() != 1 {
                return Err(outside("qualified column in SET"));
            }
            Ok(ident_name(&name.0[0]))
        },
        SqlAssignmentTarget::Tuple => Err(outside("tuple assignment")),
    }
}

pub open spec fn spec_one_assignment(assignment: SqlAssignment) -> Result<SpecColumnAssignment, SpecRefusal> {
    match spec_target_column(assignment.target) {
        Err(e) => Err(e),
        Ok(column) => match spec_value_of(assignment.value) {
            Err(e) => Err(e),
            Ok(value) => Ok(SpecColumnAssignment { column, value }),
        },
    }
}

/// One `column = literal` of an UPDATE.
pub fn one_assignment(assignment: &SqlAssignment) -> (r: Result<ColumnAssignment, QueryRefusal>)
    ensures
        outcome(r) == spec_one_assignment(*assignment),
{
    let column = target_column(&assignment.target)?;
    let value = value_of(&assignment.value)?;
    Ok(ColumnAssignment { column, value })
}

pub open spec fn assignment_step() -> spec_fn(SqlAssignment) -> Result<SpecColumnAssignment, SpecRefusal> {
    |a: SqlAssignment| spec_one_assignment(a)
}

pub open spec fn assignments_outcome(r: Result<Vec<ColumnAssignment>, QueryRefusal>) -> Result<Seq<SpecColumnAssignment>, SpecRefusal> {
    match r {
        Ok(sets) => Ok(sets@.map_values(|a: ColumnAssignment| a@)),
        Err(e) => Err(e@),
    }
}

/// Every assignment of an UPDATE, in order; the first refusal wins.
pub fn assignments_of(assignments: &[SqlAssignment]) -> (r: Result<Vec<ColumnAssignment>, QueryRefusal>)
    ensures
        assignments_outcome(r) == collect_all(assignments@, assignment_step()),
{
    let ghost f = assignment_step();
    let n = assignments.len();
    let mut sets: Vec<ColumnAssignment> = Vec::new();
    let mut i: usize = 0;
    assert(assignments@.take(0) =~= Seq::<SqlAssignment>::empty());
    assert(sets@.map_values(|a: ColumnAssignment| a@) =~= Seq::<SpecColumnAssignment>::empty());
    while i < n
        invariant
            n == assignments@.len(),
            i <= n,
            f == assignment_step(),
            collect_all(assignments@.take(i as int), f) == Ok::<Seq<SpecColumnAssignment>, SpecRefusal>(sets@.map_values(|a: ColumnAssignment| a@)),
        decreases n - i,
    {
        let ghost before = sets@;
        proof {
            lemma_collect_step(assignments@, f, i as int);
        }
        let set = match one_assignment(&assignments[i]) {
            Ok(s) => s,
            Err(e) => {
                proof {
                    lemma_collect_refused(assignments@, f, i + 1);
                }
                return Err(e);
            },
        };
        sets.push(set);
        assert(sets@.map_values(|a: ColumnAssignment| a@) =~= before.map_values(|a: ColumnAssignment| a@).push(set@));
        i = i + 1;
    }
    assert(assignments@.take(n as int) =~= assignments@);
    Ok(sets)
}

pub open spec fn spec_lower_update(statement: SqlStatement) -> Result<SpecWrite, SpecRefusal> {
    match statement {
        SqlStatement::Update { table, assignments, from, selection, returning, or } => match spec_reject_update_tail(from, returning, or) {
            Err(e) => Err(e),
            Ok(_) => match spec_sole_table(table) {
                Err(e) => Err(e),
                Ok(name) => match collect_all(assignments@, assignment_step()) {
                    Err(e) => Err(e),
                    Ok(sets) => match spec_lower_selection(selection, false) {
                        Err(e) => Err(e),
                        Ok(filter) => Ok(SpecWrite::Update(SpecUpdate { table: name, assignments: sets, filter })),
                    },
                },
            },
        },
        _ => Err(SpecRefusal::Invalid("not an UPDATE"@)),
    }
}

/// An UPDATE of one table, setting columns to literals, with an optional WHERE.
pub fn lower_update(statement: SqlStatement) -> (r: Result<Write, QueryRefusal>)
    ensures
        outcome(r) == spec_lower_update(statement),
{
    let SqlStatement::Update { table, assignments, from, selection, returning, or } = statement else {
        return Err(invalid("not an UPDATE"));
    };
    reject_update_tail(from, returning, or)?;
    let name = sole_table(&table)?;
    let sets = assignments_of(assignments.as_slice())?;
    let filter = lower_selection(&selection, false)?;
    Ok(Write::Update(Update { table: name, assignments: sets, filter }))
}

} // verus!
