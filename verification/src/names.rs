//! Table names: which FROM items the subset accepts and what they name.

use vstd::prelude::*;
use crate::refusal::{outside, outcome, refuse, QueryRefusal, SpecRefusal};
use crate::syntax::{SqlIdent, SqlObjectName, SqlDelete, SqlTableFactor, SqlTableObject, SqlTableWithJoins};

verus! {

/// The name that an identifier stands for.
pub fn ident_name(ident: &SqlIdent) -> (r: String)
    ensures
        r@ == ident.value@,
{
    ident.value.clone()
}

pub open spec fn spec_object_name(name: SqlObjectName) -> Result<Seq<char>, SpecRefusal> {
    if name.0.len() != 1 {
        refuse("qualified table name"@)
    } else {
        Ok(name.0[0].value@)
    }
}

/// The name of a table, which must not be qualified.
pub fn object_name(name: &SqlObjectName) -> (r: Result<String, QueryRefusal>)
    ensures
        outcome(r) == spec_object_name(*name),
{
    if name.0.len() != 1 {
        return Err(outside("qualified table name"));
    }
    Ok(ident_name(&name.0[0]))
}

pub open spec fn spec_plain_table(relation: SqlTableFactor) -> Option<SqlObjectName> {
    match relation {
        SqlTableFactor::Table { name, alias, args, with_hints, version, partitions, sample } => {
            if !alias && !args && !version && !sample && !with_hints && !partitions {
                Some(name)
            } else {
                None
            }
        },
        SqlTableFactor::Other => None,
    }
}

/// The name of a FROM item that is a table with no alias, arguments or modifiers.
pub fn plain_table(relation: &SqlTableFactor) -> (r: Option<&SqlObjectName>)
    ensures
        match r {
            Some(name) => spec_plain_table(*relation) == Some(*name),
            None => spec_plain_table(*relation) is None,
        },
{
    match relation {
        SqlTableFactor::Table { name, alias, args, with_hints, version, partitions, sample } => {
            if !*alias && !*args && !*version && !*sample {
                if !*with_hints && !*partitions {
                    return Some(name);
                }
            }
            None
        },
        SqlTableFactor::Other => None,
    }
}

pub open spec fn spec_table_name(relation: SqlTableFactor) -> Result<Seq<char>, SpecRefusal> {
    match spec_plain_table(relation) {
        Some(name) => spec_object_name(name),
        None => refuse("this FROM item"@),
    }
}

/// The name of the table that a FROM item reads.
pub fn table_name(relation: &SqlTableFactor) -> (r: Result<String, QueryRefusal>)
    ensures
        outcome(r) == spec_table_name(*relation),
{
    match plain_table(relation) {
        Some(name) => object_name(name),
        None => Err(outside("this FROM item")),
    }
}

pub open spec fn spec_single_from(from: Seq<SqlTableWithJoins>) -> Result<SqlTableWithJoins, SpecRefusal> {
    if from.len() == 0 {
        refuse("SELECT without FROM"@)
    } else if from.len() > 1 {
        refuse("comma join"@)
    } else {
        Ok(from[0])
    }
}

/// The one FROM item of a SELECT.
pub fn single_from(from: &[SqlTableWithJoins]) -> (r: Result<&SqlTableWithJoins, QueryRefusal>)
    ensures
        match r {
            Ok(t) => spec_single_from(from@) == Ok::<SqlTableWithJoins, SpecRefusal>(*t),
            Err(e) => spec_single_from(from@) == Err::<SqlTableWithJoins, SpecRefusal>(e@),
        },
{
    if from.len() == 0 {
        return Err(outside("SELECT without FROM"));
    }
    if from.len() > 1 {
        return Err(outside("comma join"));
    }
    Ok(&from[0])
}

pub open spec fn spec_sole_table(table: SqlTableWithJoins) -> Result<Seq<char>, SpecRefusal> {
    if table.joins.len() != 0 {
        refuse("a write with a join"@)
    } else {
        spec_table_name(table.relation)
    }
}

/// The table that a write changes, which must not be joined.
pub fn sole_table(table: &SqlTableWithJoins) -> (r: Result<String, QueryRefusal>)
    ensures
        outcome(r) == spec_sole_table(*table),
{
    if table.joins.len() != 0 {
        return Err(outside("a write with a join"));
    }
    table_name(&table.relation)
}

pub open spec fn spec_table_object_name(table: SqlTableObject) -> Result<Seq<char>, SpecRefusal> {
    match table {
        SqlTableObject::TableName(name) => spec_object_name(name),
        SqlTableObject::TableFunction => refuse("INSERT INTO FUNCTION"@),
    }
}

/// The table that an INSERT writes into.
pub fn table_object_name(table: &SqlTableObject) -> (r: Result<String, QueryRefusal>)
    ensures
        outcome(r) == spec_table_object_name(*table),
{
    match table {
        SqlTableObject::TableName(name) => object_name(name),
        SqlTableObject::TableFunction => Err(outside("INSERT INTO FUNCTION")),
    }
}

pub open spec fn spec_delete_table(delete: SqlDelete) -> Result<Seq<char>, SpecRefusal> {
    if delete.from.len() != 1 {
        refuse("DELETE from several tables"@)
    } else {
        spec_sole_table(delete.from[0])
    }
}

/// The table that a DELETE removes rows from.
pub fn delete_table(delete: &SqlDelete) -> (r: Result<String, QueryRefusal>)
    ensures
        outcome(r) == spec_delete_table(*delete),
{
    if delete.from.len() != 1 {
        return Err(outside("DELETE from several tables"));
    }
    sole_table(&delete.from[0])
}

} // verus!
