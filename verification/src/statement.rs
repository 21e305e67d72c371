//! Statements: the entry points of the lowering.

use vstd::prelude::*;
use crate::bridge::{parse_sql, sql_syntax};
use crate::query::{Command, SelectQuery, SpecCommand, SpecSelectQuery};
use crate::refusal::{invalid, outside, outcome, refuse, QueryRefusal, SpecRefusal};
use crate::screen::{screen, spec_screen};
use crate::select::{lower_query, spec_lower_query};
use crate::syntax::{SqlIdent, SqlQuery, SqlStatement};
use crate::write::{lower_delete, lower_insert, lower_update, spec_lower_delete, spec_lower_insert, spec_lower_update};

verus! {

pub open spec fn spec_reject_transaction_options(present: bool) -> Result<(), SpecRefusal> {
    if present {
        refuse("transaction options"@)
    } else {
        Ok(())
    }
}

/// Refuses transaction options when any is present.
pub fn reject_transaction_options(present: bool) -> (r: Result<(), QueryRefusal>)
    ensures
        outcome(r) == spec_reject_transaction_options(present),
{
    if present {
        return Err(outside("transaction options"));
    }
    Ok(())
}

pub open spec fn spec_lower_begin(modes: usize, modifier: bool) -> Result<SpecCommand, SpecRefusal> {
    match spec_reject_transaction_options(modes != 0 || modifier) {
        Err(e) => Err(e),
        Ok(_) => Ok(SpecCommand::Begin),
    }
}

/// BEGIN, without transaction modes or modifiers.
pub fn lower_begin(modes: usize, modifier: bool) -> (r: Result<Command, QueryRefusal>)
    ensures
        outcome(r) == spec_lower_begin(modes, modifier),
{
    reject_transaction_options(modes != 0 || modifier)?;
    Ok(Command::Begin)
}

pub open spec fn spec_lower_commit(chain: bool, end: bool, modifier: bool) -> Result<SpecCommand, SpecRefusal> {
    match spec_reject_transaction_options(chain || end || modifier) {
        Err(e) => Err(e),
        Ok(_) => Ok(SpecCommand::Commit),
    }
}

/// COMMIT, without AND CHAIN, END or modifiers.
pub fn lower_commit(chain: bool, end: bool, modifier: bool) -> (r: Result<Command, QueryRefusal>)
    ensures
        outcome(r) == spec_lower_commit(chain, end, modifier),
{
    reject_transaction_options(chain || end || modifier)?;
    Ok(Command::Commit)
}

pub open spec fn spec_lower_rollback(chain: bool, savepoint: Option<SqlIdent>) -> Result<SpecCommand, SpecRefusal> {
    match spec_reject_transaction_options(chain || savepoint is Some) {
        Err(e) => Err(e),
        Ok(_) => Ok(SpecCommand::Rollback),
    }
}

/// ROLLBACK, without AND CHAIN or a savepoint.
pub fn lower_rollback(chain: bool, savepoint: Option<SqlIdent>) -> (r: Result<Command, QueryRefusal>)
    ensures
        outcome(r) == spec_lower_rollback(chain, savepoint),
{
    reject_transaction_options(chain || savepoint.is_some())?;
    Ok(Command::Rollback)
}

pub open spec fn spec_statement_label(statement: SqlStatement) -> Seq<char> {
    match statement {
        SqlStatement::Query(_) => "SELECT"@,
        SqlStatement::Insert(_) => "INSERT"@,
        SqlStatement::Update { .. } => "UPDATE"@,
        SqlStatement::Delete(_) => "DELETE"@,
        SqlStatement::StartTransaction { .. } => "BEGIN"@,
        SqlStatement::Commit { .. } => "COMMIT"@,
        SqlStatement::Rollback { .. } => "ROLLBACK"@,
        SqlStatement::Other => "this statement"@,
    }
}

/// The name of a kind of statement, as a refusal shows it.
pub fn statement_label(statement: &SqlStatement) -> (r: &'static str)
    ensures
        r@ == spec_statement_label(*statement),
{
    match statement {
        SqlStatement::Query(_) => "SELECT",
        SqlStatement::Insert(_) => "INSERT",
        SqlStatement::Update { .. } => "UPDATE",
        SqlStatement::Delete(_) => "DELETE",
        SqlStatement::StartTransaction { .. } => "BEGIN",
        SqlStatement::Commit { .. } => "COMMIT",
        SqlStatement::Rollback { .. } => "ROLLBACK",
        SqlStatement::Other => "this statement",
    }
}

pub open spec fn spec_query_of(statement: SqlStatement) -> Result<SqlQuery, SpecRefusal> {
    match statement {
        SqlStatement::Query(query) => Ok(*query),
        other => refuse(spec_statement_label(other)),
    }
}

/// The query of a statement, which must be a query.
pub fn query_of(statement: SqlStatement) -> (r: Result<SqlQuery, QueryRefusal>)
    ensures
        match r {
            Ok(q) => spec_query_of(statement) == Ok::<SqlQuery, SpecRefusal>(q),
            Err(e) => spec_query_of(statement) == Err::<SqlQuery, SpecRefusal>(e@),
        },
{
    match statement {
        SqlStatement::Query(query) => Ok(*query),
        other => Err(outside(statement_label(&other))),
    }
}

pub open spec fn spec_one_statement(statements: Seq<SqlStatement>) -> Result<SqlStatement, SpecRefusal> {
    if statements.len() > 1 {
        refuse("multiple statements"@)
    } else if statements.len() == 0 {
        Err(SpecRefusal::Invalid("no statement to run"@))
    } else {
        Ok(statements[0])
    }
}

/// The one statement of a text.
pub fn one_statement(statements: Vec<SqlStatement>) -> (r: Result<SqlStatement, QueryRefusal>)
    ensures
        match r {
            Ok(s) => spec_one_statement(statements@) == Ok::<SqlStatement, SpecRefusal>(s),
            Err(e) => spec_one_statement(statements@) == Err::<SqlStatement, SpecRefusal>(e@),
        },
{
    let mut statements = statements;
    if statements.len() > 1 {
        return Err(outside("multiple statements"));
    }
    match statements.pop() {
        Some(s) => Ok(s),
        None => Err(invalid("no statement to run")),
    }
}

pub open spec fn spec_lower_statement(statement: SqlStatement) -> Result<SpecCommand, SpecRefusal> {
    match statement {
        SqlStatement::Query(query) => match spec_lower_query(*query) {
            Err(e) => Err(e),
            Ok(s) => Ok(SpecCommand::Select(s)),
        },
        SqlStatement::Insert(insert) => match spec_lower_insert(insert) {
            Err(e) => Err(e),
            Ok(w) => Ok(SpecCommand::Write(w)),
        },
        SqlStatement::Update { .. } => match spec_lower_update(statement) {
            Err(e) => Err(e),
            Ok(w) => Ok(SpecCommand::Write(w)),
        },
        SqlStatement::Delete(delete) => match spec_lower_delete(delete) {
            Err(e) => Err(e),
            Ok(w) => Ok(SpecCommand::Write(w)),
        },
        SqlStatement::StartTransaction { modes, modifier } => spec_lower_begin(modes, modifier),
        SqlStatement::Commit { chain, end, modifier } => spec_lower_commit(chain, end, modifier),
        SqlStatement::Rollback { chain, savepoint } => spec_lower_rollback(chain, savepoint),
        SqlStatement::Other => refuse(spec_statement_label(statement)),
    }
}

/// Any statement of the subset: a query, a write, or a transaction command.
pub fn lower_statement(statement: SqlStatement) -> (r: Result<Command, QueryRefusal>)
    ensures
        outcome(r) == spec_lower_statement(statement),
{
    if let SqlStatement::Update { .. } = &statement {
        return match lower_update(statement) {
            Ok(w) => Ok(Command::Write(w)),
            Err(e) => Err(e),
        };
    }
    match statement {
        SqlStatement::Query(query) => match lower_query(query) {
            Ok(s) => Ok(Command::Select(s)),
            Err(e) => Err(e),
        },
        SqlStatement::Insert(insert) => match lower_insert(insert) {
            Ok(w) => Ok(Command::Write(w)),
            Err(e) => Err(e),
        },
        SqlStatement::Delete(delete) => match lower_delete(delete) {
            Ok(w) => Ok(Command::Write(w)),
            Err(e) => Err(e),
        },
        SqlStatement::StartTransaction { modes, modifier } => lower_begin(modes, modifier),
        SqlStatement::Commit { chain, end, modifier } => lower_commit(chain, end, modifier),
        SqlStatement::Rollback { chain, savepoint } => lower_rollback(chain, savepoint),
        other => Err(outside(statement_label(&other))),
    }
}

pub open spec fn spec_lower_parsed(statements: Seq<SqlStatement>) -> Result<SpecSelectQuery, SpecRefusal> {
    match spec_one_statement(statements) {
        Err(e) => Err(e),
        Ok(statement) => match spec_query_of(statement) {
            Err(e) => Err(e),
            Ok(query) => spec_lower_query(query),
        },
    }
}

/// The query of a parsed text, which must hold exactly one statement, a query.
pub fn lower_parsed(statements: Vec<SqlStatement>) -> (r: Result<SelectQuery, QueryRefusal>)
    ensures
        outcome(r) == spec_lower_parsed(statements@),
{
    let statement = one_statement(statements)?;
    let query = query_of(statement)?;
    lower_query(Box::new(query))
}

pub open spec fn spec_analyse(text: Seq<char>) -> Result<Seq<SqlStatement>, SpecRefusal> {
    match spec_screen(text) {
        Some(construct) => Err(SpecRefusal::Outside(construct)),
        None => match sql_syntax(text) {
            Ok(statements) => Ok(statements),
            Err(message) => Err(SpecRefusal::Invalid(message)),
        },
    }
}

/// The statements of a SQL text. A text kept from the parser (see
/// [`crate::screen`]) is refused as outside the subset; text that does not
/// parse is invalid, with the parser's message.
pub fn analyse(text: &str) -> (r: Result<Vec<SqlStatement>, QueryRefusal>)
    ensures
        match r {
            Ok(statements) => spec_analyse(text@) == Ok::<Seq<SqlStatement>, SpecRefusal>(statements@),
            Err(e) => spec_analyse(text@) == Err::<Seq<SqlStatement>, SpecRefusal>(e@),
        },
{
    if let Some(construct) = screen(text) {
        return Err(outside(construct));
    }
    match parse_sql(text) {
        Ok(statements) => Ok(statements),
        Err(message) => Err(QueryRefusal::Invalid { reason: message }),
    }
}

pub open spec fn spec_parse(text: Seq<char>) -> Result<SpecSelectQuery, SpecRefusal> {
    match spec_analyse(text) {
        Err(e) => Err(e),
        Ok(statements) => spec_lower_parsed(statements),
    }
}

/// Parses a SQL text that holds one SELECT and lowers it to a query.
pub fn parse(text: &str) -> (r: Result<SelectQuery, QueryRefusal>)
    ensures
        outcome(r) == spec_parse(text@),
{
    let statements = analyse(text)?;
    lower_parsed(statements)
}

} // verus!
