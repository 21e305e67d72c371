//! Properties of the lowering as a whole.

use vstd::prelude::*;
use crate::bridge::sql_syntax;
use crate::filter::{spec_column_ref_of, spec_filter};
use crate::join::spec_lower_join;
use crate::literal::{spec_integer_scalar, spec_signed_text};
use crate::names::{spec_single_from, spec_table_name};
use crate::order::{order_key_step, spec_lower_order};
use crate::projection::{item_step, spec_assemble, spec_classify, spec_lower_projection, SpecItemKind};
use crate::query::{
    AggregateFunction, SpecColumnRef, SpecCommand, SpecFilter, SpecItems, SpecOrderKey, SpecScalar, SpecSelectQuery,
};
use crate::refusal::{lemma_collect_all_holds, lemma_collect_all_refusal, SpecRefusal};
use crate::screen::kept_from_parser;
use crate::select::{spec_lower_query, spec_lower_select};
use crate::statement::{spec_lower_statement, spec_parse};
use crate::syntax::{
    SqlBinaryOperator, SqlExpr, SqlOrderBy, SqlQuery, SqlSelect, SqlSelectItem, SqlSetExpr, SqlStatement,
};
use crate::write::{assignment_step, value_step};
use crate::literal::{spec_literal_of, spec_value_of};
use crate::names::spec_delete_table;
use crate::order::{spec_lower_order_key, spec_order_column};
use crate::projection::{spec_aggregate_function_of, spec_is_wildcard, spec_lower_item};
use crate::query::{Comparison, Direction, SpecWrite};
use crate::refusal::lemma_collect_all_pointwise;
use crate::syntax::{SqlDelete, SqlFunction, SqlFunctionArg, SqlFunctionArgExpr, SqlFunctionArguments, SqlValue};
use crate::write::{spec_insert_row, spec_lower_delete, spec_lower_insert, spec_lower_update};
use crate::names::{spec_sole_table, spec_table_object_name};
use crate::syntax::{SqlAssignmentTarget, SqlInsert, SqlJoin, SqlJoinConstraint, SqlJoinOperator, SqlTableObject};
use crate::literal::digits_value;
use crate::projection::{spec_function_named, spells};
use crate::syntax::{SqlIdent, SqlObjectName, SqlTableFactor};

verus! {

pub open spec fn qualified(c: SpecColumnRef) -> bool {
    c.table is Some
}

pub open spec fn opt_qualified(c: Option<SpecColumnRef>) -> bool {
    match c {
        Some(c) => qualified(c),
        None => true,
    }
}

/// Every column that a filter reads names its table.
pub open spec fn filter_qualified(f: SpecFilter) -> bool
    decreases f,
{
    match f {
        SpecFilter::Compare { column, .. } => qualified(column),
        SpecFilter::IsNull(c) => qualified(c),
        SpecFilter::IsNotNull(c) => qualified(c),
        SpecFilter::And(l, r) => filter_qualified(*l) && filter_qualified(*r),
        SpecFilter::Or(l, r) => filter_qualified(*l) && filter_qualified(*r),
    }
}

/// Every column that a list of items reads names its table.
pub open spec fn items_qualified(items: SpecItems) -> bool {
    match items {
        SpecItems::All => true,
        SpecItems::Columns(cs) => forall|i: int| 0 <= i < cs.len() ==> #[trigger] qualified(cs[i]),
        SpecItems::Aggregates(aggs) => forall|i: int|
            0 <= i < aggs.len() ==> opt_qualified((#[trigger] aggs[i]).column),
    }
}

/// Only COUNT is taken over `*`.
pub open spec fn star_is_count(items: SpecItems) -> bool {
    items matches SpecItems::Aggregates(aggs) ==> forall|i: int|
        0 <= i < aggs.len() && (#[trigger] aggs[i]).column is None ==> aggs[i].function == AggregateFunction::Count
}

/// What every lowered SELECT satisfies: a joined table differs from the
/// table it joins, and with a join every column names its table; a query of
/// aggregates has no ORDER BY; and only COUNT is taken over `*`.
pub open spec fn select_well_formed(s: SpecSelectQuery) -> bool {
    &&& s.join matches Some(j) ==> {
        &&& j.table != s.from
        &&& qualified(j.left)
        &&& qualified(j.right)
        &&& items_qualified(s.items)
        &&& s.filter matches Some(f) ==> filter_qualified(f)
        &&& forall|i: int| 0 <= i < s.order.len() ==> #[trigger] qualified(s.order[i].column)
    }
    &&& s.items is Aggregates ==> s.order.len() == 0
    &&& star_is_count(s.items)
}

proof fn lemma_column_joined(e: SqlExpr)
    ensures
        spec_column_ref_of(e, true) is Ok ==> qualified(spec_column_ref_of(e, true)->Ok_0),
{
}

/// With a join, the lowered filter reads only columns that name their table.
pub proof fn lemma_filter_joined(e: SqlExpr)
    ensures
        spec_filter(e, true) is Ok ==> filter_qualified(spec_filter(e, true)->Ok_0),
    decreases e,
{
    match e {
        SqlExpr::BinaryOp { left, op: SqlBinaryOperator::And, right } => {
            lemma_filter_joined(*left);
            lemma_filter_joined(*right);
        },
        SqlExpr::BinaryOp { left, op: SqlBinaryOperator::Or, right } => {
            lemma_filter_joined(*left);
            lemma_filter_joined(*right);
        },
        SqlExpr::Nested(inner) => {
            lemma_filter_joined(*inner);
        },
        SqlExpr::IsNull(inner) => {
            lemma_column_joined(*inner);
        },
        SqlExpr::IsNotNull(inner) => {
            lemma_column_joined(*inner);
        },
        SqlExpr::BinaryOp { left, op, right } => {
            lemma_column_joined(*left);
        },
        _ => {},
    }
}

pub open spec fn kind_qualified(k: SpecItemKind) -> bool {
    match k {
        SpecItemKind::Column(c) => qualified(c),
        SpecItemKind::Aggregate(a) => opt_qualified(a.column),
    }
}

pub open spec fn kind_star_is_count(k: SpecItemKind) -> bool {
    match k {
        SpecItemKind::Column(_) => true,
        SpecItemKind::Aggregate(a) => a.column is None ==> a.function == AggregateFunction::Count,
    }
}

proof fn lemma_items(projection: Seq<SqlSelectItem>, has_join: bool)
    ensures
        spec_lower_projection(projection, has_join) is Ok ==> {
            let items = spec_lower_projection(projection, has_join)->Ok_0;
            &&& star_is_count(items)
            &&& has_join ==> items_qualified(items)
        },
{
    let f = item_step(has_join);
    let p = |k: SpecItemKind| kind_star_is_count(k) && (has_join ==> kind_qualified(k));
    assert forall|i: int| 0 <= i < projection.len() && (#[trigger] f(projection[i])) is Ok implies p(f(projection[i])->Ok_0) by {
        let item = projection[i];
        match item {
            SqlSelectItem::UnnamedExpr(SqlExpr::Function(function)) => {
                match crate::projection::spec_single_argument(function) {
                    Ok(crate::projection::SpecArgument::Column(expr)) => {
                        if has_join {
                            lemma_column_joined(expr);
                        }
                    },
                    _ => {},
                }
            },
            SqlSelectItem::UnnamedExpr(expr) => {
                if has_join {
                    lemma_column_joined(expr);
                }
            },
            _ => {},
        }
    }
    lemma_collect_all_holds(projection, f, p);
    if spec_lower_projection(projection, has_join) is Ok && !crate::projection::spec_is_wildcard(projection) {
        let kinds = spec_classify(projection, has_join)->Ok_0;
        let items = spec_assemble(kinds)->Ok_0;
        assert(forall|i: int| 0 <= i < kinds.len() ==> #[trigger] p(kinds[i]));
        match items {
            SpecItems::Columns(cs) => {
                assert forall|i: int| 0 <= i < cs.len() && has_join implies #[trigger] qualified(cs[i]) by {
                    assert(p(kinds[i]));
                    assert(kinds[i] is Column);
                }
            },
            SpecItems::Aggregates(aggs) => {
                assert forall|i: int| 0 <= i < aggs.len() implies (#[trigger] aggs[i]).column is None
                    ==> aggs[i].function == AggregateFunction::Count by {
                    assert(p(kinds[i]));
                    assert(kinds[i] is Aggregate);
                }
                assert forall|i: int| 0 <= i < aggs.len() && has_join implies opt_qualified((#[trigger] aggs[i]).column) by {
                    assert(p(kinds[i]));
                    assert(kinds[i] is Aggregate);
                }
            },
            SpecItems::All => {},
        }
    }
}

proof fn lemma_order_joined(order_by: Option<SqlOrderBy>, items: SpecItems)
    ensures
        spec_lower_order(order_by, items, true) is Ok ==> {
            let keys = spec_lower_order(order_by, items, true)->Ok_0;
            forall|i: int| 0 <= i < keys.len() ==> #[trigger] qualified(keys[i].column)
        },
{
    if let Some(clause) = order_by {
        let f = order_key_step(true);
        let p = |k: SpecOrderKey| qualified(k.column);
        let exprs = clause.exprs@;
        assert forall|i: int| 0 <= i < exprs.len() && (#[trigger] f(exprs[i])) is Ok implies p(f(exprs[i])->Ok_0) by {
            lemma_column_joined(exprs[i].expr);
        }
        lemma_collect_all_holds(exprs, f, p);
        if spec_lower_order(order_by, items, true) is Ok && !(items is Aggregates) {
            let keys = spec_lower_order(order_by, items, true)->Ok_0;
            assert forall|i: int| 0 <= i < keys.len() implies #[trigger] qualified(keys[i].column) by {
                assert(p(keys[i]));
            }
        }
    }
}

/// Every SELECT that the lowering accepts is well formed ([`select_well_formed`]).
pub proof fn lemma_select_well_formed(select: SqlSelect, order_by: Option<SqlOrderBy>)
    requires
        spec_lower_select(select, order_by) is Ok,
    ensures
        select_well_formed(spec_lower_select(select, order_by)->Ok_0),
{
    let from = spec_single_from(select.from@)->Ok_0;
    let name = spec_table_name(from.relation)->Ok_0;
    let join = spec_lower_join(from.joins@, name)->Ok_0;
    let has_join = join is Some;
    lemma_items(select.projection@, has_join);
    let items = spec_lower_projection(select.projection@, has_join)->Ok_0;
    if has_join {
        let joined = from.joins@[0];
        let condition = crate::join::spec_join_on(joined.join_operator)->Ok_0;
        match condition {
            SqlExpr::BinaryOp { left, op: SqlBinaryOperator::Eq, right } => {
                lemma_column_joined(*left);
                lemma_column_joined(*right);
            },
            _ => {},
        }
        if let Some(e) = select.selection {
            lemma_filter_joined(e);
        }
        lemma_order_joined(order_by, items);
    }
}

/// A condition that the lowering accepts with a join lowers to the same
/// filter without one: a join only narrows what is accepted.
pub proof fn lemma_join_narrows_filter(e: SqlExpr)
    ensures
        spec_filter(e, true) is Ok ==> spec_filter(e, false) == spec_filter(e, true),
    decreases e,
{
    match e {
        SqlExpr::BinaryOp { left, op: SqlBinaryOperator::And, right } => {
            lemma_join_narrows_filter(*left);
            lemma_join_narrows_filter(*right);
        },
        SqlExpr::BinaryOp { left, op: SqlBinaryOperator::Or, right } => {
            lemma_join_narrows_filter(*left);
            lemma_join_narrows_filter(*right);
        },
        SqlExpr::Nested(inner) => {
            lemma_join_narrows_filter(*inner);
        },
        _ => {},
    }
}

/// `-n` reads as the negation of `n` wherever `n` reads as an integer
/// (a number as written carries no sign of its own).
pub proof fn lemma_negative_integer(number: Seq<char>)
    requires
        number.len() == 0 || number[0] != '-',
    ensures
        spec_integer_scalar(number, false) is Ok ==> spec_integer_scalar(number, true) == Ok::<SpecScalar, SpecRefusal>(
            SpecScalar::Integer(-(spec_integer_scalar(number, false)->Ok_0->Integer_0)),
        ),
{
    let signed = spec_signed_text(number, true);
    assert(signed.skip(1) =~= number);
}

pub open spec fn names_construct<T>(r: Result<T, SpecRefusal>) -> bool {
    r is Err ==> r->Err_0 is Outside
}

pub open spec fn is_outside(e: SpecRefusal) -> bool {
    e is Outside
}

proof fn lemma_filter_outside(e: SqlExpr, has_join: bool)
    ensures
        names_construct(spec_filter(e, has_join)),
    decreases e,
{
    match e {
        SqlExpr::BinaryOp { left, op: SqlBinaryOperator::And, right } => {
            lemma_filter_outside(*left, has_join);
            lemma_filter_outside(*right, has_join);
        },
        SqlExpr::BinaryOp { left, op: SqlBinaryOperator::Or, right } => {
            lemma_filter_outside(*left, has_join);
            lemma_filter_outside(*right, has_join);
        },
        SqlExpr::Nested(inner) => {
            lemma_filter_outside(*inner, has_join);
        },
        _ => {},
    }
}

proof fn lemma_select_outside(select: SqlSelect, order_by: Option<SqlOrderBy>)
    ensures
        names_construct(spec_lower_select(select, order_by)),
{
    let q = |e: SpecRefusal| is_outside(e);
    if let Some(e) = select.selection {
        lemma_filter_outside(e, true);
        lemma_filter_outside(e, false);
    }
    let projection = select.projection@;
    assert forall|i: int| 0 <= i < projection.len() && (#[trigger] item_step(true)(projection[i])) is Err
        implies q(item_step(true)(projection[i])->Err_0) by {}
    assert forall|i: int| 0 <= i < projection.len() && (#[trigger] item_step(false)(projection[i])) is Err
        implies q(item_step(false)(projection[i])->Err_0) by {}
    lemma_collect_all_refusal(projection, item_step(true), q);
    lemma_collect_all_refusal(projection, item_step(false), q);
    if let Some(clause) = order_by {
        let exprs = clause.exprs@;
        assert forall|i: int| 0 <= i < exprs.len() && (#[trigger] order_key_step(true)(exprs[i])) is Err
            implies q(order_key_step(true)(exprs[i])->Err_0) by {}
        assert forall|i: int| 0 <= i < exprs.len() && (#[trigger] order_key_step(false)(exprs[i])) is Err
            implies q(order_key_step(false)(exprs[i])->Err_0) by {}
        lemma_collect_all_refusal(exprs, order_key_step(true), q);
        lemma_collect_all_refusal(exprs, order_key_step(false), q);
    }
}

/// Every refusal of a query names a construct outside the subset.
pub proof fn lemma_query_refusal_names_construct(query: SqlQuery)
    ensures
        names_construct(spec_lower_query(query)),
{
    if let SqlSetExpr::Select(select) = *query.body {
        lemma_select_outside(*select, query.order_by);
    }
}

/// Every refusal of a statement names a construct outside the subset.
pub proof fn lemma_statement_refusal_names_construct(statement: SqlStatement)
    ensures
        names_construct(spec_lower_statement(statement)),
{
    let q = |e: SpecRefusal| is_outside(e);
    match statement {
        SqlStatement::Query(query) => lemma_query_refusal_names_construct(*query),
        SqlStatement::Insert(insert) => {
            if let Some(source) = insert.source {
                if let SqlSetExpr::Values(rows) = *source.body {
                    if rows.len() == 1 {
                        let row = rows[0]@;
                        assert forall|i: int| 0 <= i < row.len() && (#[trigger] value_step()(row[i])) is Err
                            implies q(value_step()(row[i])->Err_0) by {}
                        lemma_collect_all_refusal(row, value_step(), q);
                    }
                }
            }
        },
        SqlStatement::Update { table, assignments, from, selection, returning, or } => {
            let sets = assignments@;
            assert forall|i: int| 0 <= i < sets.len() && (#[trigger] assignment_step()(sets[i])) is Err
                implies q(assignment_step()(sets[i])->Err_0) by {}
            lemma_collect_all_refusal(sets, assignment_step(), q);
            if let Some(e) = selection {
                lemma_filter_outside(e, false);
            }
        },
        SqlStatement::Delete(delete) => {
            if let Some(e) = delete.selection {
                lemma_filter_outside(e, false);
            }
        },
        _ => {},
    }
}

/// A text is refused as invalid only where the parser rejects it (with the
/// parser's message) or where it holds no statement; every other refusal
/// names a construct outside the subset.
pub proof fn lemma_invalid_only_when_unparsed(text: Seq<char>)
    ensures
        spec_parse(text) matches Err(SpecRefusal::Invalid(message)) ==> sql_syntax(text) == Err::<Seq<SqlStatement>, Seq<char>>(message)
            || (sql_syntax(text) == Ok::<Seq<SqlStatement>, Seq<char>>(Seq::empty()) && message == "no statement to run"@),
{
    if let Ok(statements) = sql_syntax(text) {
        if statements.len() == 1 {
            if let SqlStatement::Query(query) = statements[0] {
                lemma_query_refusal_names_construct(*query);
            }
        }
        if statements.len() == 0 {
            assert(statements =~= Seq::<SqlStatement>::empty());
        }
    }
}

/// A text that is handed to the parser and holds one query lowers, through
/// [`crate::statement::parse`], to the SELECT that
/// [`crate::statement::lower_statement`] gives for its statement, or to the
/// same refusal.
pub proof fn lemma_parse_agrees_with_lower_statement(text: Seq<char>)
    requires
        !kept_from_parser(text),
        sql_syntax(text) is Ok,
        sql_syntax(text)->Ok_0.len() == 1,
        sql_syntax(text)->Ok_0[0] is Query,
    ensures
        spec_lower_statement(sql_syntax(text)->Ok_0[0]) == (match spec_parse(text) {
            Ok(select) => Ok(SpecCommand::Select(select)),
            Err(e) => Err(e),
        }),
{
}

/// A text that is kept from the parser is refused, as outside the subset,
/// whatever the parser would have made of it.
pub proof fn lemma_kept_text_refused(text: Seq<char>)
    requires
        kept_from_parser(text),
    ensures
        spec_parse(text) matches Err(SpecRefusal::Outside(_)),
{
}

/// An aggregate item reads exactly what its one argument names: the function
/// its name spells, and, for an argument that is a column expression, that
/// column. Only `COUNT(*)` has no column.
pub proof fn lemma_aggregate_reads_its_argument(function: SqlFunction, has_join: bool)
    ensures
        spec_lower_item(SqlSelectItem::UnnamedExpr(SqlExpr::Function(function)), has_join) matches Ok(SpecItemKind::Aggregate(a)) ==> {
            &&& spec_aggregate_function_of(function.name) == Ok::<AggregateFunction, SpecRefusal>(a.function)
            &&& function.args matches SqlFunctionArguments::List(list)
            &&& list.args@.len() == 1
            &&& match list.args@[0] {
                SqlFunctionArg::Unnamed(SqlFunctionArgExpr::Expr(e)) => a.column is Some
                    && spec_column_ref_of(e, has_join) == Ok::<SpecColumnRef, SpecRefusal>(a.column->Some_0),
                SqlFunctionArg::Unnamed(SqlFunctionArgExpr::Wildcard) => a.column is None
                    && a.function == AggregateFunction::Count,
                _ => false,
            }
        },
{
}

/// OR and AND keep both of their lowered sides whole, the left one first: a
/// connective lowers exactly when both sides do, and to the connective of the
/// two lowered sides.
pub proof fn lemma_connectives_keep_both_sides(left: SqlExpr, right: SqlExpr, has_join: bool)
    ensures
        ({
            let or = SqlExpr::BinaryOp { left: Box::new(left), op: SqlBinaryOperator::Or, right: Box::new(right) };
            &&& spec_filter(or, has_join) is Ok <==> spec_filter(left, has_join) is Ok && spec_filter(right, has_join) is Ok
            &&& spec_filter(or, has_join) is Ok ==> spec_filter(or, has_join) == Ok::<SpecFilter, SpecRefusal>(SpecFilter::Or(
                Box::new(spec_filter(left, has_join)->Ok_0),
                Box::new(spec_filter(right, has_join)->Ok_0),
            ))
        }),
        ({
            let and = SqlExpr::BinaryOp { left: Box::new(left), op: SqlBinaryOperator::And, right: Box::new(right) };
            &&& spec_filter(and, has_join) is Ok <==> spec_filter(left, has_join) is Ok && spec_filter(right, has_join) is Ok
            &&& spec_filter(and, has_join) is Ok ==> spec_filter(and, has_join) == Ok::<SpecFilter, SpecRefusal>(SpecFilter::And(
                Box::new(spec_filter(left, has_join)->Ok_0),
                Box::new(spec_filter(right, has_join)->Ok_0),
            ))
        }),
{
}

/// Where the items are not aggregates, ORDER BY lowers to one key per
/// expression, in order: key `i` reads the column of expression `i` and is
/// descending exactly where `DESC` is written. It is refused only where one
/// of its keys is. No ORDER BY gives no keys.
pub proof fn lemma_order_keeps_every_key(order_by: SqlOrderBy, items: SpecItems, has_join: bool)
    requires
        !(items is Aggregates),
    ensures
        spec_lower_order(None, items, has_join) == Ok::<Seq<SpecOrderKey>, SpecRefusal>(Seq::empty()),
        spec_lower_order(Some(order_by), items, has_join) is Ok
            <==> forall|i: int| 0 <= i < order_by.exprs@.len() ==> (#[trigger] spec_lower_order_key(order_by.exprs@[i], has_join)) is Ok,
        spec_lower_order(Some(order_by), items, has_join) matches Ok(keys) ==> {
            &&& keys.len() == order_by.exprs@.len()
            &&& forall|i: int| 0 <= i < keys.len() ==> {
                &&& spec_order_column(order_by.exprs@[i].expr, has_join) == Ok::<SpecColumnRef, SpecRefusal>((#[trigger] keys[i]).column)
                &&& (keys[i].direction == Direction::Descending <==> order_by.exprs@[i].asc == Some(false))
            }
        },
{
    let f = order_key_step(has_join);
    lemma_collect_all_pointwise(order_by.exprs@, f);
    assert forall|i: int| 0 <= i < order_by.exprs@.len() implies
        f(order_by.exprs@[i]) == #[trigger] spec_lower_order_key(order_by.exprs@[i], has_join) by {}
    if spec_lower_order(Some(order_by), items, has_join) is Ok {
        let keys = spec_lower_order(Some(order_by), items, has_join)->Ok_0;
        assert forall|i: int| 0 <= i < keys.len() implies {
            &&& spec_order_column(order_by.exprs@[i].expr, has_join) == Ok::<SpecColumnRef, SpecRefusal>((#[trigger] keys[i]).column)
            &&& (keys[i].direction == Direction::Descending <==> order_by.exprs@[i].asc == Some(false))
        } by {
            assert(f(order_by.exprs@[i]) == Ok::<SpecOrderKey, SpecRefusal>(keys[i]));
        }
    }
}

/// A DELETE deletes from the table it names the rows its WHERE clause picks:
/// its filter is the lowered WHERE clause, and it has no filter only where it
/// has no WHERE clause.
pub proof fn lemma_delete_keeps_its_condition(delete: SqlDelete)
    ensures
        spec_lower_delete(delete) is Ok ==> spec_lower_delete(delete)->Ok_0 is Delete,
        spec_lower_delete(delete) matches Ok(SpecWrite::Delete(rows)) ==> {
            &&& spec_delete_table(delete) == Ok::<Seq<char>, SpecRefusal>(rows.table)
            &&& match delete.selection {
                None => rows.filter is None,
                Some(e) => rows.filter is Some && spec_filter(e, false) == Ok::<SpecFilter, SpecRefusal>(rows.filter->Some_0),
            }
        },
{
}

/// The value written for an expression is `None` for NULL, and otherwise the
/// scalar that the expression denotes as a literal: a boolean is written as
/// itself, a string as its text.
pub proof fn lemma_written_value_is_the_literal(expr: SqlExpr)
    ensures
        expr == SqlExpr::Value(SqlValue::Null) ==> spec_value_of(expr) == Ok::<Option<SpecScalar>, SpecRefusal>(None),
        expr != SqlExpr::Value(SqlValue::Null) ==> spec_value_of(expr) == (match spec_literal_of(expr) {
            Ok(s) => Ok::<Option<SpecScalar>, SpecRefusal>(Some(s)),
            Err(e) => Err(e),
        }),
        forall|b: bool| spec_value_of(SqlExpr::Value(SqlValue::Boolean(b)))
            == Ok::<Option<SpecScalar>, SpecRefusal>(Some(SpecScalar::Boolean(b))),
        forall|t: String| spec_value_of(SqlExpr::Value(SqlValue::SingleQuotedString(t)))
            == Ok::<Option<SpecScalar>, SpecRefusal>(Some(SpecScalar::Text(t@))),
{
}

/// The row an INSERT writes holds one value per expression of its VALUES
/// row, in order: `None` for NULL, else the scalar of the literal.
pub proof fn lemma_insert_writes_each_literal(source: SqlQuery)
    ensures
        spec_insert_row(Some(Box::new(source))) matches Ok(values) ==> {
            &&& *source.body matches SqlSetExpr::Values(rows)
            &&& rows.len() == 1
            &&& values.len() == rows[0]@.len()
            &&& forall|k: int| 0 <= k < values.len() ==> if rows[0]@[k] == SqlExpr::Value(SqlValue::Null) {
                (#[trigger] values[k]) is None
            } else {
                values[k] is Some && spec_literal_of(rows[0]@[k]) == Ok::<SpecScalar, SpecRefusal>(values[k]->Some_0)
            }
        },
{
    if let SqlSetExpr::Values(rows) = *source.body {
        if rows.len() == 1 {
            let f = value_step();
            lemma_collect_all_pointwise(rows[0]@, f);
            if spec_insert_row(Some(Box::new(source))) is Ok {
                let values = spec_insert_row(Some(Box::new(source)))->Ok_0;
                assert forall|k: int| 0 <= k < values.len() implies if rows[0]@[k] == SqlExpr::Value(SqlValue::Null) {
                    (#[trigger] values[k]) is None
                } else {
                    values[k] is Some && spec_literal_of(rows[0]@[k]) == Ok::<SpecScalar, SpecRefusal>(values[k]->Some_0)
                } by {
                    assert(f(rows[0]@[k]) == Ok::<Option<SpecScalar>, SpecRefusal>(values[k]));
                }
            }
        }
    }
}

/// A condition that is not AND or OR is one comparison of the column on its
/// left with the literal on its right, under the comparison its operator
/// names; IS NULL and IS NOT NULL test the column they wrap; parentheses
/// change nothing.
pub proof fn lemma_leaf_conditions(left: SqlExpr, op: SqlBinaryOperator, right: SqlExpr, has_join: bool)
    ensures
        !(op is And) && !(op is Or) ==> (spec_filter(SqlExpr::BinaryOp { left: Box::new(left), op, right: Box::new(right) }, has_join)
            matches Ok(f) ==> {
                &&& f matches SpecFilter::Compare { column, comparison, value }
                &&& spec_column_ref_of(left, has_join) == Ok::<SpecColumnRef, SpecRefusal>(column)
                &&& spec_literal_of(right) == Ok::<SpecScalar, SpecRefusal>(value)
                &&& (op is Eq <==> comparison == Comparison::Equal)
                &&& (op is NotEq <==> comparison == Comparison::NotEqual)
                &&& (op is Lt <==> comparison == Comparison::Less)
                &&& (op is LtEq <==> comparison == Comparison::LessOrEqual)
                &&& (op is Gt <==> comparison == Comparison::Greater)
                &&& (op is GtEq <==> comparison == Comparison::GreaterOrEqual)
            }),
        spec_filter(SqlExpr::IsNull(Box::new(left)), has_join) matches Ok(f) ==> (f matches SpecFilter::IsNull(c)
            && spec_column_ref_of(left, has_join) == Ok::<SpecColumnRef, SpecRefusal>(c)),
        spec_filter(SqlExpr::IsNotNull(Box::new(left)), has_join) matches Ok(f) ==> (f matches SpecFilter::IsNotNull(c)
            && spec_column_ref_of(left, has_join) == Ok::<SpecColumnRef, SpecRefusal>(c)),
        spec_filter(SqlExpr::Nested(Box::new(left)), has_join) == spec_filter(left, has_join),
{
}

/// An INSERT writes into the table it names, the columns it lists, in order,
/// and the row its VALUES clause holds.
pub proof fn lemma_insert_keeps_table_and_columns(insert: SqlInsert)
    ensures
        spec_lower_insert(insert) is Ok ==> spec_lower_insert(insert)->Ok_0 is Insert,
        spec_lower_insert(insert) matches Ok(SpecWrite::Insert(row)) ==> {
            &&& spec_table_object_name(insert.table) == Ok::<Seq<char>, SpecRefusal>(row.table)
            &&& insert.table matches SqlTableObject::TableName(name)
            &&& name.0.len() == 1 && row.table == name.0[0].value@
            &&& row.columns.len() == insert.columns@.len()
            &&& forall|k: int| 0 <= k < row.columns.len() ==> #[trigger] row.columns[k] == insert.columns@[k].value@
            &&& spec_insert_row(insert.source) == Ok::<Seq<Option<SpecScalar>>, SpecRefusal>(row.values)
        },
{
}

/// An UPDATE changes the table it names, in the rows its WHERE clause picks
/// (all of them only where it has none), and sets, one for one and in order,
/// each column it names to the value of its literal.
pub proof fn lemma_update_keeps_every_assignment(statement: SqlStatement)
    ensures
        spec_lower_update(statement) is Ok ==> spec_lower_update(statement)->Ok_0 is Update,
        spec_lower_update(statement) matches Ok(SpecWrite::Update(u)) ==> {
            &&& statement matches SqlStatement::Update { table, assignments, selection, .. }
            &&& spec_sole_table(table) == Ok::<Seq<char>, SpecRefusal>(u.table)
            &&& u.assignments.len() == assignments@.len()
            &&& forall|k: int| 0 <= k < u.assignments.len() ==> {
                &&& assignments@[k].target matches SqlAssignmentTarget::ColumnName(name)
                &&& name.0.len() == 1
                &&& (#[trigger] u.assignments[k]).column == name.0[0].value@
                &&& spec_value_of(assignments@[k].value) == Ok::<Option<SpecScalar>, SpecRefusal>(u.assignments[k].value)
            }
            &&& match selection {
                None => u.filter is None,
                Some(e) => u.filter is Some && spec_filter(e, false) == Ok::<SpecFilter, SpecRefusal>(u.filter->Some_0),
            }
        },
{
    if let SqlStatement::Update { table, assignments, from, selection, returning, or } = statement {
        let f = assignment_step();
        lemma_collect_all_pointwise(assignments@, f);
        if spec_lower_update(statement) is Ok {
            let u = spec_lower_update(statement)->Ok_0->Update_0;
            assert forall|k: int| 0 <= k < u.assignments.len() implies {
                &&& assignments@[k].target matches SqlAssignmentTarget::ColumnName(name)
                &&& name.0.len() == 1
                &&& (#[trigger] u.assignments[k]).column == name.0[0].value@
                &&& spec_value_of(assignments@[k].value) == Ok::<Option<SpecScalar>, SpecRefusal>(u.assignments[k].value)
            } by {
                assert(f(assignments@[k]) == Ok::<crate::query::SpecColumnAssignment, SpecRefusal>(u.assignments[k]));
            }
        }
    }
}

/// The columns `cs` are, one for one and in order, the columns that the
/// items of `projection` name.
pub open spec fn columns_read(projection: Seq<SqlSelectItem>, cs: Seq<SpecColumnRef>, has_join: bool) -> bool {
    &&& cs.len() == projection.len()
    &&& forall|i: int| 0 <= i < cs.len() ==> names_column(#[trigger] projection[i], cs[i], has_join)
}

/// The item is a plain expression, not a function call, that names column `c`.
pub open spec fn names_column(item: SqlSelectItem, c: SpecColumnRef, has_join: bool) -> bool {
    match item {
        SqlSelectItem::UnnamedExpr(SqlExpr::Function(_)) => false,
        SqlSelectItem::UnnamedExpr(e) => spec_column_ref_of(e, has_join) == Ok::<SpecColumnRef, SpecRefusal>(c),
        _ => false,
    }
}

/// The aggregates `aggs` are, one for one and in order, the aggregates that
/// the items of `projection` call.
pub open spec fn aggregates_read(projection: Seq<SqlSelectItem>, aggs: Seq<crate::query::SpecAggregate>, has_join: bool) -> bool {
    &&& aggs.len() == projection.len()
    &&& forall|i: int| 0 <= i < aggs.len() ==> {
        &&& projection[i] matches SqlSelectItem::UnnamedExpr(SqlExpr::Function(_))
        &&& spec_lower_item(projection[i], has_join) == Ok::<SpecItemKind, SpecRefusal>(SpecItemKind::Aggregate(#[trigger] aggs[i]))
    }
}

/// A SELECT list lowers item for item: `*` alone is all columns; otherwise
/// every item is a column, giving the columns in order, or every item is an
/// aggregate, giving the aggregates in order.
pub proof fn lemma_projection_keeps_every_item(projection: Seq<SqlSelectItem>, has_join: bool)
    ensures
        spec_lower_projection(projection, has_join) matches Ok(SpecItems::All) ==> projection.len() == 1
            && projection[0] is Wildcard,
        spec_lower_projection(projection, has_join) matches Ok(SpecItems::Columns(cs)) ==> columns_read(projection, cs, has_join),
        spec_lower_projection(projection, has_join) matches Ok(SpecItems::Aggregates(aggs)) ==> aggregates_read(projection, aggs, has_join),
{
    let f = item_step(has_join);
    lemma_collect_all_pointwise(projection, f);
    if !spec_is_wildcard(projection) && spec_classify(projection, has_join) is Ok {
        let kinds = spec_classify(projection, has_join)->Ok_0;
        assert forall|i: int| 0 <= i < projection.len() implies
            spec_lower_item(projection[i], has_join) == Ok::<SpecItemKind, SpecRefusal>(#[trigger] kinds[i]) by {
            assert(f(projection[i]) == Ok::<SpecItemKind, SpecRefusal>(kinds[i]));
        }
        if let Ok(SpecItems::Columns(cs)) = spec_lower_projection(projection, has_join) {
            assert(crate::projection::all_columns(kinds));
            assert(cs == kinds.map_values(|k: SpecItemKind| k->Column_0));
            assert(cs.len() == projection.len());
            assert forall|i: int| 0 <= i < cs.len() implies names_column(#[trigger] projection[i], cs[i], has_join) by {
                assert(kinds[i] is Column);
                assert(cs[i] == kinds[i]->Column_0);
                assert(spec_lower_item(projection[i], has_join) == Ok::<SpecItemKind, SpecRefusal>(kinds[i]));
            }
            assert(columns_read(projection, cs, has_join));
        }
        if let Ok(SpecItems::Aggregates(aggs)) = spec_lower_projection(projection, has_join) {
            assert(!crate::projection::all_columns(kinds) || kinds.len() == 0);
            assert forall|i: int| 0 <= i < aggs.len() implies {
                &&& projection[i] matches SqlSelectItem::UnnamedExpr(SqlExpr::Function(_))
                &&& spec_lower_item(projection[i], has_join) == Ok::<SpecItemKind, SpecRefusal>(SpecItemKind::Aggregate(#[trigger] aggs[i]))
            } by {
                assert(kinds[i] is Aggregate);
                assert(aggs[i] == kinds[i]->Aggregate_0);
                assert(spec_lower_item(projection[i], has_join) == Ok::<SpecItemKind, SpecRefusal>(kinds[i]));
            }
            assert(aggregates_read(projection, aggs, has_join));
        }
    }
}

/// A SELECT is lowered from its parts: the one table of its FROM, the join
/// on it, its SELECT list, its WHERE clause (no filter only where it has
/// none) and its ORDER BY, each read as it stands.
pub proof fn lemma_select_assembles_its_parts(select: SqlSelect, order_by: Option<SqlOrderBy>)
    ensures
        spec_lower_select(select, order_by) matches Ok(q) ==> {
            let has_join = q.join is Some;
            &&& spec_single_from(select.from@) matches Ok(from)
            &&& spec_table_name(from.relation) == Ok::<Seq<char>, SpecRefusal>(q.from)
            &&& spec_lower_join(from.joins@, q.from) == Ok::<Option<crate::query::SpecJoin>, SpecRefusal>(q.join)
            &&& spec_lower_projection(select.projection@, has_join) == Ok::<SpecItems, SpecRefusal>(q.items)
            &&& match select.selection {
                None => q.filter is None,
                Some(e) => q.filter is Some && spec_filter(e, has_join) == Ok::<SpecFilter, SpecRefusal>(q.filter->Some_0),
            }
            &&& spec_lower_order(order_by, q.items, has_join) == Ok::<Seq<SpecOrderKey>, SpecRefusal>(q.order)
        },
{
}

/// Each kind of statement lowers to the command of its own kind, from its
/// own parts: a query to a SELECT, INSERT, UPDATE and DELETE to the write of
/// that kind, and BEGIN, COMMIT and ROLLBACK, which carry no options, to the
/// transaction command they name.
pub proof fn lemma_statement_keeps_its_kind(statement: SqlStatement)
    ensures
        spec_lower_statement(statement) matches Ok(c) ==> match statement {
            SqlStatement::Query(q) => c is Select && spec_lower_query(*q) == Ok::<SpecSelectQuery, SpecRefusal>(c->Select_0),
            SqlStatement::Insert(i) => c is Write && c->Write_0 is Insert
                && spec_lower_insert(i) == Ok::<SpecWrite, SpecRefusal>(c->Write_0),
            SqlStatement::Update { .. } => c is Write && c->Write_0 is Update
                && spec_lower_update(statement) == Ok::<SpecWrite, SpecRefusal>(c->Write_0),
            SqlStatement::Delete(d) => c is Write && c->Write_0 is Delete
                && spec_lower_delete(d) == Ok::<SpecWrite, SpecRefusal>(c->Write_0),
            SqlStatement::StartTransaction { modes, modifier } => c is Begin && modes == 0 && !modifier,
            SqlStatement::Commit { chain, end, modifier } => c is Commit && !chain && !end && !modifier,
            SqlStatement::Rollback { chain, savepoint } => c is Rollback && !chain && savepoint is None,
            SqlStatement::Other => false,
        },
        spec_lower_statement(SqlStatement::StartTransaction { modes: 0, modifier: false }) == Ok::<SpecCommand, SpecRefusal>(SpecCommand::Begin),
        spec_lower_statement(SqlStatement::Commit { chain: false, end: false, modifier: false }) == Ok::<SpecCommand, SpecRefusal>(SpecCommand::Commit),
        spec_lower_statement(SqlStatement::Rollback { chain: false, savepoint: None }) == Ok::<SpecCommand, SpecRefusal>(SpecCommand::Rollback),
{
}

/// A join is one inner join with another table, on one equality of two
/// qualified columns: the joined table is the one it names, and its two
/// columns are the two sides of the equality, left and right.
pub proof fn lemma_join_reads_its_equality(joins: Seq<SqlJoin>, from_name: Seq<char>)
    ensures
        spec_lower_join(joins, from_name) == Ok::<Option<crate::query::SpecJoin>, SpecRefusal>(None) <==> joins.len() == 0,
        spec_lower_join(joins, from_name) matches Ok(Some(j)) ==> {
            &&& joins.len() == 1
            &&& spec_table_name(joins[0].relation) == Ok::<Seq<char>, SpecRefusal>(j.table)
            &&& j.table != from_name
            &&& joins[0].join_operator matches SqlJoinOperator::Inner(SqlJoinConstraint::On(SqlExpr::BinaryOp { left, op: SqlBinaryOperator::Eq, right }))
            &&& spec_column_ref_of(*left, true) == Ok::<SpecColumnRef, SpecRefusal>(j.left)
            &&& spec_column_ref_of(*right, true) == Ok::<SpecColumnRef, SpecRefusal>(j.right)
        },
{
}

/// Digits read in base ten, the most significant first: one more digit at
/// the end multiplies what comes before it by ten and adds itself, and no
/// digits read as zero.
pub proof fn lemma_digits_read_in_base_ten(digits: Seq<char>, last: char)
    ensures
        digits_value(Seq::empty()) == 0,
        digits_value(digits.push(last)) == 10 * digits_value(digits) + (last as int - '0' as int),
{
    assert(digits.push(last).drop_last() =~= digits);
}

/// An unsigned number without a fraction or an exponent, within `i64`, reads
/// as the integer its digits denote; with a minus sign, as its negation.
pub proof fn lemma_integer_literal(number: Seq<char>)
    requires
        number.len() > 0,
        forall|i: int| 0 <= i < number.len() ==> '0' <= #[trigger] number[i] <= '9',
    ensures
        digits_value(number) <= 0x7fff_ffff_ffff_ffff ==> crate::literal::spec_number_scalar(number, false)
            == Ok::<SpecScalar, SpecRefusal>(SpecScalar::Integer(digits_value(number))),
        digits_value(number) <= 0x8000_0000_0000_0000 ==> crate::literal::spec_number_scalar(number, true)
            == Ok::<SpecScalar, SpecRefusal>(SpecScalar::Integer(-digits_value(number))),
{
    assert(!number.contains('.') && !number.contains('e') && !number.contains('E')) by {
        if number.contains('.') {
            let i = choose|i: int| 0 <= i < number.len() && number[i] == '.';
            assert('0' <= number[i] <= '9');
        }
        if number.contains('e') {
            let i = choose|i: int| 0 <= i < number.len() && number[i] == 'e';
            assert('0' <= number[i] <= '9');
        }
        if number.contains('E') {
            let i = choose|i: int| 0 <= i < number.len() && number[i] == 'E';
            assert('0' <= number[i] <= '9');
        }
    }
    let signed = spec_signed_text(number, true);
    assert(signed.skip(1) =~= number);
    assert(number[0] != '-') by {
        assert('0' <= number[0] <= '9');
    }
}

/// A bare column name reads as that column of no table (and is refused
/// beside a join); `table.column` reads as that column of that table.
pub proof fn lemma_column_reference_names(column: SqlIdent, parts: Vec<SqlIdent>, has_join: bool)
    ensures
        spec_column_ref_of(SqlExpr::Identifier(column), has_join) is Ok <==> !has_join,
        !has_join ==> spec_column_ref_of(SqlExpr::Identifier(column), has_join)
            == Ok::<SpecColumnRef, SpecRefusal>(SpecColumnRef { table: None, column: column.value@ }),
        parts@.len() == 2 ==> spec_column_ref_of(SqlExpr::CompoundIdentifier(parts), has_join)
            == Ok::<SpecColumnRef, SpecRefusal>(SpecColumnRef { table: Some(parts@[0].value@), column: parts@[1].value@ }),
        parts@.len() != 2 ==> spec_column_ref_of(SqlExpr::CompoundIdentifier(parts), has_join) is Err,
{
}

/// A FROM item that is a table with a one-part name and no modifiers reads as
/// that name.
pub proof fn lemma_table_is_its_name(name: SqlObjectName)
    requires
        name.0.len() == 1,
    ensures
        spec_table_name(SqlTableFactor::Table {
            name, alias: false, args: false, with_hints: false, version: false, partitions: false, sample: false,
        }) == Ok::<Seq<char>, SpecRefusal>(name.0[0].value@),
{
}

/// A function name stands for the aggregate it spells, in any case of its
/// letters: COUNT, SUM, MIN, MAX or AVG; any other name for none.
pub proof fn lemma_aggregate_names(name: Seq<char>)
    ensures
        spec_function_named(name) == Some(AggregateFunction::Count) <==> spells(name, "COUNT"@),
        spec_function_named(name) == Some(AggregateFunction::Sum) <==> spells(name, "SUM"@),
        spec_function_named(name) == Some(AggregateFunction::Min) <==> spells(name, "MIN"@),
        spec_function_named(name) == Some(AggregateFunction::Max) <==> spells(name, "MAX"@),
        spec_function_named(name) == Some(AggregateFunction::Avg) <==> spells(name, "AVG"@),
        spec_function_named(name) is None <==> !spells(name, "COUNT"@) && !spells(name, "SUM"@)
            && !spells(name, "MIN"@) && !spells(name, "MAX"@) && !spells(name, "AVG"@),
{
    reveal_strlit("COUNT");
    reveal_strlit("SUM");
    reveal_strlit("MIN");
    reveal_strlit("MAX");
    reveal_strlit("AVG");
    if spells(name, "COUNT"@) {
        assert(!spells(name, "SUM"@) && !spells(name, "MIN"@) && !spells(name, "MAX"@) && !spells(name, "AVG"@));
    }
    if spells(name, "SUM"@) {
        assert(!spells(name, "MIN"@) && !spells(name, "MAX"@) && !spells(name, "AVG"@)) by {
            assert(crate::projection::same_letter(name[0], 'S'));
        }
    }
    if spells(name, "MIN"@) {
        assert(!spells(name, "MAX"@) && !spells(name, "AVG"@)) by {
            assert(crate::projection::same_letter(name[1], 'I'));
            assert(crate::projection::same_letter(name[0], 'M'));
        }
    }
    if spells(name, "MAX"@) {
        assert(!spells(name, "AVG"@)) by {
            assert(crate::projection::same_letter(name[0], 'M'));
        }
    }
}

} // verus!
