//! SELECT lists: `*`, a list of columns, or a list of aggregates.

use vstd::prelude::*;
use crate::filter::{column_ref_of, spec_column_ref_of};
use crate::query::{
    Aggregate, AggregateFunction, ColumnRef, Items, SpecAggregate, SpecColumnRef, SpecItems,
};
use crate::refusal::{
    collect_all, lemma_collect_refused, lemma_collect_step, outside, outcome, refuse, QueryRefusal,
    SpecRefusal,
};
use crate::syntax::{
    SqlExpr, SqlFunction, SqlFunctionArg, SqlFunctionArgExpr, SqlFunctionArgumentList, SqlFunctionArguments,
    SqlObjectName, SqlSelectItem, SqlWildcardOptions,
};

verus! {

pub open spec fn spec_bare_options(options: SqlWildcardOptions) -> bool {
    !options.ilike && !options.exclude && !options.except && !options.replace && !options.rename
}

/// Whether `*` carries none of its optional modifiers.
pub fn bare_options(options: &SqlWildcardOptions) -> (r: bool)
    ensures
        r == spec_bare_options(*options),
{
    !options.ilike && !options.exclude && !options.except && !options.replace && !options.rename
}

pub open spec fn spec_plain_wildcard(item: SqlSelectItem) -> bool {
    match item {
        SqlSelectItem::Wildcard(options) => spec_bare_options(options),
        _ => false,
    }
}

/// Whether an item is a bare `*`.
pub fn plain_wildcard(item: &SqlSelectItem) -> (r: bool)
    ensures
        r == spec_plain_wildcard(*item),
{
    match item {
        SqlSelectItem::Wildcard(options) => bare_options(options),
        _ => false,
    }
}

pub open spec fn spec_is_wildcard(projection: Seq<SqlSelectItem>) -> bool {
    projection.len() == 1 && spec_plain_wildcard(projection[0])
}

/// Whether the SELECT list is a bare `*` alone.
pub fn is_wildcard(projection: &[SqlSelectItem]) -> (r: bool)
    ensures
        r == spec_is_wildcard(projection@),
{
    projection.len() == 1 && plain_wildcard(&projection[0])
}

pub open spec fn spec_reject_function_modifiers(function: SqlFunction) -> Result<(), SpecRefusal> {
    if function.over {
        refuse("window function"@)
    } else if function.filter || function.null_treatment {
        refuse("this aggregate"@)
    } else if function.within_group || !(function.parameters is Absent) {
        refuse("this aggregate"@)
    } else {
        Ok(())
    }
}

/// Refuses window functions and aggregates with modifiers.
pub fn reject_function_modifiers(function: &SqlFunction) -> (r: Result<(), QueryRefusal>)
    ensures
        outcome(r) == spec_reject_function_modifiers(*function),
{
    if function.over {
        return Err(outside("window function"));
    }
    if function.filter || function.null_treatment {
        return Err(outside("this aggregate"));
    }
    let no_parameters = match function.parameters {
        SqlFunctionArguments::Absent => true,
        _ => false,
    };
    if function.within_group || !no_parameters {
        return Err(outside("this aggregate"));
    }
    Ok(())
}

pub open spec fn spec_list_args(list: SqlFunctionArgumentList) -> Result<Seq<SqlFunctionArg>, SpecRefusal> {
    if list.duplicate_treatment {
        refuse("DISTINCT in an aggregate"@)
    } else if list.clauses {
        refuse("this aggregate"@)
    } else {
        Ok(list.args@)
    }
}

pub open spec fn args_outcome(r: Result<&[SqlFunctionArg], QueryRefusal>) -> Result<Seq<SqlFunctionArg>, SpecRefusal> {
    match r {
        Ok(args) => Ok(args@),
        Err(e) => Err(e@),
    }
}

/// The arguments of an aggregate, which takes neither DISTINCT nor trailing clauses.
pub fn list_args(list: &SqlFunctionArgumentList) -> (r: Result<&[SqlFunctionArg], QueryRefusal>)
    ensures
        args_outcome(r) == spec_list_args(*list),
{
    if list.duplicate_treatment {
        return Err(outside("DISTINCT in an aggregate"));
    }
    if list.clauses {
        return Err(outside("this aggregate"));
    }
    Ok(list.args.as_slice())
}

pub open spec fn spec_argument_list(function: SqlFunction) -> Result<Seq<SqlFunctionArg>, SpecRefusal> {
    match function.args {
        SqlFunctionArguments::List(list) => spec_list_args(list),
        _ => refuse("this aggregate"@),
    }
}

/// The argument list of a function call, which must be a plain list.
pub fn argument_list(function: &SqlFunction) -> (r: Result<&[SqlFunctionArg], QueryRefusal>)
    ensures
        args_outcome(r) == spec_argument_list(*function),
{
    match &function.args {
        SqlFunctionArguments::List(list) => list_args(list),
        _ => Err(outside("this aggregate")),
    }
}

/// The argument of an aggregate: `*`, or an expression.
pub enum Argument<'a> {
    Star,
    Column(&'a SqlExpr),
}

pub enum SpecArgument {
    Star,
    Column(SqlExpr),
}

impl<'a> View for Argument<'a> {
    type V = SpecArgument;

    open spec fn view(&self) -> SpecArgument {
        match self {
            Argument::Star => SpecArgument::Star,
            Argument::Column(e) => SpecArgument::Column(**e),
        }
    }
}

pub open spec fn spec_argument_of(arg: SqlFunctionArg) -> Result<SpecArgument, SpecRefusal> {
    match arg {
        SqlFunctionArg::Unnamed(SqlFunctionArgExpr::Wildcard) => Ok(SpecArgument::Star),
        SqlFunctionArg::Unnamed(SqlFunctionArgExpr::Expr(e)) => Ok(SpecArgument::Column(e)),
        _ => refuse("this aggregate argument"@),
    }
}

/// What an aggregate's argument is.
pub fn argument_of(arg: &SqlFunctionArg) -> (r: Result<Argument<'_>, QueryRefusal>)
    ensures
        outcome(r) == spec_argument_of(*arg),
{
    match arg {
        SqlFunctionArg::Unnamed(SqlFunctionArgExpr::Wildcard) => Ok(Argument::Star),
        SqlFunctionArg::Unnamed(SqlFunctionArgExpr::Expr(e)) => Ok(Argument::Column(e)),
        _ => Err(outside("this aggregate argument")),
    }
}

pub open spec fn spec_single_argument(function: SqlFunction) -> Result<SpecArgument, SpecRefusal> {
    match spec_argument_list(function) {
        Err(e) => Err(e),
        Ok(args) => if args.len() != 1 {
            refuse("this aggregate"@)
        } else {
            spec_argument_of(args[0])
        },
    }
}

/// The one argument of an aggregate.
pub fn single_argument<'a>(function: &'a SqlFunction) -> (r: Result<Argument<'a>, QueryRefusal>)
    ensures
        outcome(r) == spec_single_argument(*function),
{
    let args = argument_list(function)?;
    if args.len() != 1 {
        return Err(outside("this aggregate"));
    }
    argument_of(&args[0])
}

/// Whether `c` is the letter `k` in either case (`k` given in upper case).
pub open spec fn same_letter(c: char, k: char) -> bool {
    c == k || ('A' <= k && k <= 'Z' && c as u32 == k as u32 + 32)
}

/// Whether `text` spells `keyword` (given in upper case), ignoring the case of ASCII letters.
pub open spec fn spells(text: Seq<char>, keyword: Seq<char>) -> bool {
    text.len() == keyword.len() && forall|i: int| 0 <= i < text.len() ==> same_letter(#[trigger] text[i], keyword[i])
}

/// Whether `text` spells `keyword`, ignoring the case of ASCII letters.
pub fn spells_keyword(text: &str, keyword: &str) -> (r: bool)
    ensures
        r == spells(text@, keyword@),
{
    let n = text.unicode_len();
    if n != keyword.unicode_len() {
        return false;
    }
    let mut i: usize = 0;
    while i < n
        invariant
            n == text@.len(),
            n == keyword@.len(),
            i <= n,
            forall|j: int| 0 <= j < i ==> same_letter(#[trigger] text@[j], keyword@[j]),
        decreases n - i,
    {
        let c = text.get_char(i);
        let k = keyword.get_char(i);
        let same = c == k || ('A' <= k && k <= 'Z' && c as u32 == k as u32 + 32);
        if !same {
            return false;
        }
        i = i + 1;
    }
    true
}

pub open spec fn spec_function_named(name: Seq<char>) -> Option<AggregateFunction> {
    if spells(name, "COUNT"@) {
        Some(AggregateFunction::Count)
    } else if spells(name, "SUM"@) {
        Some(AggregateFunction::Sum)
    } else if spells(name, "MIN"@) {
        Some(AggregateFunction::Min)
    } else if spells(name, "MAX"@) {
        Some(AggregateFunction::Max)
    } else if spells(name, "AVG"@) {
        Some(AggregateFunction::Avg)
    } else {
        None
    }
}

pub open spec fn spec_aggregate_function_of(name: SqlObjectName) -> Result<AggregateFunction, SpecRefusal> {
    if name.0.len() != 1 {
        refuse("this function"@)
    } else {
        match spec_function_named(name.0[0].value@) {
            Some(f) => Ok(f),
            None => refuse("this function"@),
        }
    }
}

/// The aggregate function that a function name stands for, in any case.
pub fn aggregate_function_of(name: &SqlObjectName) -> (r: Result<AggregateFunction, QueryRefusal>)
    ensures
        outcome(r) == spec_aggregate_function_of(*name),
{
    if name.0.len() != 1 {
        return Err(outside("this function"));
    }
    let text = name.0[0].value.as_str();
    if spells_keyword(text, "COUNT") {
        Ok(AggregateFunction::Count)
    } else if spells_keyword(text, "SUM") {
        Ok(AggregateFunction::Sum)
    } else if spells_keyword(text, "MIN") {
        Ok(AggregateFunction::Min)
    } else if spells_keyword(text, "MAX") {
        Ok(AggregateFunction::Max)
    } else if spells_keyword(text, "AVG") {
        Ok(AggregateFunction::Avg)
    } else {
        Err(outside("this function"))
    }
}

/// One classified item of a SELECT list.
#[derive(Debug, PartialEq)]
pub enum ItemKind {
    Column(ColumnRef),
    Aggregate(Aggregate),
}

pub enum SpecItemKind {
    Column(SpecColumnRef),
    Aggregate(SpecAggregate),
}

impl View for ItemKind {
    type V = SpecItemKind;

    open spec fn view(&self) -> SpecItemKind {
        match self {
            ItemKind::Column(c) => SpecItemKind::Column(c@),
            ItemKind::Aggregate(a) => SpecItemKind::Aggregate(a@),
        }
    }
}

pub open spec fn spec_aggregate_item(function: SqlFunction, has_join: bool) -> Result<SpecItemKind, SpecRefusal> {
    match spec_reject_function_modifiers(function) {
        Err(e) => Err(e),
        Ok(_) => match spec_aggregate_function_of(function.name) {
            Err(e) => Err(e),
            Ok(f) => match spec_single_argument(function) {
                Err(e) => Err(e),
                Ok(SpecArgument::Star) => if f == AggregateFunction::Count {
                    Ok(SpecItemKind::Aggregate(SpecAggregate { function: f, column: None }))
                } else {
                    refuse("this aggregate"@)
                },
                Ok(SpecArgument::Column(expr)) => match spec_column_ref_of(expr, has_join) {
                    Err(e) => Err(e),
                    Ok(c) => Ok(SpecItemKind::Aggregate(SpecAggregate { function: f, column: Some(c) })),
                },
            },
        },
    }
}

/// An aggregate item: `COUNT(*)`, or COUNT, SUM, MIN, MAX or AVG of a column.
pub fn aggregate_item(function: &SqlFunction, has_join: bool) -> (r: Result<ItemKind, QueryRefusal>)
    ensures
        outcome(r) == spec_aggregate_item(*function, has_join),
{
    reject_function_modifiers(function)?;
    let f = aggregate_function_of(&function.name)?;
    match single_argument(function)? {
        Argument::Star => match f {
            AggregateFunction::Count => Ok(ItemKind::Aggregate(Aggregate { function: f, column: None })),
            _ => Err(outside("this aggregate")),
        },
        Argument::Column(expr) => {
            let column = column_ref_of(expr, has_join)?;
            Ok(ItemKind::Aggregate(Aggregate { function: f, column: Some(column) }))
        },
    }
}

pub open spec fn spec_column_item(expr: SqlExpr, has_join: bool) -> Result<SpecItemKind, SpecRefusal> {
    match spec_column_ref_of(expr, has_join) {
        Err(e) => Err(e),
        Ok(c) => Ok(SpecItemKind::Column(c)),
    }
}

/// A column item.
pub fn column_item(expr: &SqlExpr, has_join: bool) -> (r: Result<ItemKind, QueryRefusal>)
    ensures
        outcome(r) == spec_column_item(*expr, has_join),
{
    Ok(ItemKind::Column(column_ref_of(expr, has_join)?))
}

pub open spec fn spec_lower_item(item: SqlSelectItem, has_join: bool) -> Result<SpecItemKind, SpecRefusal> {
    match item {
        SqlSelectItem::UnnamedExpr(SqlExpr::Function(function)) => spec_aggregate_item(function, has_join),
        SqlSelectItem::UnnamedExpr(expr) => spec_column_item(expr, has_join),
        _ => refuse("this projection item"@),
    }
}

/// One item of a SELECT list, which has no alias.
pub fn lower_item(item: &SqlSelectItem, has_join: bool) -> (r: Result<ItemKind, QueryRefusal>)
    ensures
        outcome(r) == spec_lower_item(*item, has_join),
{
    match item {
        SqlSelectItem::UnnamedExpr(SqlExpr::Function(function)) => aggregate_item(function, has_join),
        SqlSelectItem::UnnamedExpr(expr) => column_item(expr, has_join),
        _ => Err(outside("this projection item")),
    }
}

pub open spec fn item_step(has_join: bool) -> spec_fn(SqlSelectItem) -> Result<SpecItemKind, SpecRefusal> {
    |item: SqlSelectItem| spec_lower_item(item, has_join)
}

/// The items of a SELECT list, each lowered; the first refusal wins.
pub open spec fn spec_classify(projection: Seq<SqlSelectItem>, has_join: bool) -> Result<Seq<SpecItemKind>, SpecRefusal> {
    collect_all(projection, item_step(has_join))
}

pub open spec fn kinds_view(kinds: Seq<ItemKind>) -> Seq<SpecItemKind> {
    kinds.map_values(|k: ItemKind| k@)
}

pub open spec fn kinds_outcome(r: Result<Vec<ItemKind>, QueryRefusal>) -> Result<Seq<SpecItemKind>, SpecRefusal> {
    match r {
        Ok(kinds) => Ok(kinds_view(kinds@)),
        Err(e) => Err(e@),
    }
}

/// Lowers every item of a SELECT list.
pub fn classify(projection: &[SqlSelectItem], has_join: bool) -> (r: Result<Vec<ItemKind>, QueryRefusal>)
    ensures
        kinds_outcome(r) == spec_classify(projection@, has_join),
{
    let ghost f = item_step(has_join);
    let mut kinds: Vec<ItemKind> = Vec::new();
    let n = projection.len();
    let mut i: usize = 0;
    assert(projection@.take(0) =~= Seq::<SqlSelectItem>::empty());
    assert(kinds_view(kinds@) =~= Seq::<SpecItemKind>::empty());
    while i < n
        invariant
            n == projection@.len(),
            i <= n,
            f == item_step(has_join),
            collect_all(projection@.take(i as int), f) == Ok::<Seq<SpecItemKind>, SpecRefusal>(kinds_view(kinds@)),
        decreases n - i,
    {
        let ghost before = kinds@;
        proof {
            lemma_collect_step(projection@, f, i as int);
        }
        let kind = match lower_item(&projection[i], has_join) {
            Ok(k) => k,
            Err(e) => {
                proof {
                    lemma_collect_refused(projection@, f, i + 1);
                }
                return Err(e);
            },
        };
        kinds.push(kind);
        assert(kinds_view(kinds@) =~= kinds_view(before).push(kind@));
        i = i + 1;
    }
    assert(projection@.take(n as int) =~= projection@);
    Ok(kinds)
}

pub open spec fn all_columns(kinds: Seq<SpecItemKind>) -> bool {
    forall|i: int| 0 <= i < kinds.len() ==> #[trigger] kinds[i] is Column
}

pub open spec fn all_aggregates(kinds: Seq<SpecItemKind>) -> bool {
    forall|i: int| 0 <= i < kinds.len() ==> #[trigger] kinds[i] is Aggregate
}

pub open spec fn spec_assemble(kinds: Seq<SpecItemKind>) -> Result<SpecItems, SpecRefusal> {
    if all_columns(kinds) {
        Ok(SpecItems::Columns(kinds.map_values(|k: SpecItemKind| k->Column_0)))
    } else if all_aggregates(kinds) {
        Ok(SpecItems::Aggregates(kinds.map_values(|k: SpecItemKind| k->Aggregate_0)))
    } else {
        refuse("columns mixed with aggregates"@)
    }
}

/// The items of a SELECT list: all columns, or all aggregates.
pub fn assemble(kinds: Vec<ItemKind>) -> (r: Result<Items, QueryRefusal>)
    ensures
        outcome(r) == spec_assemble(kinds_view(kinds@)),
{
    let ghost all = kinds_view(kinds@);
    let n = kinds.len();
    let mut rest = kinds;
    let mut columns: Vec<ColumnRef> = Vec::new();
    let mut aggregates: Vec<Aggregate> = Vec::new();
    let mut i: usize = 0;
    assert(all.take(0) =~= Seq::<SpecItemKind>::empty());
    assert(columns@.map_values(|c: ColumnRef| c@) =~= Seq::<SpecColumnRef>::empty());
    assert(aggregates@.map_values(|a: Aggregate| a@) =~= Seq::<SpecAggregate>::empty());
    while i < n
        invariant
            i <= n,
            n == all.len(),
            kinds_view(rest@) =~= all.skip(i as int),
            rest@.len() == n - i,
            columns.len() == 0 <==> all_aggregates(all.take(i as int)),
            aggregates.len() == 0 <==> all_columns(all.take(i as int)),
            all_columns(all.take(i as int)) ==> columns@.map_values(|c: ColumnRef| c@)
                =~= all.take(i as int).map_values(|k: SpecItemKind| k->Column_0),
            all_aggregates(all.take(i as int)) ==> aggregates@.map_values(|a: Aggregate| a@)
                =~= all.take(i as int).map_values(|k: SpecItemKind| k->Aggregate_0),
        decreases n - i,
    {
        let ghost cols0 = columns@;
        let ghost aggs0 = aggregates@;
        let ghost rest0 = rest@;
        let kind = rest.remove(0);
        assert(kinds_view(rest0)[0] == all.skip(i as int)[0]);
        assert(all[i as int] == kind@);
        assert(kinds_view(rest@) =~= kinds_view(rest0).skip(1));
        assert(all.take(i + 1) =~= all.take(i as int).push(kind@));
        match kind {
            ItemKind::Column(c) => {
                columns.push(c);
                assert(columns@.map_values(|c: ColumnRef| c@) =~= cols0.map_values(|c: ColumnRef| c@).push(c@));
                assert(!all_aggregates(all.take(i + 1))) by {
                    assert(!(all.take(i + 1)[i as int] is Aggregate));
                }
            },
            ItemKind::Aggregate(a) => {
                aggregates.push(a);
                assert(aggregates@.map_values(|a: Aggregate| a@) =~= aggs0.map_values(|a: Aggregate| a@).push(a@));
                assert(!all_columns(all.take(i + 1))) by {
                    assert(!(all.take(i + 1)[i as int] is Column));
                }
            },
        }
        assert(kinds_view(rest@) =~= all.skip(i + 1));
        i = i + 1;
    }
    assert(all.take(n as int) =~= all);
    if aggregates.len() == 0 {
        return Ok(Items::Columns(columns));
    }
    if columns.len() == 0 {
        return Ok(Items::Aggregates(aggregates));
    }
    Err(outside("columns mixed with aggregates"))
}

pub open spec fn spec_lower_projection(projection: Seq<SqlSelectItem>, has_join: bool) -> Result<SpecItems, SpecRefusal> {
    if spec_is_wildcard(projection) {
        Ok(SpecItems::All)
    } else {
        match spec_classify(projection, has_join) {
            Err(e) => Err(e),
            Ok(kinds) => spec_assemble(kinds),
        }
    }
}

/// The items of a SELECT list.
pub fn lower_projection(projection: &[SqlSelectItem], has_join: bool) -> (r: Result<Items, QueryRefusal>)
    ensures
        outcome(r) == spec_lower_projection(projection@, has_join),
{
    if is_wildcard(projection) {
        return Ok(Items::All);
    }
    assemble(classify(projection, has_join)?)
}

} // verus!
