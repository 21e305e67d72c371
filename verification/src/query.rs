//! The statements that the engine runs, with their mathematical models.

use vstd::prelude::*;

verus! {

/// A literal value.
#[derive(Debug, PartialEq)]
pub enum Scalar {
    Integer(i64),
    /// A number with a fraction or an exponent, kept as its signed text.
    Decimal(String),
    Text(String),
    Boolean(bool),
}

pub enum SpecScalar {
    Integer(int),
    Decimal(Seq<char>),
    Text(Seq<char>),
    Boolean(bool),
}

impl View for Scalar {
    type V = SpecScalar;

    open spec fn view(&self) -> SpecScalar {
        match self {
            Scalar::Integer(i) => SpecScalar::Integer(*i as int),
            Scalar::Decimal(t) => SpecScalar::Decimal(t@),
            Scalar::Text(t) => SpecScalar::Text(t@),
            Scalar::Boolean(b) => SpecScalar::Boolean(*b),
        }
    }
}

pub open spec fn opt_scalar(value: Option<Scalar>) -> Option<SpecScalar> {
    match value {
        Some(s) => Some(s@),
        None => None,
    }
}

pub open spec fn opt_text(value: Option<String>) -> Option<Seq<char>> {
    match value {
        Some(s) => Some(s@),
        None => None,
    }
}

/// A column, qualified by its table where the query names one.
#[derive(Debug, PartialEq)]
pub struct ColumnRef {
    pub table: Option<String>,
    pub column: String,
}

pub struct SpecColumnRef {
    pub table: Option<Seq<char>>,
    pub column: Seq<char>,
}

impl View for ColumnRef {
    type V = SpecColumnRef;

    open spec fn view(&self) -> SpecColumnRef {
        SpecColumnRef { table: opt_text(self.table), column: self.column@ }
    }
}

pub open spec fn opt_column(c: Option<ColumnRef>) -> Option<SpecColumnRef> {
    match c {
        Some(c) => Some(c@),
        None => None,
    }
}

/// How a column is compared with a literal.
#[derive(Debug, Clone, Copy, PartialEq, Eq)]
pub enum Comparison {
    Equal,
    NotEqual,
    Less,
    LessOrEqual,
    Greater,
    GreaterOrEqual,
}

impl View for Comparison {
    type V = Comparison;

    open spec fn view(&self) -> Comparison {
        *self
    }
}

/// A row filter.
#[derive(Debug, PartialEq)]
pub enum Filter {
    Compare { column: ColumnRef, comparison: Comparison, value: Scalar },
    IsNull(ColumnRef),
    IsNotNull(ColumnRef),
    And(Box<Filter>, Box<Filter>),
    Or(Box<Filter>, Box<Filter>),
}

pub enum SpecFilter {
    Compare { column: SpecColumnRef, comparison: Comparison, value: SpecScalar },
    IsNull(SpecColumnRef),
    IsNotNull(SpecColumnRef),
    And(Box<SpecFilter>, Box<SpecFilter>),
    Or(Box<SpecFilter>, Box<SpecFilter>),
}

pub open spec fn filter_view(f: Filter) -> SpecFilter
    decreases f,
{
    match f {
        Filter::Compare { column, comparison, value } => SpecFilter::Compare {
            column: column@,
            comparison,
            value: value@,
        },
        Filter::IsNull(c) => SpecFilter::IsNull(c@),
        Filter::IsNotNull(c) => SpecFilter::IsNotNull(c@),
        Filter::And(l, r) => SpecFilter::And(Box::new(filter_view(*l)), Box::new(filter_view(*r))),
        Filter::Or(l, r) => SpecFilter::Or(Box::new(filter_view(*l)), Box::new(filter_view(*r))),
    }
}

impl View for Filter {
    type V = SpecFilter;

    open spec fn view(&self) -> SpecFilter {
        filter_view(*self)
    }
}

pub open spec fn opt_filter(f: Option<Filter>) -> Option<SpecFilter> {
    match f {
        Some(f) => Some(f@),
        None => None,
    }
}

/// The aggregate functions of the subset.
#[derive(Debug, Clone, Copy, PartialEq, Eq)]
pub enum AggregateFunction {
    Count,
    Sum,
    Min,
    Max,
    Avg,
}

impl View for AggregateFunction {
    type V = AggregateFunction;

    open spec fn view(&self) -> AggregateFunction {
        *self
    }
}

/// An aggregate over a column, or over all rows (`COUNT(*)`) when `column` is `None`.
#[derive(Debug, PartialEq)]
pub struct Aggregate {
    pub function: AggregateFunction,
    pub column: Option<ColumnRef>,
}

pub struct SpecAggregate {
    pub function: AggregateFunction,
    pub column: Option<SpecColumnRef>,
}

impl View for Aggregate {
    type V = SpecAggregate;

    open spec fn view(&self) -> SpecAggregate {
        SpecAggregate { function: self.function, column: opt_column(self.column) }
    }
}

/// What a query returns.
#[derive(Debug, PartialEq)]
pub enum Items {
    All,
    Columns(Vec<ColumnRef>),
    Aggregates(Vec<Aggregate>),
}

pub enum SpecItems {
    All,
    Columns(Seq<SpecColumnRef>),
    Aggregates(Seq<SpecAggregate>),
}

impl View for Items {
    type V = SpecItems;

    open spec fn view(&self) -> SpecItems {
        match self {
            Items::All => SpecItems::All,
            Items::Columns(cs) => SpecItems::Columns(cs@.map_values(|c: ColumnRef| c@)),
            Items::Aggregates(aggs) => SpecItems::Aggregates(aggs@.map_values(|a: Aggregate| a@)),
        }
    }
}

/// An inner join of a second table on one column equality.
#[derive(Debug, PartialEq)]
pub struct Join {
    pub table: String,
    pub left: ColumnRef,
    pub right: ColumnRef,
}

pub struct SpecJoin {
    pub table: Seq<char>,
    pub left: SpecColumnRef,
    pub right: SpecColumnRef,
}

impl View for Join {
    type V = SpecJoin;

    open spec fn view(&self) -> SpecJoin {
        SpecJoin { table: self.table@, left: self.left@, right: self.right@ }
    }
}

pub open spec fn opt_join(j: Option<Join>) -> Option<SpecJoin> {
    match j {
        Some(j) => Some(j@),
        None => None,
    }
}

#[derive(Debug, Clone, Copy, PartialEq, Eq)]
pub enum Direction {
    Ascending,
    Descending,
}

impl View for Direction {
    type V = Direction;

    open spec fn view(&self) -> Direction {
        *self
    }
}

/// One key of an ORDER BY.
#[derive(Debug, PartialEq)]
pub struct OrderKey {
    pub column: ColumnRef,
    pub direction: Direction,
}

pub struct SpecOrderKey {
    pub column: SpecColumnRef,
    pub direction: Direction,
}

impl View for OrderKey {
    type V = SpecOrderKey;

    open spec fn view(&self) -> SpecOrderKey {
        SpecOrderKey { column: self.column@, direction: self.direction }
    }
}

/// A query over one table, possibly joined with a second.
#[derive(Debug, PartialEq)]
pub struct SelectQuery {
    pub items: Items,
    pub from: String,
    pub join: Option<Join>,
    pub filter: Option<Filter>,
    pub order: Vec<OrderKey>,
}

pub struct SpecSelectQuery {
    pub items: SpecItems,
    pub from: Seq<char>,
    pub join: Option<SpecJoin>,
    pub filter: Option<SpecFilter>,
    pub order: Seq<SpecOrderKey>,
}

impl View for SelectQuery {
    type V = SpecSelectQuery;

    open spec fn view(&self) -> SpecSelectQuery {
        SpecSelectQuery {
            items: self.items@,
            from: self.from@,
            join: opt_join(self.join),
            filter: opt_filter(self.filter),
            order: self.order@.map_values(|k: OrderKey| k@),
        }
    }
}

/// One `column = value` of an UPDATE; a `None` value stands for NULL.
#[derive(Debug, PartialEq)]
pub struct ColumnAssignment {
    pub column: String,
    pub value: Option<Scalar>,
}

pub struct SpecColumnAssignment {
    pub column: Seq<char>,
    pub value: Option<SpecScalar>,
}

impl View for ColumnAssignment {
    type V = SpecColumnAssignment;

    open spec fn view(&self) -> SpecColumnAssignment {
        SpecColumnAssignment { column: self.column@, value: opt_scalar(self.value) }
    }
}

/// An INSERT of one row; a `None` value stands for NULL.
#[derive(Debug, PartialEq)]
pub struct InsertRow {
    pub table: String,
    pub columns: Vec<String>,
    pub values: Vec<Option<Scalar>>,
}

pub struct SpecInsertRow {
    pub table: Seq<char>,
    pub columns: Seq<Seq<char>>,
    pub values: Seq<Option<SpecScalar>>,
}

impl View for InsertRow {
    type V = SpecInsertRow;

    open spec fn view(&self) -> SpecInsertRow {
        SpecInsertRow {
            table: self.table@,
            columns: self.columns@.map_values(|c: String| c@),
            values: self.values@.map_values(|v: Option<Scalar>| opt_scalar(v)),
        }
    }
}

#[derive(Debug, PartialEq)]
pub struct Update {
    pub table: String,
    pub assignments: Vec<ColumnAssignment>,
    pub filter: Option<Filter>,
}

pub struct SpecUpdate {
    pub table: Seq<char>,
    pub assignments: Seq<SpecColumnAssignment>,
    pub filter: Option<SpecFilter>,
}

impl View for Update {
    type V = SpecUpdate;

    open spec fn view(&self) -> SpecUpdate {
        SpecUpdate {
            table: self.table@,
            assignments: self.assignments@.map_values(|a: ColumnAssignment| a@),
            filter: opt_filter(self.filter),
        }
    }
}

#[derive(Debug, PartialEq)]
pub struct DeleteRows {
    pub table: String,
    pub filter: Option<Filter>,
}

pub struct SpecDeleteRows {
    pub table: Seq<char>,
    pub filter: Option<SpecFilter>,
}

impl View for DeleteRows {
    type V = SpecDeleteRows;

    open spec fn view(&self) -> SpecDeleteRows {
        SpecDeleteRows { table: self.table@, filter: opt_filter(self.filter) }
    }
}

#[derive(Debug, PartialEq)]
pub enum Write {
    Insert(InsertRow),
    Update(Update),
    Delete(DeleteRows),
}

pub enum SpecWrite {
    Insert(SpecInsertRow),
    Update(SpecUpdate),
    Delete(SpecDeleteRows),
}

impl View for Write {
    type V = SpecWrite;

    open spec fn view(&self) -> SpecWrite {
        match self {
            Write::Insert(i) => SpecWrite::Insert(i@),
            Write::Update(u) => SpecWrite::Update(u@),
            Write::Delete(d) => SpecWrite::Delete(d@),
        }
    }
}

/// A statement the engine runs.
#[derive(Debug, PartialEq)]
pub enum Command {
    Select(SelectQuery),
    Write(Write),
    Begin,
    Commit,
    Rollback,
}

pub enum SpecCommand {
    Select(SpecSelectQuery),
    Write(SpecWrite),
    Begin,
    Commit,
    Rollback,
}

impl View for Command {
    type V = SpecCommand;

    open spec fn view(&self) -> SpecCommand {
        match self {
            Command::Select(s) => SpecCommand::Select(s@),
            Command::Write(w) => SpecCommand::Write(w@),
            Command::Begin => SpecCommand::Begin,
            Command::Commit => SpecCommand::Commit,
            Command::Rollback => SpecCommand::Rollback,
        }
    }
}

} // verus!
