//! The library's model of a parsed SQL statement: the part of the syntax
//! tree that the lowering reads, as plain values. Clauses that the lowering
//! only refuses are kept as flags that say whether the clause is present.

use vstd::prelude::*;

verus! {

/// An identifier, without its quotes.
#[derive(Debug)]
pub struct SqlIdent {
    pub value: String,
    /// The opening quote character, if the identifier was quoted.
    pub quote_style: Option<char>,
}

/// A possibly qualified name, such as `schema.table`.
#[derive(Debug)]
pub struct SqlObjectName(pub Vec<SqlIdent>);

#[derive(Debug)]
pub enum SqlUnaryOperator {
    Plus,
    Minus,
    Not,
    Other,
}

#[derive(Debug)]
pub enum SqlBinaryOperator {
    Eq,
    NotEq,
    Lt,
    LtEq,
    Gt,
    GtEq,
    And,
    Or,
    Other,
}

/// A literal.
#[derive(Debug)]
pub enum SqlValue {
    /// A number as written, and whether it carried the `L` suffix.
    Number(String, bool),
    SingleQuotedString(String),
    Boolean(bool),
    Null,
    /// Any other kind of literal.
    Other,
}

/// An expression.
#[derive(Debug)]
pub enum SqlExpr {
    Identifier(SqlIdent),
    CompoundIdentifier(Vec<SqlIdent>),
    Value(SqlValue),
    UnaryOp { op: SqlUnaryOperator, expr: Box<SqlExpr> },
    BinaryOp { left: Box<SqlExpr>, op: SqlBinaryOperator, right: Box<SqlExpr> },
    IsNull(Box<SqlExpr>),
    IsNotNull(Box<SqlExpr>),
    Nested(Box<SqlExpr>),
    Function(SqlFunction),
    /// Any other kind of expression.
    Other,
}

/// A function call.
#[derive(Debug)]
pub struct SqlFunction {
    pub name: SqlObjectName,
    pub parameters: SqlFunctionArguments,
    pub args: SqlFunctionArguments,
    /// `FILTER (WHERE ...)` is present.
    pub filter: bool,
    /// `IGNORE NULLS` or `RESPECT NULLS` is present.
    pub null_treatment: bool,
    /// `OVER (...)` is present.
    pub over: bool,
    /// `WITHIN GROUP (ORDER BY ...)` is present.
    pub within_group: bool,
}

#[derive(Debug)]
pub enum SqlFunctionArguments {
    /// No argument list at all.
    Absent,
    Subquery,
    List(SqlFunctionArgumentList),
}

#[derive(Debug)]
pub struct SqlFunctionArgumentList {
    /// `DISTINCT` or `ALL` is present.
    pub duplicate_treatment: bool,
    pub args: Vec<SqlFunctionArg>,
    /// Clauses after the arguments (`ORDER BY`, `LIMIT`, ...) are present.
    pub clauses: bool,
}

#[derive(Debug)]
pub enum SqlFunctionArg {
    /// A named argument (`name => value`).
    Named,
    Unnamed(SqlFunctionArgExpr),
}

#[derive(Debug)]
pub enum SqlFunctionArgExpr {
    Expr(SqlExpr),
    QualifiedWildcard(SqlObjectName),
    Wildcard,
}

/// Which of the options after `*` are present.
#[derive(Debug)]
pub struct SqlWildcardOptions {
    pub ilike: bool,
    pub exclude: bool,
    pub except: bool,
    pub replace: bool,
    pub rename: bool,
}

#[derive(Debug)]
pub enum SqlSelectItem {
    UnnamedExpr(SqlExpr),
    ExprWithAlias { expr: SqlExpr, alias: SqlIdent },
    QualifiedWildcard(SqlObjectName, SqlWildcardOptions),
    Wildcard(SqlWildcardOptions),
}

/// A FROM item.
#[derive(Debug)]
pub enum SqlTableFactor {
    /// A named table; the flags say whether each modifier is present.
    Table {
        name: SqlObjectName,
        alias: bool,
        args: bool,
        with_hints: bool,
        version: bool,
        partitions: bool,
        sample: bool,
    },
    /// A derived table, a table function, or any other FROM item.
    Other,
}

#[derive(Debug)]
pub enum SqlJoinConstraint {
    On(SqlExpr),
    Using,
    Natural,
    /// No constraint at all.
    Absent,
}

/// The kind of a join; only an inner join keeps its constraint.
#[derive(Debug)]
pub enum SqlJoinOperator {
    Inner(SqlJoinConstraint),
    LeftOuter,
    RightOuter,
    FullOuter,
    CrossJoin,
    Semi,
    LeftSemi,
    RightSemi,
    Anti,
    LeftAnti,
    RightAnti,
    CrossApply,
    OuterApply,
    AsOf,
}

#[derive(Debug)]
pub struct SqlJoin {
    pub relation: SqlTableFactor,
    pub join_operator: SqlJoinOperator,
}

#[derive(Debug)]
pub struct SqlTableWithJoins {
    pub relation: SqlTableFactor,
    pub joins: Vec<SqlJoin>,
}

#[derive(Debug)]
pub enum SqlGroupBy {
    /// `GROUP BY ALL`, with its number of modifiers.
    All { modifiers: usize },
    /// `GROUP BY` over a number of expressions (zero when absent), with its modifiers.
    Expressions { expressions: usize, modifiers: usize },
}

/// Which clauses of a SELECT that the subset refuses are present.
#[derive(Debug)]
pub struct SelectClauses {
    pub distinct: bool,
    pub top: bool,
    pub into: bool,
    pub prewhere: bool,
    pub lateral_views: bool,
    pub cluster_by: bool,
    pub distribute_by: bool,
    pub sort_by: bool,
    pub having: bool,
    pub named_window: bool,
    pub qualify: bool,
    pub value_table_mode: bool,
    pub connect_by: bool,
}

#[derive(Debug)]
pub struct SqlSelect {
    pub clauses: SelectClauses,
    pub projection: Vec<SqlSelectItem>,
    pub from: Vec<SqlTableWithJoins>,
    pub selection: Option<SqlExpr>,
    pub group_by: SqlGroupBy,
}

#[derive(Debug)]
pub struct SqlOrderByExpr {
    pub expr: SqlExpr,
    pub asc: Option<bool>,
    pub nulls_first: Option<bool>,
    /// `WITH FILL` is present.
    pub with_fill: bool,
}

#[derive(Debug)]
pub struct SqlOrderBy {
    pub exprs: Vec<SqlOrderByExpr>,
    /// `INTERPOLATE` is present.
    pub interpolate: bool,
}

#[derive(Debug)]
pub enum SqlSetOperator {
    Union,
    Except,
    Intersect,
    Minus,
}

/// The body of a query.
#[derive(Debug)]
pub enum SqlSetExpr {
    Select(Box<SqlSelect>),
    Query(Box<SqlQuery>),
    SetOperation(SqlSetOperator),
    /// `VALUES`, row by row.
    Values(Vec<Vec<SqlExpr>>),
    Insert,
    Update,
    Table,
}

/// Which clauses around a query body are present.
#[derive(Debug)]
pub struct QueryClauses {
    pub with: bool,
    pub limit: bool,
    pub limit_by: bool,
    pub offset: bool,
    pub fetch: bool,
    pub locks: bool,
    pub for_clause: bool,
    pub settings: bool,
    pub format_clause: bool,
}

#[derive(Debug)]
pub struct SqlQuery {
    pub clauses: QueryClauses,
    pub body: Box<SqlSetExpr>,
    pub order_by: Option<SqlOrderBy>,
}

#[derive(Debug)]
pub enum SqlTableObject {
    TableName(SqlObjectName),
    /// `INSERT INTO FUNCTION ...`
    TableFunction,
}

#[derive(Debug)]
pub struct SqlInsert {
    /// A conflict clause (`INSERT OR ...`) is present.
    pub or: bool,
    pub into: bool,
    pub table: SqlTableObject,
    pub columns: Vec<SqlIdent>,
    pub overwrite: bool,
    pub source: Option<Box<SqlQuery>>,
    /// `INSERT ... SET` assignments are present.
    pub assignments: bool,
    pub has_table_keyword: bool,
    /// `ON CONFLICT` or `ON DUPLICATE KEY` is present.
    pub on: bool,
    pub returning: bool,
    pub replace_into: bool,
}

#[derive(Debug)]
pub struct SqlDelete {
    /// Tables named before `FROM` are present.
    pub tables: bool,
    /// The tables after `FROM`, or after `DELETE` where `FROM` is left out.
    pub from: Vec<SqlTableWithJoins>,
    pub using: bool,
    pub selection: Option<SqlExpr>,
    pub returning: bool,
    pub order_by: bool,
    pub limit: bool,
}

#[derive(Debug)]
pub enum SqlAssignmentTarget {
    ColumnName(SqlObjectName),
    /// `(a, b) = ...`
    Tuple,
}

#[derive(Debug)]
pub struct SqlAssignment {
    pub target: SqlAssignmentTarget,
    pub value: SqlExpr,
}

/// A parsed statement.
#[derive(Debug)]
pub enum SqlStatement {
    Query(Box<SqlQuery>),
    Insert(SqlInsert),
    Update {
        table: SqlTableWithJoins,
        assignments: Vec<SqlAssignment>,
        from: bool,
        selection: Option<SqlExpr>,
        returning: bool,
        or: bool,
    },
    Delete(SqlDelete),
    /// `BEGIN`, with its number of transaction modes and whether a modifier is present.
    StartTransaction { modes: usize, modifier: bool },
    Commit { chain: bool, end: bool, modifier: bool },
    Rollback { chain: bool, savepoint: Option<SqlIdent> },
    /// Any other statement.
    Other,
}

} // verus!
