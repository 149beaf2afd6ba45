//! The statement tree: pure data, built top-down by translation and read by
//! the renderer.

use crate::json::JsonValue;
use vstd::prelude::*;

verus! {

/// A `WITH` clause.
#[derive(Debug)]
pub struct With {
    pub common_table_expressions: Vec<CommonTableExpression>,
}

/// One named query of a `WITH` clause.
#[derive(Debug)]
pub struct CommonTableExpression {
    pub alias: TableAlias,
    pub column_names: Option<Vec<ColumnAlias>>,
    pub select: CTExpr,
}

/// The body of a common table expression.
#[derive(Debug)]
pub enum CTExpr {
    Select(Select),
    RawSql(Vec<RawSql>),
}

/// Raw statement text with expressions spliced in.
#[derive(Debug)]
pub enum RawSql {
    RawText(String),
    Expression(Expression),
}

/// A statement whose plan is asked for.
#[derive(Debug)]
pub enum Explain<'a> {
    Select(&'a Select),
}

/// What a `SELECT` returns.
#[derive(Debug)]
pub enum SelectList {
    /// Expressions, each under an alias.
    SelectList(Vec<(ColumnAlias, Expression)>),
    /// `*`
    SelectStar,
    /// `<table>.*`
    SelectStarFrom(TableReference),
    /// The literal `1`.
    Select1,
}

/// A `SELECT` statement.
#[derive(Debug)]
pub struct Select {
    pub with: With,
    pub select_list: SelectList,
    pub from: Option<From>,
    pub where_: Where,
    pub order_by: OrderBy,
}

/// An `INSERT` statement.
#[derive(Debug)]
pub struct Insert {
    pub schema: SchemaName,
    pub table: TableName,
    pub columns: Option<Vec<ColumnName>>,
    pub from: InsertFrom,
    pub returning: Returning,
}

/// Where the rows of an `INSERT` come from.
#[derive(Debug)]
pub enum InsertFrom {
    Values(Vec<Vec<MutationValueExpression>>),
    Select(Select),
}

/// A value written by a mutation.
#[derive(Debug)]
pub enum MutationValueExpression {
    Expression(Expression),
    Default,
}

/// A `DELETE` statement.
#[derive(Debug)]
pub struct Delete {
    pub from: From,
    pub where_: Where,
    pub returning: Returning,
}

/// An `UPDATE` statement. The assignments are written in the order given.
#[derive(Debug)]
pub struct Update {
    pub schema: SchemaName,
    pub table: TableName,
    pub set: Vec<(ColumnName, MutationValueExpression)>,
    pub where_: Where,
    pub returning: Returning,
}

/// A `RETURNING` clause.
#[derive(Debug)]
pub struct Returning(pub SelectList);

/// A `FROM` clause.
#[derive(Debug)]
pub enum From {
    /// A table, optionally through one of its secondary indexes.
    Table { reference: TableReference, alias: TableAlias },
    /// A subquery.
    Select { select: Box<Select>, alias: TableAlias },
    /// The rows of a JSON array of objects, with typed columns.
    JsonbToRecordset {
        expression: Expression,
        alias: TableAlias,
        columns: Vec<(ColumnAlias, ScalarType)>,
    },
    /// The elements of a JSON array, one per row.
    JsonbArrayElements { expression: Expression, alias: TableAlias, column: ColumnAlias },
    /// The elements of an array, one per row.
    Unnest { expression: Expression, alias: TableAlias, column: ColumnAlias },
}

/// A join of a subquery.
#[derive(Debug)]
pub enum Join {
    LeftOuterJoin(LeftOuterJoin),
    InnerJoin(InnerJoin),
    CrossJoin(CrossJoin),
    FullOuterJoin(FullOuterJoin),
}

#[derive(Debug)]
pub struct CrossJoin {
    pub select: Box<Select>,
    pub alias: TableAlias,
}

#[derive(Debug)]
pub struct LeftOuterJoin {
    pub select: Box<Select>,
    pub alias: TableAlias,
    pub on: Expression,
}

#[derive(Debug)]
pub struct InnerJoin {
    pub select: Box<Select>,
    pub alias: TableAlias,
}

#[derive(Debug)]
pub struct FullOuterJoin {
    pub select: Box<Select>,
    pub alias: TableAlias,
}

/// A `WHERE` clause.
#[derive(Debug)]
pub struct Where(pub Expression);

/// A `GROUP BY` clause.
#[derive(Debug)]
pub struct GroupBy {}

/// An `ORDER BY` clause.
#[derive(Debug)]
pub struct OrderBy {
    pub elements: Vec<OrderByElement>,
}

/// One sort key.
#[derive(Debug)]
pub struct OrderByElement {
    pub target: Expression,
    pub direction: OrderByDirection,
}

#[derive(Debug, Clone, Copy, PartialEq, Eq, Structural)]
pub enum OrderByDirection {
    Asc,
    Desc,
}

/// `LIMIT` and `OFFSET` clauses.
#[derive(Debug, Clone, Copy)]
pub struct Limit {
    pub limit: Option<u32>,
    pub offset: Option<u32>,
}

/// A scalar expression.
#[derive(Debug)]
#[allow(inconsistent_fields)]
pub enum Expression {
    /// `AND` of two expressions.
    And { left: Box<Expression>, right: Box<Expression> },
    /// `OR` of two expressions.
    Or { left: Box<Expression>, right: Box<Expression> },
    /// `NOT` of an expression.
    Not(Box<Expression>),
    /// An operator between two expressions.
    BinaryOperation { left: Box<Expression>, operator: BinaryOperator, right: Box<Expression> },
    /// An operator between an expression and a list of them.
    BinaryArrayOperation {
        left: Box<Expression>,
        operator: BinaryArrayOperator,
        right: Vec<Expression>,
    },
    /// An operator behind an expression.
    UnaryOperation { expression: Box<Expression>, operator: UnaryOperator },
    /// A function applied to arguments.
    FunctionCall { function: Function, args: Vec<Expression> },
    /// Expressions written one after the other.
    JoinExpressions(Vec<Expression>),
    /// The accessor of an array element that tolerates a missing one.
    SafeOffSet { offset: i64 },
    /// A cast to a type.
    Cast { expression: Box<Expression>, type_: ScalarType },
    /// A JSON object built from labelled expressions, in the order given.
    JsonBuildObject(Vec<(String, Expression)>),
    /// A table row as a JSON object.
    RowToJson(TableReference),
    /// A column.
    ColumnReference(ColumnReference),
    /// A field of a composite value.
    NestedFieldSelect { expression: Box<Expression>, nested_field: NestedField },
    /// A table.
    TableReference(TableReference),
    /// A literal.
    Value(Value),
    /// Whether a subquery returns a row.
    Exists { select: Box<Select> },
    /// An array of expressions.
    ArrayConstructor(Vec<Expression>),
    /// A subquery that may refer to the enclosing query.
    CorrelatedSubSelect(Box<Select>),
    /// A count of rows.
    Count(CountType),
}

/// An operator that stands between its operands, by its text.
#[derive(Debug)]
pub struct BinaryOperator(pub String);

#[derive(Debug, Clone, Copy, PartialEq, Eq, Structural)]
pub enum UnaryOperator {
    IsNull,
}

#[derive(Debug, Clone, Copy, PartialEq, Eq, Structural)]
pub enum BinaryArrayOperator {
    In,
}

/// A field of a composite value, by name.
#[derive(Debug)]
pub struct NestedField(pub String);

/// A function.
#[derive(Debug)]
pub enum Function {
    Coalesce,
    JsonAgg,
    JsonbPopulateRecord,
    ArrayAgg,
    Unnest,
    Unknown(String),
    SafeOffSet(i64),
}

/// What is counted.
#[derive(Debug)]
pub enum CountType {
    Star,
    Simple(ColumnReference),
    Distinct(ColumnReference),
}

/// A literal value.
#[derive(Debug)]
pub enum Value {
    Int8(i64),
    /// A number with a fraction, by its decimal text.
    Float8(String),
    Bool(bool),
    Character(String),
    String(String),
    Null,
    Array(Vec<Value>),
    EmptyJsonArray,
    JsonValue(JsonValue),
    Variable(String),
}

/// The type of a scalar or of an array of scalars.
#[derive(Debug)]
pub enum ScalarType {
    BaseType(ScalarTypeName),
    ArrayType(ScalarTypeName),
}

/// The name of a scalar type, with or without its schema.
#[derive(Debug)]
pub enum ScalarTypeName {
    Qualified { schema_name: SchemaName, name: String },
    Unqualified(String),
}

#[derive(Debug)]
pub struct SchemaName(pub String);

#[derive(Debug)]
pub struct TableName(pub String);

/// The name of a secondary index of a table.
#[derive(Debug)]
pub struct Gsi(pub String);

/// A table as it is addressed in a statement.
#[derive(Debug)]
pub enum TableReference {
    /// A table of the database, optionally through a secondary index.
    DBTable { table: TableName, gsi: Option<Gsi> },
    /// A table under the alias it was given in this statement.
    AliasedTable(TableAlias),
}

/// An alias of a table: a readable name and an index that no other alias of
/// the same translation has.
#[derive(Debug)]
pub struct TableAlias {
    pub unique_index: u64,
    pub name: String,
}

#[derive(Debug)]
pub struct ColumnName(pub String);

/// A column as it is addressed in a statement.
#[derive(Debug)]
pub enum ColumnReference {
    TableColumn { table: TableReference, name: ColumnName },
    AliasedColumn { table: TableReference, column: ColumnAlias },
}

#[derive(Debug)]
pub struct ColumnAlias {
    pub name: String,
}

/// Whether a query asked for fields.
#[derive(Debug, Clone, Copy, PartialEq, Eq, Structural)]
pub enum ReturnsFields {
    FieldsWereRequested,
    NoFieldsWereRequested,
}

} // verus!
