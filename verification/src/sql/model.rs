//! The mathematical model of the statement tree: the same shapes over
//! sequences of characters and sequences of nodes. Contracts speak of a tree
//! through its view, written `tree@`.

use crate::json::JsonValueView;
use crate::sql::ast::{
    BinaryArrayOperator, BinaryOperator, CTExpr, ColumnAlias, ColumnName, ColumnReference,
    CommonTableExpression, CountType, Delete, Expression, From, Function, Gsi, Insert, InsertFrom,
    Join, Limit, MutationValueExpression, NestedField, OrderBy, OrderByDirection, OrderByElement,
    RawSql, Returning, ScalarType, ScalarTypeName, SchemaName, Select, SelectList, TableAlias,
    TableName, TableReference, UnaryOperator, Update, Value, Where, With,
};
use vstd::prelude::*;

verus! {

pub struct TableAliasView {
    pub unique_index: u64,
    pub name: Seq<char>,
}

pub enum TableReferenceView {
    DBTable { table: Seq<char>, gsi: Option<Seq<char>> },
    AliasedTable(TableAliasView),
}

pub enum ColumnReferenceView {
    TableColumn { table: TableReferenceView, name: Seq<char> },
    AliasedColumn { table: TableReferenceView, column: Seq<char> },
}

pub enum ScalarTypeNameView {
    Qualified { schema_name: Seq<char>, name: Seq<char> },
    Unqualified(Seq<char>),
}

pub enum ScalarTypeView {
    BaseType(ScalarTypeNameView),
    ArrayType(ScalarTypeNameView),
}

pub enum FunctionView {
    Coalesce,
    JsonAgg,
    JsonbPopulateRecord,
    ArrayAgg,
    Unnest,
    Unknown(Seq<char>),
    SafeOffSet(i64),
}

pub enum CountTypeView {
    Star,
    Simple(ColumnReferenceView),
    Distinct(ColumnReferenceView),
}

pub enum ValueView {
    Int8(i64),
    Float8(Seq<char>),
    Bool(bool),
    Character(Seq<char>),
    String(Seq<char>),
    Null,
    Array(Seq<ValueView>),
    EmptyJsonArray,
    JsonValue(JsonValueView),
    Variable(Seq<char>),
}

pub struct WithView {
    pub common_table_expressions: Seq<CommonTableExpressionView>,
}

pub struct CommonTableExpressionView {
    pub alias: TableAliasView,
    pub column_names: Option<Seq<Seq<char>>>,
    pub select: CTExprView,
}

pub enum CTExprView {
    Select(SelectView),
    RawSql(Seq<RawSqlView>),
}

pub enum RawSqlView {
    RawText(Seq<char>),
    Expression(ExpressionView),
}

pub enum SelectListView {
    SelectList(Seq<(Seq<char>, ExpressionView)>),
    SelectStar,
    SelectStarFrom(TableReferenceView),
    Select1,
}

pub struct SelectView {
    pub with: WithView,
    pub select_list: SelectListView,
    pub from: Option<FromView>,
    pub where_: ExpressionView,
    pub order_by: Seq<OrderByElementView>,
}

pub enum FromView {
    Table { reference: TableReferenceView, alias: TableAliasView },
    Select { select: Box<SelectView>, alias: TableAliasView },
    JsonbToRecordset {
        expression: ExpressionView,
        alias: TableAliasView,
        columns: Seq<(Seq<char>, ScalarTypeView)>,
    },
    JsonbArrayElements { expression: ExpressionView, alias: TableAliasView, column: Seq<char> },
    Unnest { expression: ExpressionView, alias: TableAliasView, column: Seq<char> },
}

pub struct OrderByElementView {
    pub target: ExpressionView,
    pub direction: OrderByDirection,
}

#[allow(inconsistent_fields)]
pub enum ExpressionView {
    And { left: Box<ExpressionView>, right: Box<ExpressionView> },
    Or { left: Box<ExpressionView>, right: Box<ExpressionView> },
    Not(Box<ExpressionView>),
    BinaryOperation { left: Box<ExpressionView>, operator: Seq<char>, right: Box<ExpressionView> },
    BinaryArrayOperation {
        left: Box<ExpressionView>,
        operator: BinaryArrayOperator,
        right: Seq<ExpressionView>,
    },
    UnaryOperation { expression: Box<ExpressionView>, operator: UnaryOperator },
    FunctionCall { function: FunctionView, args: Seq<ExpressionView> },
    JoinExpressions(Seq<ExpressionView>),
    SafeOffSet { offset: i64 },
    Cast { expression: Box<ExpressionView>, type_: ScalarTypeView },
    JsonBuildObject(Seq<(Seq<char>, ExpressionView)>),
    RowToJson(TableReferenceView),
    ColumnReference(ColumnReferenceView),
    NestedFieldSelect { expression: Box<ExpressionView>, nested_field: Seq<char> },
    TableReference(TableReferenceView),
    Value(ValueView),
    Exists { select: Box<SelectView> },
    ArrayConstructor(Seq<ExpressionView>),
    CorrelatedSubSelect(Box<SelectView>),
    Count(CountTypeView),
}

pub enum MutationValueExpressionView {
    Expression(ExpressionView),
    Default,
}

pub enum InsertFromView {
    Values(Seq<Seq<MutationValueExpressionView>>),
    Select(SelectView),
}

pub struct InsertView {
    pub schema: Seq<char>,
    pub table: Seq<char>,
    pub columns: Option<Seq<Seq<char>>>,
    pub from: InsertFromView,
    pub returning: SelectListView,
}

pub struct DeleteView {
    pub from: FromView,
    pub where_: ExpressionView,
    pub returning: SelectListView,
}

pub struct UpdateView {
    pub schema: Seq<char>,
    pub table: Seq<char>,
    pub set: Seq<(Seq<char>, MutationValueExpressionView)>,
    pub where_: ExpressionView,
    pub returning: SelectListView,
}

/// A join, by its kind, its subquery, its alias and, for a left outer join,
/// its condition.
pub enum JoinView {
    LeftOuterJoin { select: SelectView, alias: TableAliasView, on: ExpressionView },
    InnerJoin { select: SelectView, alias: TableAliasView },
    CrossJoin { select: SelectView, alias: TableAliasView },
    FullOuterJoin { select: SelectView, alias: TableAliasView },
}

impl JoinView {
    /// The subquery that is joined.
    pub open spec fn select(self) -> SelectView {
        match self {
            JoinView::LeftOuterJoin { select, alias, on } => select,
            JoinView::InnerJoin { select, alias } => select,
            JoinView::CrossJoin { select, alias } => select,
            JoinView::FullOuterJoin { select, alias } => select,
        }
    }

    /// The alias under which the subquery is joined.
    pub open spec fn alias(self) -> TableAliasView {
        match self {
            JoinView::LeftOuterJoin { select, alias, on } => alias,
            JoinView::InnerJoin { select, alias } => alias,
            JoinView::CrossJoin { select, alias } => alias,
            JoinView::FullOuterJoin { select, alias } => alias,
        }
    }
}

pub struct LimitView {
    pub limit: Option<u32>,
    pub offset: Option<u32>,
}

// Names and references

impl View for SchemaName {
    type V = Seq<char>;

    open spec fn view(&self) -> Seq<char> {
        self.0@
    }
}

impl View for TableName {
    type V = Seq<char>;

    open spec fn view(&self) -> Seq<char> {
        self.0@
    }
}

impl View for Gsi {
    type V = Seq<char>;

    open spec fn view(&self) -> Seq<char> {
        self.0@
    }
}

impl View for ColumnName {
    type V = Seq<char>;

    open spec fn view(&self) -> Seq<char> {
        self.0@
    }
}

impl View for ColumnAlias {
    type V = Seq<char>;

    open spec fn view(&self) -> Seq<char> {
        self.name@
    }
}

impl View for NestedField {
    type V = Seq<char>;

    open spec fn view(&self) -> Seq<char> {
        self.0@
    }
}

impl View for BinaryOperator {
    type V = Seq<char>;

    open spec fn view(&self) -> Seq<char> {
        self.0@
    }
}

impl View for TableAlias {
    type V = TableAliasView;

    open spec fn view(&self) -> TableAliasView {
        TableAliasView { unique_index: self.unique_index, name: self.name@ }
    }
}

impl View for TableReference {
    type V = TableReferenceView;

    open spec fn view(&self) -> TableReferenceView {
        match self {
            TableReference::DBTable { table, gsi } => TableReferenceView::DBTable {
                table: table@,
                gsi: match gsi {
                    Some(gsi) => Some(gsi@),
                    None => None,
                },
            },
            TableReference::AliasedTable(alias) => TableReferenceView::AliasedTable(alias@),
        }
    }
}

impl View for ColumnReference {
    type V = ColumnReferenceView;

    open spec fn view(&self) -> ColumnReferenceView {
        match self {
            ColumnReference::TableColumn { table, name } => ColumnReferenceView::TableColumn {
                table: table@,
                name: name@,
            },
            ColumnReference::AliasedColumn { table, column } => ColumnReferenceView::AliasedColumn {
                table: table@,
                column: column@,
            },
        }
    }
}

impl View for ScalarTypeName {
    type V = ScalarTypeNameView;

    open spec fn view(&self) -> ScalarTypeNameView {
        match self {
            ScalarTypeName::Qualified { schema_name, name } => ScalarTypeNameView::Qualified {
                schema_name: schema_name@,
                name: name@,
            },
            ScalarTypeName::Unqualified(name) => ScalarTypeNameView::Unqualified(name@),
        }
    }
}

impl View for ScalarType {
    type V = ScalarTypeView;

    open spec fn view(&self) -> ScalarTypeView {
        match self {
            ScalarType::BaseType(name) => ScalarTypeView::BaseType(name@),
            ScalarType::ArrayType(name) => ScalarTypeView::ArrayType(name@),
        }
    }
}

impl View for Function {
    type V = FunctionView;

    open spec fn view(&self) -> FunctionView {
        match self {
            Function::Coalesce => FunctionView::Coalesce,
            Function::JsonAgg => FunctionView::JsonAgg,
            Function::JsonbPopulateRecord => FunctionView::JsonbPopulateRecord,
            Function::ArrayAgg => FunctionView::ArrayAgg,
            Function::Unnest => FunctionView::Unnest,
            Function::Unknown(name) => FunctionView::Unknown(name@),
            Function::SafeOffSet(index) => FunctionView::SafeOffSet(*index),
        }
    }
}

impl View for CountType {
    type V = CountTypeView;

    open spec fn view(&self) -> CountTypeView {
        match self {
            CountType::Star => CountTypeView::Star,
            CountType::Simple(column) => CountTypeView::Simple(column@),
            CountType::Distinct(column) => CountTypeView::Distinct(column@),
        }
    }
}

impl View for Limit {
    type V = LimitView;

    open spec fn view(&self) -> LimitView {
        LimitView { limit: self.limit, offset: self.offset }
    }
}

// Literals

/// The model of a literal.
pub open spec fn value_view(value: Value) -> ValueView
    decreases value,
{
    match value {
        Value::Int8(i) => ValueView::Int8(i),
        Value::Float8(text) => ValueView::Float8(text@),
        Value::Bool(b) => ValueView::Bool(b),
        Value::Character(s) => ValueView::Character(s@),
        Value::String(s) => ValueView::String(s@),
        Value::Null => ValueView::Null,
        Value::Array(items) => ValueView::Array(value_list_view(items@)),
        Value::EmptyJsonArray => ValueView::EmptyJsonArray,
        Value::JsonValue(json) => ValueView::JsonValue(json@),
        Value::Variable(name) => ValueView::Variable(name@),
    }
}

/// The models of a list of literals, in order.
pub open spec fn value_list_view(items: Seq<Value>) -> Seq<ValueView>
    decreases items,
{
    Seq::new(
        items.len(),
        |i: int|
            if 0 <= i < items.len() {
                value_view(items[i])
            } else {
                ValueView::Null
            },
    )
}

impl View for Value {
    type V = ValueView;

    open spec fn view(&self) -> ValueView {
        value_view(*self)
    }
}

// Expressions and queries

/// The model of an expression.
pub open spec fn expression_view(expression: Expression) -> ExpressionView
    decreases expression,
{
    match expression {
        Expression::And { left, right } => ExpressionView::And {
            left: Box::new(expression_view(*left)),
            right: Box::new(expression_view(*right)),
        },
        Expression::Or { left, right } => ExpressionView::Or {
            left: Box::new(expression_view(*left)),
            right: Box::new(expression_view(*right)),
        },
        Expression::Not(inner) => ExpressionView::Not(Box::new(expression_view(*inner))),
        Expression::BinaryOperation { left, operator, right } => ExpressionView::BinaryOperation {
            left: Box::new(expression_view(*left)),
            operator: operator@,
            right: Box::new(expression_view(*right)),
        },
        Expression::BinaryArrayOperation {
            left,
            operator,
            right,
        } => ExpressionView::BinaryArrayOperation {
            left: Box::new(expression_view(*left)),
            operator,
            right: expression_list_view(right@),
        },
        Expression::UnaryOperation { expression, operator } => ExpressionView::UnaryOperation {
            expression: Box::new(expression_view(*expression)),
            operator,
        },
        Expression::FunctionCall { function, args } => ExpressionView::FunctionCall {
            function: function@,
            args: expression_list_view(args@),
        },
        Expression::JoinExpressions(expressions) => ExpressionView::JoinExpressions(
            expression_list_view(expressions@),
        ),
        Expression::SafeOffSet { offset } => ExpressionView::SafeOffSet { offset },
        Expression::Cast { expression, type_ } => ExpressionView::Cast {
            expression: Box::new(expression_view(*expression)),
            type_: type_@,
        },
        Expression::JsonBuildObject(members) => ExpressionView::JsonBuildObject(
            labelled_expressions_view(members@),
        ),
        Expression::RowToJson(table) => ExpressionView::RowToJson(table@),
        Expression::ColumnReference(column) => ExpressionView::ColumnReference(column@),
        Expression::NestedFieldSelect {
            expression,
            nested_field,
        } => ExpressionView::NestedFieldSelect {
            expression: Box::new(expression_view(*expression)),
            nested_field: nested_field@,
        },
        Expression::TableReference(table) => ExpressionView::TableReference(table@),
        Expression::Value(value) => ExpressionView::Value(value@),
        Expression::Exists { select } => ExpressionView::Exists {
            select: Box::new(select_view(*select)),
        },
        Expression::ArrayConstructor(elements) => ExpressionView::ArrayConstructor(
            expression_list_view(elements@),
        ),
        Expression::CorrelatedSubSelect(select) => ExpressionView::CorrelatedSubSelect(
            Box::new(select_view(*select)),
        ),
        Expression::Count(count_type) => ExpressionView::Count(count_type@),
    }
}

/// The models of a list of expressions, in order.
pub open spec fn expression_list_view(expressions: Seq<Expression>) -> Seq<ExpressionView>
    decreases expressions,
{
    Seq::new(
        expressions.len(),
        |i: int|
            if 0 <= i < expressions.len() {
                expression_view(expressions[i])
            } else {
                arbitrary()
            },
    )
}

/// The models of a list of labelled expressions, in order.
pub open spec fn labelled_expressions_view(members: Seq<(String, Expression)>) -> Seq<
    (Seq<char>, ExpressionView),
>
    decreases members,
{
    Seq::new(
        members.len(),
        |i: int|
            if 0 <= i < members.len() {
                (members[i].0@, expression_view(members[i].1))
            } else {
                arbitrary()
            },
    )
}

/// The models of a list of expressions under aliases, in order.
pub open spec fn aliased_expressions_view(columns: Seq<(ColumnAlias, Expression)>) -> Seq<
    (Seq<char>, ExpressionView),
>
    decreases columns,
{
    Seq::new(
        columns.len(),
        |i: int|
            if 0 <= i < columns.len() {
                (columns[i].0@, expression_view(columns[i].1))
            } else {
                arbitrary()
            },
    )
}

/// The model of a select list.
pub open spec fn select_list_view(select_list: SelectList) -> SelectListView
    decreases select_list,
{
    match select_list {
        SelectList::SelectList(columns) => SelectListView::SelectList(
            aliased_expressions_view(columns@),
        ),
        SelectList::SelectStar => SelectListView::SelectStar,
        SelectList::SelectStarFrom(table) => SelectListView::SelectStarFrom(table@),
        SelectList::Select1 => SelectListView::Select1,
    }
}

/// The model of a `FROM` clause.
pub open spec fn from_view(from: From) -> FromView
    decreases from,
{
    match from {
        From::Table { reference, alias } => FromView::Table { reference: reference@, alias: alias@ },
        From::Select { select, alias } => FromView::Select {
            select: Box::new(select_view(*select)),
            alias: alias@,
        },
        From::JsonbToRecordset { expression, alias, columns } => FromView::JsonbToRecordset {
            expression: expression_view(expression),
            alias: alias@,
            columns: columns@.map_values(|c: (ColumnAlias, ScalarType)| (c.0@, c.1@)),
        },
        From::JsonbArrayElements { expression, alias, column } => FromView::JsonbArrayElements {
            expression: expression_view(expression),
            alias: alias@,
            column: column@,
        },
        From::Unnest { expression, alias, column } => FromView::Unnest {
            expression: expression_view(expression),
            alias: alias@,
            column: column@,
        },
    }
}

/// The models of the elements of an `ORDER BY` clause, in order.
pub open spec fn order_by_elements_view(elements: Seq<OrderByElement>) -> Seq<OrderByElementView>
    decreases elements,
{
    Seq::new(
        elements.len(),
        |i: int|
            if 0 <= i < elements.len() {
                OrderByElementView {
                    target: expression_view(elements[i].target),
                    direction: elements[i].direction,
                }
            } else {
                arbitrary()
            },
    )
}

/// The model of raw statement text.
pub open spec fn raw_sql_view(raw: RawSql) -> RawSqlView
    decreases raw,
{
    match raw {
        RawSql::RawText(text) => RawSqlView::RawText(text@),
        RawSql::Expression(expression) => RawSqlView::Expression(expression_view(expression)),
    }
}

/// The models of a list of pieces of raw statement text, in order.
pub open spec fn raw_sql_list_view(items: Seq<RawSql>) -> Seq<RawSqlView>
    decreases items,
{
    Seq::new(
        items.len(),
        |i: int|
            if 0 <= i < items.len() {
                raw_sql_view(items[i])
            } else {
                arbitrary()
            },
    )
}

/// The model of the body of a common table expression.
pub open spec fn ctexpr_view(body: CTExpr) -> CTExprView
    decreases body,
{
    match body {
        CTExpr::Select(select) => CTExprView::Select(select_view(select)),
        CTExpr::RawSql(items) => CTExprView::RawSql(raw_sql_list_view(items@)),
    }
}

/// The model of a common table expression.
pub open spec fn cte_view(cte: CommonTableExpression) -> CommonTableExpressionView
    decreases cte,
{
    CommonTableExpressionView {
        alias: cte.alias@,
        column_names: match cte.column_names {
            Some(names) => Some(names@.map_values(|n: ColumnAlias| n@)),
            None => None,
        },
        select: ctexpr_view(cte.select),
    }
}

/// The models of a list of common table expressions, in order.
pub open spec fn cte_list_view(ctes: Seq<CommonTableExpression>) -> Seq<CommonTableExpressionView>
    decreases ctes,
{
    Seq::new(
        ctes.len(),
        |i: int|
            if 0 <= i < ctes.len() {
                cte_view(ctes[i])
            } else {
                arbitrary()
            },
    )
}

/// The model of a `SELECT` statement.
pub open spec fn select_view(select: Select) -> SelectView
    decreases select,
{
    SelectView {
        with: WithView {
            common_table_expressions: cte_list_view(select.with.common_table_expressions@),
        },
        select_list: select_list_view(select.select_list),
        from: match select.from {
            Some(from) => Some(from_view(from)),
            None => None,
        },
        where_: expression_view(select.where_.0),
        order_by: order_by_elements_view(select.order_by.elements@),
    }
}

impl View for Expression {
    type V = ExpressionView;

    open spec fn view(&self) -> ExpressionView {
        expression_view(*self)
    }
}

impl View for Select {
    type V = SelectView;

    open spec fn view(&self) -> SelectView {
        select_view(*self)
    }
}

impl View for SelectList {
    type V = SelectListView;

    open spec fn view(&self) -> SelectListView {
        select_list_view(*self)
    }
}

impl View for From {
    type V = FromView;

    open spec fn view(&self) -> FromView {
        from_view(*self)
    }
}

impl View for Where {
    type V = ExpressionView;

    open spec fn view(&self) -> ExpressionView {
        expression_view(self.0)
    }
}

impl View for OrderByElement {
    type V = OrderByElementView;

    open spec fn view(&self) -> OrderByElementView {
        OrderByElementView { target: self.target@, direction: self.direction }
    }
}

impl View for OrderBy {
    type V = Seq<OrderByElementView>;

    open spec fn view(&self) -> Seq<OrderByElementView> {
        order_by_elements_view(self.elements@)
    }
}

impl View for RawSql {
    type V = RawSqlView;

    open spec fn view(&self) -> RawSqlView {
        raw_sql_view(*self)
    }
}

impl View for CTExpr {
    type V = CTExprView;

    open spec fn view(&self) -> CTExprView {
        ctexpr_view(*self)
    }
}

impl View for CommonTableExpression {
    type V = CommonTableExpressionView;

    open spec fn view(&self) -> CommonTableExpressionView {
        cte_view(*self)
    }
}

impl View for With {
    type V = WithView;

    open spec fn view(&self) -> WithView {
        WithView { common_table_expressions: cte_list_view(self.common_table_expressions@) }
    }
}

impl View for Returning {
    type V = SelectListView;

    open spec fn view(&self) -> SelectListView {
        self.0@
    }
}

impl View for MutationValueExpression {
    type V = MutationValueExpressionView;

    open spec fn view(&self) -> MutationValueExpressionView {
        match self {
            MutationValueExpression::Expression(expression) => MutationValueExpressionView::Expression(
                expression@,
            ),
            MutationValueExpression::Default => MutationValueExpressionView::Default,
        }
    }
}

impl View for InsertFrom {
    type V = InsertFromView;

    open spec fn view(&self) -> InsertFromView {
        match self {
            InsertFrom::Values(rows) => InsertFromView::Values(
                rows@.map_values(
                    |row: Vec<MutationValueExpression>|
                        row@.map_values(|v: MutationValueExpression| v@),
                ),
            ),
            InsertFrom::Select(select) => InsertFromView::Select(select@),
        }
    }
}

impl View for Insert {
    type V = InsertView;

    open spec fn view(&self) -> InsertView {
        InsertView {
            schema: self.schema@,
            table: self.table@,
            columns: match self.columns {
                Some(columns) => Some(columns@.map_values(|c: ColumnName| c@)),
                None => None,
            },
            from: self.from@,
            returning: self.returning@,
        }
    }
}

impl View for Delete {
    type V = DeleteView;

    open spec fn view(&self) -> DeleteView {
        DeleteView { from: self.from@, where_: self.where_@, returning: self.returning@ }
    }
}

impl View for Update {
    type V = UpdateView;

    open spec fn view(&self) -> UpdateView {
        UpdateView {
            schema: self.schema@,
            table: self.table@,
            set: self.set@.map_values(|a: (ColumnName, MutationValueExpression)| (a.0@, a.1@)),
            where_: self.where_@,
            returning: self.returning@,
        }
    }
}

impl View for Join {
    type V = JoinView;

    open spec fn view(&self) -> JoinView {
        match self {
            Join::LeftOuterJoin(join) => JoinView::LeftOuterJoin {
                select: join.select@,
                alias: join.alias@,
                on: join.on@,
            },
            Join::InnerJoin(join) => JoinView::InnerJoin { select: join.select@, alias: join.alias@ },
            Join::CrossJoin(join) => JoinView::CrossJoin { select: join.select@, alias: join.alias@ },
            Join::FullOuterJoin(join) => JoinView::FullOuterJoin {
                select: join.select@,
                alias: join.alias@,
            },
        }
    }
}

// Copies of names and references: a copy has the model of what it copies.

impl Clone for SchemaName {
    fn clone(&self) -> (copy: Self)
        ensures
            copy@ == self@,
    {
        SchemaName(self.0.clone())
    }
}

impl Clone for TableName {
    fn clone(&self) -> (copy: Self)
        ensures
            copy@ == self@,
    {
        TableName(self.0.clone())
    }
}

impl Clone for Gsi {
    fn clone(&self) -> (copy: Self)
        ensures
            copy@ == self@,
    {
        Gsi(self.0.clone())
    }
}

impl Clone for ColumnName {
    fn clone(&self) -> (copy: Self)
        ensures
            copy@ == self@,
    {
        ColumnName(self.0.clone())
    }
}

impl Clone for ColumnAlias {
    fn clone(&self) -> (copy: Self)
        ensures
            copy@ == self@,
    {
        ColumnAlias { name: self.name.clone() }
    }
}

impl Clone for NestedField {
    fn clone(&self) -> (copy: Self)
        ensures
            copy@ == self@,
    {
        NestedField(self.0.clone())
    }
}

impl Clone for BinaryOperator {
    fn clone(&self) -> (copy: Self)
        ensures
            copy@ == self@,
    {
        BinaryOperator(self.0.clone())
    }
}

impl Clone for TableAlias {
    fn clone(&self) -> (copy: Self)
        ensures
            copy@ == self@,
    {
        TableAlias { unique_index: self.unique_index, name: self.name.clone() }
    }
}

impl Clone for TableReference {
    fn clone(&self) -> (copy: Self)
        ensures
            copy@ == self@,
    {
        match self {
            TableReference::DBTable { table, gsi } => TableReference::DBTable {
                table: table.clone(),
                gsi: match gsi {
                    Some(gsi) => Some(gsi.clone()),
                    None => None,
                },
            },
            TableReference::AliasedTable(alias) => TableReference::AliasedTable(alias.clone()),
        }
    }
}

impl Clone for ColumnReference {
    fn clone(&self) -> (copy: Self)
        ensures
            copy@ == self@,
    {
        match self {
            ColumnReference::TableColumn { table, name } => ColumnReference::TableColumn {
                table: table.clone(),
                name: name.clone(),
            },
            ColumnReference::AliasedColumn { table, column } => ColumnReference::AliasedColumn {
                table: table.clone(),
                column: column.clone(),
            },
        }
    }
}

impl Clone for ScalarTypeName {
    fn clone(&self) -> (copy: Self)
        ensures
            copy@ == self@,
    {
        match self {
            ScalarTypeName::Qualified { schema_name, name } => ScalarTypeName::Qualified {
                schema_name: schema_name.clone(),
                name: name.clone(),
            },
            ScalarTypeName::Unqualified(name) => ScalarTypeName::Unqualified(name.clone()),
        }
    }
}

impl Clone for ScalarType {
    fn clone(&self) -> (copy: Self)
        ensures
            copy@ == self@,
    {
        match self {
            ScalarType::BaseType(name) => ScalarType::BaseType(name.clone()),
            ScalarType::ArrayType(name) => ScalarType::ArrayType(name.clone()),
        }
    }
}

} // verus!
