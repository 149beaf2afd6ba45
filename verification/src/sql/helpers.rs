//! Builders for statement trees of common shapes.

use crate::sql::ast::{
    ColumnAlias, ColumnName, ColumnReference, Expression, From, Function, GroupBy, Limit, OrderBy,
    ReturnsFields, ScalarType, ScalarTypeName, Select, SelectList, TableAlias, TableReference,
    Value, Where, With,
};
use crate::sql::model::{
    ColumnReferenceView, ExpressionView, FromView, FunctionView, ScalarTypeNameView,
    ScalarTypeView, SelectListView, SelectView, TableReferenceView, ValueView, WithView,
};
use crate::sql::render::{false_expression, true_expression};
use vstd::prelude::*;

verus! {

/// What a query selects: its rows.
#[derive(Debug)]
pub enum SelectSet {
    Rows(Select),
}

impl View for SelectSet {
    type V = SelectView;

    open spec fn view(&self) -> SelectView {
        match self {
            SelectSet::Rows(select) => select@,
        }
    }
}

/// Whether results are aggregated or returned as single rows.
#[derive(Clone, Copy)]
pub enum ResultsKind {
    AggregateResults,
    ObjectResults,
}

/// The name of the field that holds the values of variable sets.
pub const VARIABLES_FIELD: &'static str = "%variables";

/// The placeholder of the parameter through which variable sets are passed.
pub const VARIABLES_OBJECT_PLACEHOLDER: &'static str = "%VARIABLES_OBJECT_PLACEHOLDER";

/// The name of the field by which results of several variable sets are
/// ordered.
pub const VARIABLE_ORDER_FIELD: &'static str = "%variable_order";

/// The model of a `SELECT` of the given list that has no other clause.
pub open spec fn simple_select_view(select_list: SelectListView) -> SelectView {
    SelectView {
        with: WithView { common_table_expressions: Seq::empty() },
        select_list,
        from: None,
        where_: true_expression(),
        order_by: Seq::empty(),
    }
}

/// The model of `coalesce(<first>, '[]')`.
pub open spec fn coalesce_view(first: ExpressionView) -> ExpressionView {
    ExpressionView::FunctionCall {
        function: FunctionView::Coalesce,
        args: seq![first, ExpressionView::Value(ValueView::EmptyJsonArray)],
    }
}

/// The model of a query that selects one expression, under an alias, from a
/// subquery.
pub open spec fn select_from_subquery_view(
    column_alias: Seq<char>,
    expression: ExpressionView,
    subquery: SelectView,
    table_alias: crate::sql::model::TableAliasView,
) -> SelectView {
    SelectView {
        from: Some(FromView::Select { select: Box::new(subquery), alias: table_alias }),
        ..simple_select_view(SelectListView::SelectList(seq![(column_alias, expression)]))
    }
}

/// An empty `WITH` clause.
pub fn empty_with() -> (with: With)
    ensures
        with@ == (WithView { common_table_expressions: Seq::empty() }),
{
    let with = With { common_table_expressions: Vec::new() };
    assert(with@.common_table_expressions =~= Seq::empty());
    with
}

/// Puts a `WITH` clause in front of a select.
pub fn wrap_with(with: With, select: Select) -> (wrapped: Select)
    ensures
        wrapped@ == (SelectView { with: with@, ..select@ }),
{
    let mut select = select;
    select.with = with;
    select
}

/// An empty `WHERE` clause: the condition `true`.
pub fn empty_where() -> (condition: Expression)
    ensures
        condition@ == true_expression(),
{
    Expression::Value(Value::Bool(true))
}

/// An empty `GROUP BY` clause.
pub fn empty_group_by() -> (group_by: GroupBy)
    ensures
        group_by == (GroupBy {  }),
{
    GroupBy {  }
}

/// An empty `ORDER BY` clause.
pub fn empty_order_by() -> (order_by: OrderBy)
    ensures
        order_by@ == Seq::<crate::sql::model::OrderByElementView>::empty(),
{
    let order_by = OrderBy { elements: Vec::new() };
    assert(order_by@ =~= Seq::empty());
    order_by
}

/// Empty `LIMIT` and `OFFSET` clauses.
pub fn empty_limit() -> (limit: Limit)
    ensures
        limit.limit is None,
        limit.offset is None,
{
    Limit { limit: None, offset: None }
}

/// The expression `true`.
pub fn true_expr() -> (expression: Expression)
    ensures
        expression@ == true_expression(),
{
    Expression::Value(Value::Bool(true))
}

/// The expression `false`.
pub fn false_expr() -> (expression: Expression)
    ensures
        expression@ == false_expression(),
{
    Expression::Value(Value::Bool(false))
}

/// A column of a table, under an alias.
pub fn make_column(table: TableReference, name: ColumnName, alias: ColumnAlias) -> (column: (
    ColumnAlias,
    Expression,
))
    ensures
        column.0@ == alias@,
        column.1@ == ExpressionView::ColumnReference(
            ColumnReferenceView::TableColumn { table: table@, name: name@ },
        ),
{
    (alias, Expression::ColumnReference(ColumnReference::TableColumn { table, name }))
}

/// The alias of a column, by its name.
pub fn make_column_alias(name: String) -> (alias: ColumnAlias)
    ensures
        alias@ == name@,
{
    ColumnAlias { name }
}

/// A `SELECT` of a list of expressions that has no other clause.
pub fn simple_select(select_list: Vec<(ColumnAlias, Expression)>) -> (select: Select)
    ensures
        select@ == simple_select_view(
            SelectListView::SelectList(crate::sql::model::aliased_expressions_view(select_list@)),
        ),
{
    Select {
        with: empty_with(),
        select_list: SelectList::SelectList(select_list),
        from: None,
        where_: Where(empty_where()),
        order_by: empty_order_by(),
    }
}

/// `SELECT *` from a source.
pub fn star_select(from: From) -> (select: Select)
    ensures
        select@ == (SelectView {
            from: Some(from@),
            ..simple_select_view(SelectListView::SelectStar)
        }),
{
    Select {
        with: empty_with(),
        select_list: SelectList::SelectStar,
        from: Some(from),
        where_: Where(empty_where()),
        order_by: empty_order_by(),
    }
}

/// `SELECT <table>.*` from a source.
pub fn star_from_select(table: TableReference, from: From) -> (select: Select)
    ensures
        select@ == (SelectView {
            from: Some(from@),
            ..simple_select_view(SelectListView::SelectStarFrom(table@))
        }),
{
    Select {
        with: empty_with(),
        select_list: SelectList::SelectStarFrom(table),
        from: Some(from),
        where_: Where(empty_where()),
        order_by: empty_order_by(),
    }
}

/// `EXISTS (SELECT 1 FROM <from> WHERE <condition>)`.
pub fn where_exists_select(from: From, where_: Where) -> (expression: Expression)
    ensures
        expression@ == (ExpressionView::Exists {
            select: Box::new(
                SelectView {
                    from: Some(from@),
                    where_: where_@,
                    ..simple_select_view(SelectListView::Select1)
                },
            ),
        }),
{
    let select = Select {
        with: empty_with(),
        select_list: SelectList::Select1,
        from: Some(from),
        where_,
        order_by: empty_order_by(),
    };
    assert(select@ == (SelectView {
        from: Some(from@),
        where_: where_@,
        ..simple_select_view(SelectListView::Select1)
    }));
    Expression::Exists { select: Box::new(select) }
}

/// The one query of a selection set. A query that asked for no fields keeps
/// its rows too: they select the literal `1`.
pub fn select_rowset(select_set: SelectSet, returns_field: &ReturnsFields) -> (select: Select)
    ensures
        select@ == select_set@,
{
    match select_set {
        SelectSet::Rows(row_select) => match returns_field {
            ReturnsFields::FieldsWereRequested => row_select,
            ReturnsFields::NoFieldsWereRequested => row_select,
        },
    }
}

/// The scalar type `int4`, without a schema.
pub fn int4_type() -> (scalar_type: ScalarType)
    ensures
        scalar_type@ == ScalarTypeView::BaseType(ScalarTypeNameView::Unqualified("int4"@)),
{
    ScalarType::BaseType(ScalarTypeName::Unqualified(String::from_str("int4")))
}

/// The scalar type `jsonb`, without a schema.
pub fn jsonb_type() -> (scalar_type: ScalarType)
    ensures
        scalar_type@ == ScalarTypeView::BaseType(ScalarTypeNameView::Unqualified("jsonb"@)),
{
    ScalarType::BaseType(ScalarTypeName::Unqualified(String::from_str("jsonb")))
}

/// The name of the scalar type `text`, without a schema.
pub fn text_type_name() -> (name: ScalarTypeName)
    ensures
        name@ == ScalarTypeNameView::Unqualified("text"@),
{
    ScalarTypeName::Unqualified(String::from_str("text"))
}

/// `coalesce(<first>, '[]')`.
fn coalesce(first: Expression) -> (expression: Expression)
    ensures
        expression@ == coalesce_view(first@),
{
    let fallback = Expression::Value(Value::EmptyJsonArray);
    assert(fallback@ == ExpressionView::Value(ValueView::EmptyJsonArray));
    let mut args: Vec<Expression> = Vec::new();
    args.push(first);
    args.push(fallback);
    assert(crate::sql::model::expression_list_view(args@) =~= seq![first@, fallback@]);
    Expression::FunctionCall { function: Function::Coalesce, args }
}

/// A query that selects one expression, under an alias, from a subquery.
fn select_from_subquery(
    column_alias: ColumnAlias,
    expression: Expression,
    subquery: Select,
    table_alias: TableAlias,
) -> (select: Select)
    ensures
        select@ == select_from_subquery_view(
            column_alias@,
            expression@,
            subquery@,
            table_alias@,
        ),
{
    let mut columns: Vec<(ColumnAlias, Expression)> = Vec::new();
    columns.push((column_alias, expression));
    assert(crate::sql::model::aliased_expressions_view(columns@) =~= seq![
        (column_alias@, expression@),
    ]);
    let mut select = simple_select(columns);
    let from = From::Select { select: Box::new(subquery), alias: table_alias };
    assert(from@ == (FromView::Select { select: Box::new(subquery@), alias: table_alias@ }));
    select.from = Some(from);
    select
}

/// Wraps a query so that all of its rows come back as one JSON array of
/// objects:
/// `SELECT coalesce(json_agg(row_to_json(<table_alias>)), '[]') FROM <query>`.
pub fn select_rows_as_json(
    row_select: Select,
    column_alias: ColumnAlias,
    table_alias: TableAlias,
) -> (select: Select)
    ensures
        select@ == select_from_subquery_view(
            column_alias@,
            coalesce_view(
                ExpressionView::FunctionCall {
                    function: FunctionView::JsonAgg,
                    args: seq![
                        ExpressionView::RowToJson(TableReferenceView::AliasedTable(table_alias@)),
                    ],
                },
            ),
            row_select@,
            table_alias@,
        ),
{
    let row = Expression::RowToJson(TableReference::AliasedTable(table_alias.clone()));
    assert(row@ == ExpressionView::RowToJson(TableReferenceView::AliasedTable(table_alias@)));
    let mut inner_args: Vec<Expression> = Vec::new();
    inner_args.push(row);
    assert(crate::sql::model::expression_list_view(inner_args@) =~= seq![row@]);
    let inner = Expression::FunctionCall { function: Function::JsonAgg, args: inner_args };
    select_from_subquery(column_alias, coalesce(inner), row_select, table_alias)
}

/// Wraps a query that returns a single row so that the row comes back as a
/// JSON object: `SELECT coalesce(row_to_json(<table_alias>), '[]') FROM <query>`.
pub fn select_row_as_json_with_default(
    select: Select,
    column_alias: ColumnAlias,
    table_alias: TableAlias,
) -> (final_select: Select)
    ensures
        final_select@ == select_from_subquery_view(
            column_alias@,
            coalesce_view(
                ExpressionView::RowToJson(TableReferenceView::AliasedTable(table_alias@)),
            ),
            select@,
            table_alias@,
        ),
{
    let row = Expression::RowToJson(TableReference::AliasedTable(table_alias.clone()));
    assert(row@ == ExpressionView::RowToJson(TableReferenceView::AliasedTable(table_alias@)));
    select_from_subquery(column_alias, coalesce(row), select, table_alias)
}

} // verus!
