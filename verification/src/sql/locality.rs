//! Rendering is a function of the node alone: what a node adds to a
//! statement does not depend on what the statement holds already.

use crate::sql::model::{
    CTExprView, CommonTableExpressionView, ExpressionView, FromView, OrderByElementView,
    RawSqlView, ScalarTypeView, SelectListView, SelectView, ValueView, WithView,
};
use crate::sql::render::true_expression;
use crate::sql::string::{ParamView, SQLView};
use vstd::prelude::*;

verus! {

impl SQLView {
    /// The rendering followed by all of another one.
    pub open spec fn followed_by(self, other: SQLView) -> SQLView {
        SQLView { sql: self.sql + other.sql, params: self.params + other.params }
    }
}

/// Text and parameters are added at the end, whatever stands before.
pub proof fn lemma_text_is_local()
    ensures
        forall|out: SQLView, rest: SQLView, text: Seq<char>|
            #![trigger out.followed_by(rest).with_text(text)]
            out.followed_by(rest).with_text(text) == out.followed_by(rest.with_text(text)),
        forall|out: SQLView, rest: SQLView, param: ParamView|
            #![trigger out.followed_by(rest).with_param(param)]
            out.followed_by(rest).with_param(param) == out.followed_by(rest.with_param(param)),
        forall|out: SQLView| #[trigger] out.followed_by(SQLView::empty()) == out,
{
    assert forall|out: SQLView, rest: SQLView, text: Seq<char>|
        #![trigger out.followed_by(rest).with_text(text)]
        out.followed_by(rest).with_text(text) == out.followed_by(rest.with_text(text)) by {
        assert(out.followed_by(rest).with_text(text) =~= out.followed_by(rest.with_text(text)));
    }
    assert forall|out: SQLView, rest: SQLView, param: ParamView|
        #![trigger out.followed_by(rest).with_param(param)]
        out.followed_by(rest).with_param(param) == out.followed_by(rest.with_param(param)) by {
        assert(out.followed_by(rest).with_param(param) =~= out.followed_by(
            rest.with_param(param),
        ));
    }
    assert forall|out: SQLView| #[trigger] out.followed_by(SQLView::empty()) == out by {
        assert(out.followed_by(SQLView::empty()) =~= out);
    }
}

/// `with_value` renders the same after anything.
pub proof fn lemma_with_value(value: ValueView)
    ensures
        forall|out: SQLView, rest: SQLView|
            #![trigger out.followed_by(rest).with_value(value)]
            out.followed_by(rest).with_value(value) == out.followed_by(
                rest.with_value(value),
            ),
    decreases value, 0nat,
{
    lemma_text_is_local();
    assert forall|out: SQLView, rest: SQLView|
        #![trigger out.followed_by(rest).with_value(value)]
        out.followed_by(rest).with_value(value) == out.followed_by(
            rest.with_value(value),
        ) by {
        match value {
            ValueView::EmptyJsonArray => {},
            ValueView::Int8(i) => {},
            ValueView::Float8(text) => {},
            ValueView::Character(s) => {},
            ValueView::String(s) => {},
            ValueView::Variable(name) => {},
            ValueView::Bool(b) => if b {} else {},
            ValueView::Null => {},
            ValueView::JsonValue(json) => {},
            ValueView::Array(items) => {
                lemma_with_values(items, items.len());
                let front = rest
                    .with_text("ARRAY ["@);
                assert(out.followed_by(front).with_values(items, items.len())
                        == out.followed_by(front.with_values(items, items.len())));
            },
        }
    }
}

/// `with_values` renders the same after anything.
pub proof fn lemma_with_values(items: Seq<ValueView>, count: nat)
    ensures
        forall|out: SQLView, rest: SQLView|
            #![trigger out.followed_by(rest).with_values(items, count)]
            out.followed_by(rest).with_values(items, count) == out.followed_by(
                rest.with_values(items, count),
            ),
    decreases items, count,
{
    lemma_text_is_local();
    assert forall|out: SQLView, rest: SQLView|
        #![trigger out.followed_by(rest).with_values(items, count)]
        out.followed_by(rest).with_values(items, count) == out.followed_by(
            rest.with_values(items, count),
        ) by {
        if 0 < count <= items.len() {
            lemma_with_values(items, (count - 1) as nat);
            let front = rest;
            assert(out.followed_by(front).with_values(items, (count - 1) as nat)
                    == out.followed_by(front.with_values(items, (count - 1) as nat)));
            lemma_with_value(items[count - 1]);
            let front = rest
                .with_values(items, (count - 1) as nat)
                .with_separator(count - 1, ", "@);
            assert(out.followed_by(front).with_value(items[count - 1])
                    == out.followed_by(front.with_value(items[count - 1])));
        } else {}
    }
}

/// `with_expression` renders the same after anything.
pub proof fn lemma_with_expression(expression: ExpressionView)
    ensures
        forall|out: SQLView, rest: SQLView|
            #![trigger out.followed_by(rest).with_expression(expression)]
            out.followed_by(rest).with_expression(expression) == out.followed_by(
                rest.with_expression(expression),
            ),
    decreases expression, 0nat,
{
    lemma_text_is_local();
    assert forall|out: SQLView, rest: SQLView|
        #![trigger out.followed_by(rest).with_expression(expression)]
        out.followed_by(rest).with_expression(expression) == out.followed_by(
            rest.with_expression(expression),
        ) by {
        match expression {
            ExpressionView::ColumnReference(column) => {},
            ExpressionView::TableReference(table) => {},
            ExpressionView::Value(value) => {
                lemma_with_value(value);
                let front = rest;
                assert(out.followed_by(front).with_value(value)
                        == out.followed_by(front.with_value(value)));
            },
            ExpressionView::Cast { expression, type_ } => {
                lemma_with_expression(*expression);
                let front = rest;
                assert(out.followed_by(front).with_expression(*expression)
                        == out.followed_by(front.with_expression(*expression)));
            },
            ExpressionView::And { left, right } => {
                lemma_with_expression(*left);
                let front = rest
                    .with_text("("@);
                assert(out.followed_by(front).with_expression(*left)
                        == out.followed_by(front.with_expression(*left)));
                lemma_with_expression(*right);
                let front = rest
                    .with_text("("@)
                    .with_expression(*left)
                    .with_text(" AND "@);
                assert(out.followed_by(front).with_expression(*right)
                        == out.followed_by(front.with_expression(*right)));
            },
            ExpressionView::Or { left, right } => {
                lemma_with_expression(*left);
                let front = rest
                    .with_text("("@);
                assert(out.followed_by(front).with_expression(*left)
                        == out.followed_by(front.with_expression(*left)));
                lemma_with_expression(*right);
                let front = rest
                    .with_text("("@)
                    .with_expression(*left)
                    .with_text(" OR "@);
                assert(out.followed_by(front).with_expression(*right)
                        == out.followed_by(front.with_expression(*right)));
            },
            ExpressionView::Not(inner) => {
                lemma_with_expression(*inner);
                let front = rest
                    .with_text("NOT ("@);
                assert(out.followed_by(front).with_expression(*inner)
                        == out.followed_by(front.with_expression(*inner)));
            },
            ExpressionView::BinaryOperation { left, operator, right } => {
                lemma_with_expression(*left);
                let front = rest
                    .with_text("("@);
                assert(out.followed_by(front).with_expression(*left)
                        == out.followed_by(front.with_expression(*left)));
                lemma_with_expression(*right);
                let front = rest
                    .with_text("("@)
                    .with_expression(*left)
                    .with_binary_operator(operator);
                assert(out.followed_by(front).with_expression(*right)
                        == out.followed_by(front.with_expression(*right)));
            },
            ExpressionView::BinaryArrayOperation { left, operator, right } => {
                lemma_with_expression(*left);
                let front = rest
                    .with_text("("@);
                assert(out.followed_by(front).with_expression(*left)
                        == out.followed_by(front.with_expression(*left)));
                lemma_with_expressions(right, right.len(), ", "@);
                let front = rest
                    .with_text("("@)
                    .with_expression(*left)
                    .with_binary_array_operator(operator)
                    .with_text("("@);
                assert(out.followed_by(front).with_expressions(right, right.len(), ", "@)
                        == out.followed_by(front.with_expressions(right, right.len(), ", "@)));
            },
            ExpressionView::UnaryOperation { expression, operator } => {
                lemma_with_expression(*expression);
                let front = rest
                    .with_text("("@);
                assert(out.followed_by(front).with_expression(*expression)
                        == out.followed_by(front.with_expression(*expression)));
            },
            ExpressionView::FunctionCall { function, args } => {
                lemma_with_expressions(args, args.len(), ", "@);
                let front = rest
                    .with_function(function)
                    .with_text("("@);
                assert(out.followed_by(front).with_expressions(args, args.len(), ", "@)
                        == out.followed_by(front.with_expressions(args, args.len(), ", "@)));
            },
            ExpressionView::JoinExpressions(expressions) => {
                lemma_with_expressions(expressions, expressions.len(), Seq::empty());
                let front = rest;
                assert(out.followed_by(front).with_expressions(expressions, expressions.len(), Seq::empty())
                        == out.followed_by(front.with_expressions(expressions, expressions.len(), Seq::empty())));
            },
            ExpressionView::SafeOffSet { offset } => {},
            ExpressionView::Exists { select } => {
                lemma_with_select(*select);
                let front = rest
                    .with_text("EXISTS "@)
                    .with_text("("@);
                assert(out.followed_by(front).with_select(*select)
                        == out.followed_by(front.with_select(*select)));
            },
            ExpressionView::JsonBuildObject(members) => {
                lemma_with_members(members, members.len());
                let front = rest
                    .with_text("JSON_OBJECT"@)
                    .with_text("("@);
                assert(out.followed_by(front).with_members(members, members.len())
                        == out.followed_by(front.with_members(members, members.len())));
            },
            ExpressionView::RowToJson(table) => {},
            ExpressionView::Count(count_type) => {},
            ExpressionView::ArrayConstructor(elements) => {
                lemma_with_expressions(elements, elements.len(), ", "@);
                let front = rest
                    .with_text("ARRAY["@);
                assert(out.followed_by(front).with_expressions(elements, elements.len(), ", "@)
                        == out.followed_by(front.with_expressions(elements, elements.len(), ", "@)));
            },
            ExpressionView::CorrelatedSubSelect(select) => {
                lemma_with_select(*select);
                let front = rest
                    .with_text("("@);
                assert(out.followed_by(front).with_select(*select)
                        == out.followed_by(front.with_select(*select)));
            },
            ExpressionView::NestedFieldSelect { expression, nested_field } => {
                lemma_with_expression(*expression);
                let front = rest
                    .with_text("("@);
                assert(out.followed_by(front).with_expression(*expression)
                        == out.followed_by(front.with_expression(*expression)));
            },
        }
    }
}

/// `with_expressions` renders the same after anything.
pub proof fn lemma_with_expressions(expressions: Seq<ExpressionView>, count: nat, separator: Seq<char>)
    ensures
        forall|out: SQLView, rest: SQLView|
            #![trigger out.followed_by(rest).with_expressions(expressions, count, separator)]
            out.followed_by(rest).with_expressions(expressions, count, separator) == out.followed_by(
                rest.with_expressions(expressions, count, separator),
            ),
    decreases expressions, count,
{
    lemma_text_is_local();
    assert forall|out: SQLView, rest: SQLView|
        #![trigger out.followed_by(rest).with_expressions(expressions, count, separator)]
        out.followed_by(rest).with_expressions(expressions, count, separator) == out.followed_by(
            rest.with_expressions(expressions, count, separator),
        ) by {
        if 0 < count <= expressions.len() {
            lemma_with_expressions(expressions, (count - 1) as nat, separator);
            let front = rest;
            assert(out.followed_by(front).with_expressions(expressions, (count - 1) as nat, separator)
                    == out.followed_by(front.with_expressions(expressions, (count - 1) as nat, separator)));
            lemma_with_expression(expressions[count - 1]);
            let front = rest
                .with_expressions(expressions, (count - 1) as nat, separator)
                .with_separator(count - 1, separator);
            assert(out.followed_by(front).with_expression(expressions[count - 1])
                    == out.followed_by(front.with_expression(expressions[count - 1])));
        } else {}
    }
}

/// `with_members` renders the same after anything.
pub proof fn lemma_with_members(members: Seq<(Seq<char>, ExpressionView)>, count: nat)
    ensures
        forall|out: SQLView, rest: SQLView|
            #![trigger out.followed_by(rest).with_members(members, count)]
            out.followed_by(rest).with_members(members, count) == out.followed_by(
                rest.with_members(members, count),
            ),
    decreases members, count,
{
    lemma_text_is_local();
    assert forall|out: SQLView, rest: SQLView|
        #![trigger out.followed_by(rest).with_members(members, count)]
        out.followed_by(rest).with_members(members, count) == out.followed_by(
            rest.with_members(members, count),
        ) by {
        if 0 < count <= members.len() {
            lemma_with_members(members, (count - 1) as nat);
            let front = rest;
            assert(out.followed_by(front).with_members(members, (count - 1) as nat)
                    == out.followed_by(front.with_members(members, (count - 1) as nat)));
            lemma_with_expression(members[count - 1].1);
            let front = rest
                .with_members(members, (count - 1) as nat)
                .with_separator(count - 1, ", "@)
                .with_text("'"@)
                .with_text(members[count - 1].0)
                .with_text("'"@)
                .with_text(", "@);
            assert(out.followed_by(front).with_expression(members[count - 1].1)
                    == out.followed_by(front.with_expression(members[count - 1].1)));
        } else {}
    }
}

/// `with_aliased` renders the same after anything.
pub proof fn lemma_with_aliased(columns: Seq<(Seq<char>, ExpressionView)>, count: nat)
    ensures
        forall|out: SQLView, rest: SQLView|
            #![trigger out.followed_by(rest).with_aliased(columns, count)]
            out.followed_by(rest).with_aliased(columns, count) == out.followed_by(
                rest.with_aliased(columns, count),
            ),
    decreases columns, count,
{
    lemma_text_is_local();
    assert forall|out: SQLView, rest: SQLView|
        #![trigger out.followed_by(rest).with_aliased(columns, count)]
        out.followed_by(rest).with_aliased(columns, count) == out.followed_by(
            rest.with_aliased(columns, count),
        ) by {
        if 0 < count <= columns.len() {
            lemma_with_aliased(columns, (count - 1) as nat);
            let front = rest;
            assert(out.followed_by(front).with_aliased(columns, (count - 1) as nat)
                    == out.followed_by(front.with_aliased(columns, (count - 1) as nat)));
            lemma_with_expression(columns[count - 1].1);
            let front = rest
                .with_aliased(columns, (count - 1) as nat)
                .with_separator(count - 1, ", "@);
            assert(out.followed_by(front).with_expression(columns[count - 1].1)
                    == out.followed_by(front.with_expression(columns[count - 1].1)));
        } else {}
    }
}

/// `with_select_list` renders the same after anything.
pub proof fn lemma_with_select_list(select_list: SelectListView)
    ensures
        forall|out: SQLView, rest: SQLView|
            #![trigger out.followed_by(rest).with_select_list(select_list)]
            out.followed_by(rest).with_select_list(select_list) == out.followed_by(
                rest.with_select_list(select_list),
            ),
    decreases select_list, 0nat,
{
    lemma_text_is_local();
    assert forall|out: SQLView, rest: SQLView|
        #![trigger out.followed_by(rest).with_select_list(select_list)]
        out.followed_by(rest).with_select_list(select_list) == out.followed_by(
            rest.with_select_list(select_list),
        ) by {
        match select_list {
            SelectListView::SelectList(columns) => {
                lemma_with_aliased(columns, columns.len());
                let front = rest;
                assert(out.followed_by(front).with_aliased(columns, columns.len())
                        == out.followed_by(front.with_aliased(columns, columns.len())));
            },
            SelectListView::SelectStar => {},
            SelectListView::SelectStarFrom(table) => {},
            SelectListView::Select1 => {},
        }
    }
}

/// `with_typed_columns` renders the same after anything.
pub proof fn lemma_with_typed_columns(columns: Seq<(Seq<char>, ScalarTypeView)>, count: nat)
    ensures
        forall|out: SQLView, rest: SQLView|
            #![trigger out.followed_by(rest).with_typed_columns(columns, count)]
            out.followed_by(rest).with_typed_columns(columns, count) == out.followed_by(
                rest.with_typed_columns(columns, count),
            ),
    decreases count,
{
    lemma_text_is_local();
    assert forall|out: SQLView, rest: SQLView|
        #![trigger out.followed_by(rest).with_typed_columns(columns, count)]
        out.followed_by(rest).with_typed_columns(columns, count) == out.followed_by(
            rest.with_typed_columns(columns, count),
        ) by {
        if 0 < count <= columns.len() {
            lemma_with_typed_columns(columns, (count - 1) as nat);
            let front = rest;
            assert(out.followed_by(front).with_typed_columns(columns, (count - 1) as nat)
                    == out.followed_by(front.with_typed_columns(columns, (count - 1) as nat)));
        } else {}
    }
}

/// `with_from` renders the same after anything.
pub proof fn lemma_with_from(from: FromView)
    ensures
        forall|out: SQLView, rest: SQLView|
            #![trigger out.followed_by(rest).with_from(from)]
            out.followed_by(rest).with_from(from) == out.followed_by(
                rest.with_from(from),
            ),
    decreases from, 0nat,
{
    lemma_text_is_local();
    assert forall|out: SQLView, rest: SQLView|
        #![trigger out.followed_by(rest).with_from(from)]
        out.followed_by(rest).with_from(from) == out.followed_by(
            rest.with_from(from),
        ) by {
        match from {
            FromView::Table { reference, alias } => {},
            FromView::Select { select, alias } => {
                lemma_with_select(*select);
                let front = rest
                    .with_text("FROM "@)
                    .with_text("("@);
                assert(out.followed_by(front).with_select(*select)
                        == out.followed_by(front.with_select(*select)));
            },
            FromView::JsonbToRecordset { expression, alias, columns } => {
                lemma_with_expression(expression);
                let front = rest
                    .with_text("FROM "@)
                    .with_text("jsonb_to_recordset"@)
                    .with_text("("@);
                assert(out.followed_by(front).with_expression(expression)
                        == out.followed_by(front.with_expression(expression)));
                lemma_with_typed_columns(columns, columns.len());
                let front = rest
                    .with_text("FROM "@)
                    .with_text("jsonb_to_recordset"@)
                    .with_text("("@)
                    .with_expression(expression)
                    .with_text(")"@)
                    .with_text(" AS "@)
                    .with_table_alias(alias)
                    .with_text("("@);
                assert(out.followed_by(front).with_typed_columns(columns, columns.len())
                        == out.followed_by(front.with_typed_columns(columns, columns.len())));
            },
            FromView::JsonbArrayElements { expression, alias, column } => {
                lemma_with_expression(expression);
                let front = rest
                    .with_text("FROM "@)
                    .with_text("jsonb_array_elements"@)
                    .with_text("("@);
                assert(out.followed_by(front).with_expression(expression)
                        == out.followed_by(front.with_expression(expression)));
            },
            FromView::Unnest { expression, alias, column } => {
                lemma_with_expression(expression);
                let front = rest
                    .with_text("FROM "@)
                    .with_text("UNNEST"@)
                    .with_text("("@);
                assert(out.followed_by(front).with_expression(expression)
                        == out.followed_by(front.with_expression(expression)));
            },
        }
    }
}

/// `with_where` renders the same after anything.
pub proof fn lemma_with_where(condition: ExpressionView)
    ensures
        forall|out: SQLView, rest: SQLView|
            #![trigger out.followed_by(rest).with_where(condition)]
            out.followed_by(rest).with_where(condition) == out.followed_by(
                rest.with_where(condition),
            ),
    decreases condition, 1nat,
{
    lemma_text_is_local();
    assert forall|out: SQLView, rest: SQLView|
        #![trigger out.followed_by(rest).with_where(condition)]
        out.followed_by(rest).with_where(condition) == out.followed_by(
            rest.with_where(condition),
        ) by {
        if condition == true_expression() {} else {
            lemma_with_expression(condition);
            let front = rest
                .with_text(" WHERE "@);
            assert(out.followed_by(front).with_expression(condition)
                    == out.followed_by(front.with_expression(condition)));
        }
    }
}

/// `with_order_by_element` renders the same after anything.
pub proof fn lemma_with_order_by_element(element: OrderByElementView)
    ensures
        forall|out: SQLView, rest: SQLView|
            #![trigger out.followed_by(rest).with_order_by_element(element)]
            out.followed_by(rest).with_order_by_element(element) == out.followed_by(
                rest.with_order_by_element(element),
            ),
    decreases element, 0nat,
{
    lemma_text_is_local();
    assert forall|out: SQLView, rest: SQLView|
        #![trigger out.followed_by(rest).with_order_by_element(element)]
        out.followed_by(rest).with_order_by_element(element) == out.followed_by(
            rest.with_order_by_element(element),
        ) by {
        {
            lemma_with_expression(element.target);
            let front = rest;
            assert(out.followed_by(front).with_expression(element.target)
                    == out.followed_by(front.with_expression(element.target)));
        }
    }
}

/// `with_order_by_elements` renders the same after anything.
pub proof fn lemma_with_order_by_elements(elements: Seq<OrderByElementView>, count: nat)
    ensures
        forall|out: SQLView, rest: SQLView|
            #![trigger out.followed_by(rest).with_order_by_elements(elements, count)]
            out.followed_by(rest).with_order_by_elements(elements, count) == out.followed_by(
                rest.with_order_by_elements(elements, count),
            ),
    decreases elements, count,
{
    lemma_text_is_local();
    assert forall|out: SQLView, rest: SQLView|
        #![trigger out.followed_by(rest).with_order_by_elements(elements, count)]
        out.followed_by(rest).with_order_by_elements(elements, count) == out.followed_by(
            rest.with_order_by_elements(elements, count),
        ) by {
        if 0 < count <= elements.len() {
            lemma_with_order_by_elements(elements, (count - 1) as nat);
            let front = rest;
            assert(out.followed_by(front).with_order_by_elements(elements, (count - 1) as nat)
                    == out.followed_by(front.with_order_by_elements(elements, (count - 1) as nat)));
            lemma_with_order_by_element(elements[count - 1]);
            let front = rest
                .with_order_by_elements(elements, (count - 1) as nat)
                .with_separator(count - 1, ", "@);
            assert(out.followed_by(front).with_order_by_element(elements[count - 1])
                    == out.followed_by(front.with_order_by_element(elements[count - 1])));
        } else {}
    }
}

/// `with_order_by` renders the same after anything.
pub proof fn lemma_with_order_by(elements: Seq<OrderByElementView>)
    ensures
        forall|out: SQLView, rest: SQLView|
            #![trigger out.followed_by(rest).with_order_by(elements)]
            out.followed_by(rest).with_order_by(elements) == out.followed_by(
                rest.with_order_by(elements),
            ),
    decreases elements, elements.len() + 1,
{
    lemma_text_is_local();
    assert forall|out: SQLView, rest: SQLView|
        #![trigger out.followed_by(rest).with_order_by(elements)]
        out.followed_by(rest).with_order_by(elements) == out.followed_by(
            rest.with_order_by(elements),
        ) by {
        if elements.len() == 0 {} else {
            lemma_with_order_by_elements(elements, elements.len());
            let front = rest
                .with_text(" ORDER BY "@);
            assert(out.followed_by(front).with_order_by_elements(elements, elements.len())
                    == out.followed_by(front.with_order_by_elements(elements, elements.len())));
        }
    }
}

/// `with_raw_sql` renders the same after anything.
pub proof fn lemma_with_raw_sql(raw: RawSqlView)
    ensures
        forall|out: SQLView, rest: SQLView|
            #![trigger out.followed_by(rest).with_raw_sql(raw)]
            out.followed_by(rest).with_raw_sql(raw) == out.followed_by(
                rest.with_raw_sql(raw),
            ),
    decreases raw, 0nat,
{
    lemma_text_is_local();
    assert forall|out: SQLView, rest: SQLView|
        #![trigger out.followed_by(rest).with_raw_sql(raw)]
        out.followed_by(rest).with_raw_sql(raw) == out.followed_by(
            rest.with_raw_sql(raw),
        ) by {
        match raw {
            RawSqlView::RawText(text) => {},
            RawSqlView::Expression(expression) => {
                lemma_with_expression(expression);
                let front = rest;
                assert(out.followed_by(front).with_expression(expression)
                        == out.followed_by(front.with_expression(expression)));
            },
        }
    }
}

/// `with_raw_sqls` renders the same after anything.
pub proof fn lemma_with_raw_sqls(items: Seq<RawSqlView>, count: nat)
    ensures
        forall|out: SQLView, rest: SQLView|
            #![trigger out.followed_by(rest).with_raw_sqls(items, count)]
            out.followed_by(rest).with_raw_sqls(items, count) == out.followed_by(
                rest.with_raw_sqls(items, count),
            ),
    decreases items, count,
{
    lemma_text_is_local();
    assert forall|out: SQLView, rest: SQLView|
        #![trigger out.followed_by(rest).with_raw_sqls(items, count)]
        out.followed_by(rest).with_raw_sqls(items, count) == out.followed_by(
            rest.with_raw_sqls(items, count),
        ) by {
        if 0 < count <= items.len() {
            lemma_with_raw_sqls(items, (count - 1) as nat);
            let front = rest;
            assert(out.followed_by(front).with_raw_sqls(items, (count - 1) as nat)
                    == out.followed_by(front.with_raw_sqls(items, (count - 1) as nat)));
            lemma_with_raw_sql(items[count - 1]);
            let front = rest
                .with_raw_sqls(items, (count - 1) as nat);
            assert(out.followed_by(front).with_raw_sql(items[count - 1])
                    == out.followed_by(front.with_raw_sql(items[count - 1])));
        } else {}
    }
}

/// `with_ctexpr` renders the same after anything.
pub proof fn lemma_with_ctexpr(body: CTExprView)
    ensures
        forall|out: SQLView, rest: SQLView|
            #![trigger out.followed_by(rest).with_ctexpr(body)]
            out.followed_by(rest).with_ctexpr(body) == out.followed_by(
                rest.with_ctexpr(body),
            ),
    decreases body, 0nat,
{
    lemma_text_is_local();
    assert forall|out: SQLView, rest: SQLView|
        #![trigger out.followed_by(rest).with_ctexpr(body)]
        out.followed_by(rest).with_ctexpr(body) == out.followed_by(
            rest.with_ctexpr(body),
        ) by {
        match body {
            CTExprView::Select(select) => {
                lemma_with_select(select);
                let front = rest;
                assert(out.followed_by(front).with_select(select)
                        == out.followed_by(front.with_select(select)));
            },
            CTExprView::RawSql(items) => {
                lemma_with_raw_sqls(items, items.len());
                let front = rest;
                assert(out.followed_by(front).with_raw_sqls(items, items.len())
                        == out.followed_by(front.with_raw_sqls(items, items.len())));
            },
        }
    }
}

/// `with_identifiers` renders the same after anything.
pub proof fn lemma_with_identifiers(names: Seq<Seq<char>>, count: nat, separator: Seq<char>)
    ensures
        forall|out: SQLView, rest: SQLView|
            #![trigger out.followed_by(rest).with_identifiers(names, count, separator)]
            out.followed_by(rest).with_identifiers(names, count, separator) == out.followed_by(
                rest.with_identifiers(names, count, separator),
            ),
    decreases count,
{
    lemma_text_is_local();
    assert forall|out: SQLView, rest: SQLView|
        #![trigger out.followed_by(rest).with_identifiers(names, count, separator)]
        out.followed_by(rest).with_identifiers(names, count, separator) == out.followed_by(
            rest.with_identifiers(names, count, separator),
        ) by {
        if 0 < count <= names.len() {
            lemma_with_identifiers(names, (count - 1) as nat, separator);
            let front = rest;
            assert(out.followed_by(front).with_identifiers(names, (count - 1) as nat, separator)
                    == out.followed_by(front.with_identifiers(names, (count - 1) as nat, separator)));
        } else {}
    }
}

/// `with_column_names` renders the same after anything.
pub proof fn lemma_with_column_names(column_names: Option<Seq<Seq<char>>>)
    ensures
        forall|out: SQLView, rest: SQLView|
            #![trigger out.followed_by(rest).with_column_names(column_names)]
            out.followed_by(rest).with_column_names(column_names) == out.followed_by(
                rest.with_column_names(column_names),
            ),
{
    lemma_text_is_local();
    assert forall|out: SQLView, rest: SQLView|
        #![trigger out.followed_by(rest).with_column_names(column_names)]
        out.followed_by(rest).with_column_names(column_names) == out.followed_by(
            rest.with_column_names(column_names),
        ) by {
        match column_names {
            None => {},
            Some(names) => {
                lemma_with_identifiers(names, names.len(), Seq::empty());
                let front = rest
                    .with_text("("@);
                assert(out.followed_by(front).with_identifiers(names, names.len(), Seq::empty())
                        == out.followed_by(front.with_identifiers(names, names.len(), Seq::empty())));
            },
        }
    }
}

/// `with_cte` renders the same after anything.
pub proof fn lemma_with_cte(cte: CommonTableExpressionView)
    ensures
        forall|out: SQLView, rest: SQLView|
            #![trigger out.followed_by(rest).with_cte(cte)]
            out.followed_by(rest).with_cte(cte) == out.followed_by(
                rest.with_cte(cte),
            ),
    decreases cte, 0nat,
{
    lemma_text_is_local();
    assert forall|out: SQLView, rest: SQLView|
        #![trigger out.followed_by(rest).with_cte(cte)]
        out.followed_by(rest).with_cte(cte) == out.followed_by(
            rest.with_cte(cte),
        ) by {
        {
            lemma_with_column_names(cte.column_names);
            let front = rest
                .with_table_alias(cte.alias);
            assert(out.followed_by(front).with_column_names(cte.column_names)
                    == out.followed_by(front.with_column_names(cte.column_names)));
            lemma_with_ctexpr(cte.select);
            let front = rest
                .with_table_alias(cte.alias)
                .with_column_names(cte.column_names)
                .with_text(" AS ("@);
            assert(out.followed_by(front).with_ctexpr(cte.select)
                    == out.followed_by(front.with_ctexpr(cte.select)));
        }
    }
}

/// `with_ctes` renders the same after anything.
pub proof fn lemma_with_ctes(ctes: Seq<CommonTableExpressionView>, count: nat)
    ensures
        forall|out: SQLView, rest: SQLView|
            #![trigger out.followed_by(rest).with_ctes(ctes, count)]
            out.followed_by(rest).with_ctes(ctes, count) == out.followed_by(
                rest.with_ctes(ctes, count),
            ),
    decreases ctes, count,
{
    lemma_text_is_local();
    assert forall|out: SQLView, rest: SQLView|
        #![trigger out.followed_by(rest).with_ctes(ctes, count)]
        out.followed_by(rest).with_ctes(ctes, count) == out.followed_by(
            rest.with_ctes(ctes, count),
        ) by {
        if 0 < count <= ctes.len() {
            lemma_with_ctes(ctes, (count - 1) as nat);
            let front = rest;
            assert(out.followed_by(front).with_ctes(ctes, (count - 1) as nat)
                    == out.followed_by(front.with_ctes(ctes, (count - 1) as nat)));
            lemma_with_cte(ctes[count - 1]);
            let front = rest
                .with_ctes(ctes, (count - 1) as nat)
                .with_separator(count - 1, ", "@);
            assert(out.followed_by(front).with_cte(ctes[count - 1])
                    == out.followed_by(front.with_cte(ctes[count - 1])));
        } else {}
    }
}

/// `with_with` renders the same after anything.
pub proof fn lemma_with_with(with: WithView)
    ensures
        forall|out: SQLView, rest: SQLView|
            #![trigger out.followed_by(rest).with_with(with)]
            out.followed_by(rest).with_with(with) == out.followed_by(
                rest.with_with(with),
            ),
    decreases with, 0nat,
{
    lemma_text_is_local();
    assert forall|out: SQLView, rest: SQLView|
        #![trigger out.followed_by(rest).with_with(with)]
        out.followed_by(rest).with_with(with) == out.followed_by(
            rest.with_with(with),
        ) by {
        if with.common_table_expressions.len() == 0 {} else {
            lemma_with_ctes(with.common_table_expressions, with.common_table_expressions.len());
            let front = rest
                .with_text("WITH "@);
            assert(out.followed_by(front).with_ctes(with.common_table_expressions, with.common_table_expressions.len())
                    == out.followed_by(front.with_ctes(with.common_table_expressions, with.common_table_expressions.len())));
        }
    }
}

/// `with_optional_from` renders the same after anything.
pub proof fn lemma_with_optional_from(from: Option<FromView>)
    ensures
        forall|out: SQLView, rest: SQLView|
            #![trigger out.followed_by(rest).with_optional_from(from)]
            out.followed_by(rest).with_optional_from(from) == out.followed_by(
                rest.with_optional_from(from),
            ),
    decreases from, 0nat,
{
    lemma_text_is_local();
    assert forall|out: SQLView, rest: SQLView|
        #![trigger out.followed_by(rest).with_optional_from(from)]
        out.followed_by(rest).with_optional_from(from) == out.followed_by(
            rest.with_optional_from(from),
        ) by {
        match from {
            Some(from) => {
                lemma_with_from(from);
                let front = rest;
                assert(out.followed_by(front).with_from(from)
                        == out.followed_by(front.with_from(from)));
            },
            None => {},
        }
    }
}

/// `with_select` renders the same after anything.
pub proof fn lemma_with_select(select: SelectView)
    ensures
        forall|out: SQLView, rest: SQLView|
            #![trigger out.followed_by(rest).with_select(select)]
            out.followed_by(rest).with_select(select) == out.followed_by(
                rest.with_select(select),
            ),
    decreases select, 0nat,
{
    lemma_text_is_local();
    assert forall|out: SQLView, rest: SQLView|
        #![trigger out.followed_by(rest).with_select(select)]
        out.followed_by(rest).with_select(select) == out.followed_by(
            rest.with_select(select),
        ) by {
        {
            lemma_with_with(select.with);
            let front = rest;
            assert(out.followed_by(front).with_with(select.with)
                    == out.followed_by(front.with_with(select.with)));
            lemma_with_select_list(select.select_list);
            let front = rest
                .with_with(select.with)
                .with_text("SELECT "@);
            assert(out.followed_by(front).with_select_list(select.select_list)
                    == out.followed_by(front.with_select_list(select.select_list)));
            lemma_with_optional_from(select.from);
            let front = rest
                .with_with(select.with)
                .with_text("SELECT "@)
                .with_select_list(select.select_list)
                .with_text(" "@);
            assert(out.followed_by(front).with_optional_from(select.from)
                    == out.followed_by(front.with_optional_from(select.from)));
            lemma_with_where(select.where_);
            let front = rest
                .with_with(select.with)
                .with_text("SELECT "@)
                .with_select_list(select.select_list)
                .with_text(" "@)
                .with_optional_from(select.from);
            assert(out.followed_by(front).with_where(select.where_)
                    == out.followed_by(front.with_where(select.where_)));
            lemma_with_order_by(select.order_by);
            let front = rest
                .with_with(select.with)
                .with_text("SELECT "@)
                .with_select_list(select.select_list)
                .with_text(" "@)
                .with_optional_from(select.from)
                .with_where(select.where_);
            assert(out.followed_by(front).with_order_by(select.order_by)
                    == out.followed_by(front.with_order_by(select.order_by)));
        }
    }
}

/// What a select renders to by itself.
pub open spec fn rendered_select(select: SelectView) -> SQLView {
    SQLView::empty().with_select(select)
}

/// What an expression renders to by itself.
pub open spec fn rendered_expression(expression: ExpressionView) -> SQLView {
    SQLView::empty().with_expression(expression)
}

/// Rendering is a function of the node: a select or an expression adds to
/// any statement what it renders to by itself.
pub proof fn lemma_rendering_is_local(out: SQLView, select: SelectView, expression: ExpressionView)
    ensures
        out.with_select(select) == out.followed_by(rendered_select(select)),
        out.with_expression(expression) == out.followed_by(rendered_expression(expression)),
{
    lemma_text_is_local();
    lemma_with_select(select);
    lemma_with_expression(expression);
    assert(out.followed_by(SQLView::empty()).with_select(select) == out.followed_by(
        SQLView::empty().with_select(select),
    ));
    assert(out.followed_by(SQLView::empty()).with_expression(expression) == out.followed_by(
        SQLView::empty().with_expression(expression),
    ));
}

/// A double negation renders to its own text: `NOT (NOT (`, what the
/// expression under it renders to, and `))`. It never renders to the text
/// of the expression alone, and it has the parameters of the expression.
pub proof fn lemma_double_negation_has_its_own_text(expression: ExpressionView)
    ensures
        ({
            let twice = ExpressionView::Not(Box::new(ExpressionView::Not(Box::new(expression))));
            &&& rendered_expression(twice).sql == "NOT ("@ + "NOT ("@ + rendered_expression(
                expression,
            ).sql + ")"@ + ")"@
            &&& rendered_expression(twice).sql != rendered_expression(expression).sql
            &&& rendered_expression(twice).params == rendered_expression(expression).params
        }),
{
    let once = ExpressionView::Not(Box::new(expression));
    let twice = ExpressionView::Not(Box::new(once));
    let empty = SQLView::empty();
    let front = empty.with_text("NOT ("@).with_text("NOT ("@);
    lemma_text_is_local();
    lemma_with_expression(expression);
    assert(rendered_expression(twice) == empty.with_text("NOT ("@).with_expression(once).with_text(
        ")"@,
    ));
    assert(empty.with_text("NOT ("@).with_expression(once) == front.with_expression(
        expression,
    ).with_text(")"@));
    assert(front.followed_by(SQLView::empty()).with_expression(expression) == front.followed_by(
        rendered_expression(expression),
    ));
    assert(front.followed_by(SQLView::empty()) == front);
    let inner = rendered_expression(expression);
    assert(rendered_expression(twice).sql =~= "NOT ("@ + "NOT ("@ + inner.sql + ")"@ + ")"@);
    assert(rendered_expression(twice).params =~= inner.params);
    reveal_strlit("NOT (");
    reveal_strlit(")");
    assert(rendered_expression(twice).sql.len() == inner.sql.len() + 12);
}

} // verus!
