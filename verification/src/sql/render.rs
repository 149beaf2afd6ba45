//! What rendering does to a statement under construction: for each kind of
//! node, the statement with that node written at its end, as a function of
//! the node's model. The rendering of a node by itself is what it adds to the
//! empty statement.

use crate::sql::ast::{BinaryArrayOperator, OrderByDirection, UnaryOperator};
use crate::sql::model::{
    CTExprView, ColumnReferenceView, CommonTableExpressionView, CountTypeView, DeleteView,
    ExpressionView, FromView, FunctionView, InsertFromView, InsertView, JoinView, LimitView,
    MutationValueExpressionView, OrderByElementView, RawSqlView, ScalarTypeNameView,
    ScalarTypeView, SelectListView, SelectView, TableAliasView, TableReferenceView, UpdateView,
    ValueView, WithView,
};
use crate::sql::string::{quoted, ParamView, SQLView};
use crate::text::{int_text, nat_text};
use vstd::prelude::*;

verus! {

/// The literal `true`, which stands for an absent condition.
pub open spec fn true_expression() -> ExpressionView {
    ExpressionView::Value(ValueView::Bool(true))
}

/// The literal `false`.
pub open spec fn false_expression() -> ExpressionView {
    ExpressionView::Value(ValueView::Bool(false))
}

/// The name under which an aliased table appears: its name, an underscore
/// and its index.
pub open spec fn aliased_string(alias: TableAliasView) -> Seq<char> {
    alias.name + "_"@ + nat_text(alias.unique_index as nat)
}

/// The accessor of the array element at `offset`.
pub open spec fn safe_offset_text(offset: i64) -> Seq<char> {
    "[SAFE_OFFSET("@ + int_text(offset as int) + ")]"@
}

impl SQLView {
    /// With an identifier between double quotes.
    pub open spec fn with_identifier(self, name: Seq<char>) -> SQLView {
        self.with_text(quoted(name))
    }

    pub open spec fn with_table_alias(self, alias: TableAliasView) -> SQLView {
        self.with_identifier(aliased_string(alias))
    }

    pub open spec fn with_table_reference(self, table: TableReferenceView) -> SQLView {
        match table {
            TableReferenceView::DBTable { table, gsi } => match gsi {
                None => self.with_identifier(table),
                Some(gsi) => self.with_identifier(table).with_text("."@).with_identifier(gsi),
            },
            TableReferenceView::AliasedTable(alias) => self.with_table_alias(alias),
        }
    }

    /// A column renders as its quoted name; the table it belongs to is not
    /// written.
    pub open spec fn with_column_reference(self, column: ColumnReferenceView) -> SQLView {
        match column {
            ColumnReferenceView::TableColumn { table, name } => self.with_identifier(name),
            ColumnReferenceView::AliasedColumn { table, column } => self.with_identifier(column),
        }
    }

    pub open spec fn with_scalar_type_name(self, name: ScalarTypeNameView) -> SQLView {
        match name {
            ScalarTypeNameView::Qualified { schema_name, name } => self.with_identifier(
                schema_name,
            ).with_text("."@).with_identifier(name),
            ScalarTypeNameView::Unqualified(name) => self.with_identifier(name),
        }
    }

    pub open spec fn with_scalar_type(self, scalar_type: ScalarTypeView) -> SQLView {
        match scalar_type {
            ScalarTypeView::BaseType(name) => self.with_scalar_type_name(name),
            ScalarTypeView::ArrayType(name) => self.with_scalar_type_name(name).with_text("[]"@),
        }
    }

    pub open spec fn with_function(self, function: FunctionView) -> SQLView {
        match function {
            FunctionView::Coalesce => self.with_text("coalesce"@),
            FunctionView::JsonAgg => self.with_text("json_agg"@),
            FunctionView::JsonbPopulateRecord => self.with_text("jsonb_populate_record"@),
            FunctionView::ArrayAgg => self.with_text("ARRAY_AGG"@),
            FunctionView::Unnest => self.with_text("unnest"@),
            FunctionView::Unknown(name) => self.with_text(name),
            FunctionView::SafeOffSet(index) => self.with_text(safe_offset_text(index)),
        }
    }

    pub open spec fn with_count_type(self, count_type: CountTypeView) -> SQLView {
        match count_type {
            CountTypeView::Star => self.with_text("*"@),
            CountTypeView::Simple(column) => self.with_column_reference(column),
            CountTypeView::Distinct(column) => self.with_text("DISTINCT "@).with_column_reference(
                column,
            ),
        }
    }

    pub open spec fn with_unary_operator(self, operator: UnaryOperator) -> SQLView {
        match operator {
            UnaryOperator::IsNull => self.with_text(" IS NULL "@),
        }
    }

    pub open spec fn with_binary_operator(self, operator: Seq<char>) -> SQLView {
        self.with_text(" "@).with_text(operator).with_text(" "@)
    }

    pub open spec fn with_binary_array_operator(self, operator: BinaryArrayOperator) -> SQLView {
        match operator {
            BinaryArrayOperator::In => self.with_text(" IN "@),
        }
    }

    pub open spec fn with_direction(self, direction: OrderByDirection) -> SQLView {
        match direction {
            OrderByDirection::Asc => self.with_text(" ASC "@),
            OrderByDirection::Desc => self.with_text(" DESC "@),
        }
    }

    pub open spec fn with_limit(self, limit: LimitView) -> SQLView {
        let first = match limit.limit {
            None => self,
            Some(n) => self.with_text(" LIMIT "@).with_text(nat_text(n as nat)),
        };
        match limit.offset {
            None => first,
            Some(n) => first.with_text(" OFFSET "@).with_text(nat_text(n as nat)),
        }
    }

    /// With `separator`, unless what follows is the first item of its list.
    pub open spec fn with_separator(self, position: int, separator: Seq<char>) -> SQLView {
        if position == 0 {
            self
        } else {
            self.with_text(separator)
        }
    }

    /// With a literal. A string stands between single quotes; a variable and
    /// a JSON value become parameters.
    pub open spec fn with_value(self, value: ValueView) -> SQLView
        decreases value, 0nat,
    {
        match value {
            ValueView::EmptyJsonArray => self.with_text("'[]'"@),
            ValueView::Int8(i) => self.with_text(int_text(i as int)),
            ValueView::Float8(text) => self.with_text(text),
            ValueView::Character(s) => self.with_text("'"@).with_text(s).with_text("'"@),
            ValueView::String(s) => self.with_text("'"@).with_text(s).with_text("'"@),
            ValueView::Variable(name) => self.with_param(ParamView::Variable(name)),
            ValueView::Bool(b) => if b {
                self.with_text("true"@)
            } else {
                self.with_text("false"@)
            },
            ValueView::Null => self.with_text("null"@),
            ValueView::JsonValue(json) => self.with_param(ParamView::Value(json)),
            ValueView::Array(items) => self.with_text("ARRAY ["@).with_values(
                items,
                items.len(),
            ).with_text("]"@),
        }
    }

    /// With the first `count` of a list of literals, a comma and a space
    /// between each two.
    pub open spec fn with_values(self, items: Seq<ValueView>, count: nat) -> SQLView
        decreases items, count,
    {
        if 0 < count <= items.len() {
            self.with_values(items, (count - 1) as nat).with_separator(
                count - 1,
                ", "@,
            ).with_value(items[count - 1])
        } else {
            self
        }
    }

    /// With an expression. Every operation stands in parentheses of its own
    /// or puts its operand in parentheses, so that nesting never changes how
    /// the text is read. A cast renders as the expression it is applied to.
    pub open spec fn with_expression(self, expression: ExpressionView) -> SQLView
        decreases expression, 0nat,
    {
        match expression {
            ExpressionView::ColumnReference(column) => self.with_column_reference(column),
            ExpressionView::TableReference(table) => self.with_table_reference(table),
            ExpressionView::Value(value) => self.with_value(value),
            ExpressionView::Cast { expression, type_ } => self.with_expression(*expression),
            ExpressionView::And { left, right } => self.with_text("("@).with_expression(
                *left,
            ).with_text(" AND "@).with_expression(*right).with_text(")"@),
            ExpressionView::Or { left, right } => self.with_text("("@).with_expression(
                *left,
            ).with_text(" OR "@).with_expression(*right).with_text(")"@),
            ExpressionView::Not(inner) => self.with_text("NOT ("@).with_expression(
                *inner,
            ).with_text(")"@),
            ExpressionView::BinaryOperation { left, operator, right } => self.with_text(
                "("@,
            ).with_expression(*left).with_binary_operator(operator).with_expression(
                *right,
            ).with_text(")"@),
            ExpressionView::BinaryArrayOperation { left, operator, right } => self.with_text(
                "("@,
            ).with_expression(*left).with_binary_array_operator(operator).with_text(
                "("@,
            ).with_expressions(right, right.len(), ", "@).with_text(")"@).with_text(")"@),
            ExpressionView::UnaryOperation { expression, operator } => self.with_text(
                "("@,
            ).with_expression(*expression).with_unary_operator(operator).with_text(")"@),
            ExpressionView::FunctionCall { function, args } => self.with_function(
                function,
            ).with_text("("@).with_expressions(args, args.len(), ", "@).with_text(")"@),
            ExpressionView::JoinExpressions(expressions) => self.with_expressions(
                expressions,
                expressions.len(),
                Seq::empty(),
            ),
            ExpressionView::SafeOffSet { offset } => self.with_text(safe_offset_text(offset)),
            ExpressionView::Exists { select } => self.with_text("EXISTS "@).with_text(
                "("@,
            ).with_select(*select).with_text(")"@),
            ExpressionView::JsonBuildObject(members) => self.with_text("JSON_OBJECT"@).with_text(
                "("@,
            ).with_members(members, members.len()).with_text(")"@),
            ExpressionView::RowToJson(table) => self.with_text("row_to_json"@).with_text(
                "("@,
            ).with_table_reference(table).with_text(")"@),
            ExpressionView::Count(count_type) => self.with_text("COUNT"@).with_text(
                "("@,
            ).with_count_type(count_type).with_text(")"@),
            ExpressionView::ArrayConstructor(elements) => self.with_text(
                "ARRAY["@,
            ).with_expressions(elements, elements.len(), ", "@).with_text("]"@),
            ExpressionView::CorrelatedSubSelect(select) => self.with_text("("@).with_select(
                *select,
            ).with_text(")"@),
            ExpressionView::NestedFieldSelect { expression, nested_field } => self.with_text(
                "("@,
            ).with_expression(*expression).with_text(")"@).with_text("."@).with_identifier(
                nested_field,
            ),
        }
    }

    /// With the first `count` of a list of expressions, `separator` between
    /// each two.
    pub open spec fn with_expressions(
        self,
        expressions: Seq<ExpressionView>,
        count: nat,
        separator: Seq<char>,
    ) -> SQLView
        decreases expressions, count,
    {
        if 0 < count <= expressions.len() {
            self.with_expressions(expressions, (count - 1) as nat, separator).with_separator(
                count - 1,
                separator,
            ).with_expression(expressions[count - 1])
        } else {
            self
        }
    }

    /// With the first `count` members of a JSON object: each is its label
    /// between single quotes, a comma and its value.
    pub open spec fn with_members(
        self,
        members: Seq<(Seq<char>, ExpressionView)>,
        count: nat,
    ) -> SQLView
        decreases members, count,
    {
        if 0 < count <= members.len() {
            self.with_members(members, (count - 1) as nat).with_separator(
                count - 1,
                ", "@,
            ).with_text("'"@).with_text(members[count - 1].0).with_text("'"@).with_text(
                ", "@,
            ).with_expression(members[count - 1].1)
        } else {
            self
        }
    }

    /// With the first `count` expressions of a select list; their aliases are
    /// not written.
    pub open spec fn with_aliased(
        self,
        columns: Seq<(Seq<char>, ExpressionView)>,
        count: nat,
    ) -> SQLView
        decreases columns, count,
    {
        if 0 < count <= columns.len() {
            self.with_aliased(columns, (count - 1) as nat).with_separator(
                count - 1,
                ", "@,
            ).with_expression(columns[count - 1].1)
        } else {
            self
        }
    }

    pub open spec fn with_select_list(self, select_list: SelectListView) -> SQLView
        decreases select_list, 0nat,
    {
        match select_list {
            SelectListView::SelectList(columns) => self.with_aliased(columns, columns.len()),
            SelectListView::SelectStar => self.with_text("*"@),
            SelectListView::SelectStarFrom(table) => self.with_table_reference(table).with_text(
                ".*"@,
            ),
            SelectListView::Select1 => self.with_text("1"@),
        }
    }

    /// With the first `count` columns of a record set, each a name and a
    /// type.
    pub open spec fn with_typed_columns(
        self,
        columns: Seq<(Seq<char>, ScalarTypeView)>,
        count: nat,
    ) -> SQLView
        decreases count,
    {
        if 0 < count <= columns.len() {
            self.with_typed_columns(columns, (count - 1) as nat).with_separator(
                count - 1,
                ", "@,
            ).with_identifier(columns[count - 1].0).with_text(" "@).with_scalar_type(
                columns[count - 1].1,
            )
        } else {
            self
        }
    }

    /// With a `FROM` clause. The alias of a table or of a subquery is not
    /// written.
    pub open spec fn with_from(self, from: FromView) -> SQLView
        decreases from, 0nat,
    {
        match from {
            FromView::Table { reference, alias } => self.with_text("FROM "@).with_table_reference(
                reference,
            ),
            FromView::Select { select, alias } => self.with_text("FROM "@).with_text(
                "("@,
            ).with_select(*select).with_text(")"@),
            FromView::JsonbToRecordset { expression, alias, columns } => self.with_text(
                "FROM "@,
            ).with_text("jsonb_to_recordset"@).with_text("("@).with_expression(
                expression,
            ).with_text(")"@).with_text(" AS "@).with_table_alias(alias).with_text(
                "("@,
            ).with_typed_columns(columns, columns.len()).with_text(")"@),
            FromView::JsonbArrayElements { expression, alias, column } => self.with_text(
                "FROM "@,
            ).with_text("jsonb_array_elements"@).with_text("("@).with_expression(
                expression,
            ).with_text(")"@).with_text(" AS "@).with_table_alias(alias).with_text(
                "("@,
            ).with_identifier(column).with_text(")"@),
            FromView::Unnest { expression, alias, column } => self.with_text("FROM "@).with_text(
                "UNNEST"@,
            ).with_text("("@).with_expression(expression).with_text(")"@).with_text(
                " AS "@,
            ).with_table_alias(alias).with_text("("@).with_identifier(column).with_text(")"@),
        }
    }

    /// With a `WHERE` clause: nothing at all where the condition is the
    /// literal `true`.
    pub open spec fn with_where(self, condition: ExpressionView) -> SQLView
        decreases condition, 1nat,
    {
        if condition == true_expression() {
            self
        } else {
            self.with_text(" WHERE "@).with_expression(condition)
        }
    }

    pub open spec fn with_order_by_element(self, element: OrderByElementView) -> SQLView
        decreases element, 0nat,
    {
        self.with_expression(element.target).with_direction(element.direction)
    }

    /// With the first `count` sort keys.
    pub open spec fn with_order_by_elements(
        self,
        elements: Seq<OrderByElementView>,
        count: nat,
    ) -> SQLView
        decreases elements, count,
    {
        if 0 < count <= elements.len() {
            self.with_order_by_elements(elements, (count - 1) as nat).with_separator(
                count - 1,
                ", "@,
            ).with_order_by_element(elements[count - 1])
        } else {
            self
        }
    }

    /// With an `ORDER BY` clause: nothing where there is no sort key.
    pub open spec fn with_order_by(self, elements: Seq<OrderByElementView>) -> SQLView
        decreases elements, elements.len() + 1,
    {
        if elements.len() == 0 {
            self
        } else {
            self.with_text(" ORDER BY "@).with_order_by_elements(elements, elements.len())
        }
    }

    pub open spec fn with_raw_sql(self, raw: RawSqlView) -> SQLView
        decreases raw, 0nat,
    {
        match raw {
            RawSqlView::RawText(text) => self.with_text(text),
            RawSqlView::Expression(expression) => self.with_expression(expression),
        }
    }

    /// With the first `count` pieces of raw statement text, nothing between
    /// them.
    pub open spec fn with_raw_sqls(self, items: Seq<RawSqlView>, count: nat) -> SQLView
        decreases items, count,
    {
        if 0 < count <= items.len() {
            self.with_raw_sqls(items, (count - 1) as nat).with_raw_sql(items[count - 1])
        } else {
            self
        }
    }

    pub open spec fn with_ctexpr(self, body: CTExprView) -> SQLView
        decreases body, 0nat,
    {
        match body {
            CTExprView::Select(select) => self.with_select(select),
            CTExprView::RawSql(items) => self.with_raw_sqls(items, items.len()),
        }
    }

    /// With the first `count` of a list of names, `separator` between each
    /// two.
    pub open spec fn with_identifiers(
        self,
        names: Seq<Seq<char>>,
        count: nat,
        separator: Seq<char>,
    ) -> SQLView
        decreases count,
    {
        if 0 < count <= names.len() {
            self.with_identifiers(names, (count - 1) as nat, separator).with_separator(
                count - 1,
                separator,
            ).with_identifier(names[count - 1])
        } else {
            self
        }
    }

    /// With the column names of a common table expression: between
    /// parentheses, nothing between them.
    pub open spec fn with_column_names(self, column_names: Option<Seq<Seq<char>>>) -> SQLView {
        match column_names {
            None => self,
            Some(names) => self.with_text("("@).with_identifiers(
                names,
                names.len(),
                Seq::empty(),
            ).with_text(")"@),
        }
    }

    /// With a common table expression. Its body ends with a line break, so
    /// that a comment at the end of the body does not swallow the closing
    /// parenthesis.
    pub open spec fn with_cte(self, cte: CommonTableExpressionView) -> SQLView
        decreases cte, 0nat,
    {
        self.with_table_alias(cte.alias).with_column_names(cte.column_names).with_text(
            " AS ("@,
        ).with_ctexpr(cte.select).with_text("\n)"@)
    }

    /// With the first `count` common table expressions.
    pub open spec fn with_ctes(
        self,
        ctes: Seq<CommonTableExpressionView>,
        count: nat,
    ) -> SQLView
        decreases ctes, count,
    {
        if 0 < count <= ctes.len() {
            self.with_ctes(ctes, (count - 1) as nat).with_separator(count - 1, ", "@).with_cte(
                ctes[count - 1],
            )
        } else {
            self
        }
    }

    /// With a `WITH` clause: nothing where it is empty.
    pub open spec fn with_with(self, with: WithView) -> SQLView
        decreases with, 0nat,
    {
        if with.common_table_expressions.len() == 0 {
            self
        } else {
            self.with_text("WITH "@).with_ctes(
                with.common_table_expressions,
                with.common_table_expressions.len(),
            )
        }
    }

    pub open spec fn with_optional_from(self, from: Option<FromView>) -> SQLView
        decreases from, 0nat,
    {
        match from {
            Some(from) => self.with_from(from),
            None => self,
        }
    }

    /// With a `SELECT` statement.
    pub open spec fn with_select(self, select: SelectView) -> SQLView
        decreases select, 0nat,
    {
        self.with_with(select.with).with_text("SELECT "@).with_select_list(
            select.select_list,
        ).with_text(" "@).with_optional_from(select.from).with_where(select.where_).with_order_by(
            select.order_by,
        )
    }

    pub open spec fn with_explain(self, select: SelectView) -> SQLView {
        self.with_text("EXPLAIN "@).with_select(select)
    }

    pub open spec fn with_returning(self, select_list: SelectListView) -> SQLView {
        self.with_text("RETURNING "@).with_select_list(select_list)
    }

    pub open spec fn with_mutation_value(self, value: MutationValueExpressionView) -> SQLView {
        match value {
            MutationValueExpressionView::Expression(expression) => self.with_expression(
                expression,
            ),
            MutationValueExpressionView::Default => self.with_text("DEFAULT"@),
        }
    }

    /// With the first `count` values of a row.
    pub open spec fn with_row_values(
        self,
        row: Seq<MutationValueExpressionView>,
        count: nat,
    ) -> SQLView
        decreases count,
    {
        if 0 < count <= row.len() {
            self.with_row_values(row, (count - 1) as nat).with_separator(
                count - 1,
                ", "@,
            ).with_mutation_value(row[count - 1])
        } else {
            self
        }
    }

    /// With the first `count` rows of a `VALUES` list, each between
    /// parentheses.
    pub open spec fn with_rows(
        self,
        rows: Seq<Seq<MutationValueExpressionView>>,
        count: nat,
    ) -> SQLView
        decreases count,
    {
        if 0 < count <= rows.len() {
            self.with_rows(rows, (count - 1) as nat).with_separator(count - 1, ", "@).with_text(
                "("@,
            ).with_row_values(rows[count - 1], rows[count - 1].len()).with_text(")"@)
        } else {
            self
        }
    }

    pub open spec fn with_insert_from(self, from: InsertFromView) -> SQLView {
        match from {
            InsertFromView::Select(select) => self.with_select(select),
            InsertFromView::Values(rows) => self.with_text("VALUES "@).with_rows(
                rows,
                rows.len(),
            ),
        }
    }

    pub open spec fn with_insert_columns(self, columns: Option<Seq<Seq<char>>>) -> SQLView {
        match columns {
            None => self,
            Some(names) => self.with_text("("@).with_identifiers(
                names,
                names.len(),
                ", "@,
            ).with_text(")"@),
        }
    }

    pub open spec fn with_insert(self, insert: InsertView) -> SQLView {
        self.with_text("INSERT INTO "@).with_identifier(insert.schema).with_text(
            "."@,
        ).with_identifier(insert.table).with_insert_columns(insert.columns).with_text(
            " "@,
        ).with_insert_from(insert.from).with_text(" "@).with_returning(insert.returning)
    }

    pub open spec fn with_delete(self, delete: DeleteView) -> SQLView {
        self.with_text("DELETE "@).with_from(delete.from).with_text(" "@).with_where(
            delete.where_,
        ).with_text(" "@).with_returning(delete.returning)
    }

    /// With the first `count` assignments of an `UPDATE`.
    pub open spec fn with_assignments(
        self,
        set: Seq<(Seq<char>, MutationValueExpressionView)>,
        count: nat,
    ) -> SQLView
        decreases count,
    {
        if 0 < count <= set.len() {
            self.with_assignments(set, (count - 1) as nat).with_separator(
                count - 1,
                ", "@,
            ).with_identifier(set[count - 1].0).with_text(" = "@).with_mutation_value(
                set[count - 1].1,
            )
        } else {
            self
        }
    }

    pub open spec fn with_update(self, update: UpdateView) -> SQLView {
        self.with_text("UPDATE "@).with_identifier(update.schema).with_text("."@).with_identifier(
            update.table,
        ).with_text(" SET "@).with_assignments(update.set, update.set.len()).with_text(
            " "@,
        ).with_where(update.where_).with_text(" "@).with_returning(update.returning)
    }

    /// With a subquery between parentheses, under an alias.
    pub open spec fn with_joined_select(self, select: SelectView, alias: TableAliasView) -> SQLView {
        self.with_text("("@).with_select(select).with_text(")"@).with_text(
            " AS "@,
        ).with_table_alias(alias)
    }

    pub open spec fn with_join(self, join: JoinView) -> SQLView {
        match join {
            JoinView::LeftOuterJoin { select, alias, on } => self.with_text(
                " LEFT OUTER JOIN "@,
            ).with_joined_select(select, alias).with_text(" ON ("@).with_expression(
                on,
            ).with_text(") "@),
            JoinView::InnerJoin { select, alias } => self.with_text(
                " INNER JOIN "@,
            ).with_joined_select(select, alias).with_text(" ON ('true') "@),
            JoinView::CrossJoin { select, alias } => self.with_text(
                " CROSS JOIN "@,
            ).with_joined_select(select, alias),
            JoinView::FullOuterJoin { select, alias } => self.with_text(
                " FULL OUTER JOIN "@,
            ).with_joined_select(select, alias).with_text(" ON ('true') "@),
        }
    }
}

/// A double negation is written out: both negations stand in the text,
/// around the rendering of the expression that is negated twice.
pub proof fn lemma_double_negation_is_rendered(out: SQLView, expression: ExpressionView)
    ensures
        out.with_expression(ExpressionView::Not(Box::new(ExpressionView::Not(Box::new(expression)))))
            == out.with_text("NOT ("@).with_text("NOT ("@).with_expression(expression).with_text(
            ")"@,
        ).with_text(")"@),
{
    let inner = ExpressionView::Not(Box::new(expression));
    assert(out.with_expression(ExpressionView::Not(Box::new(inner))) == out.with_text(
        "NOT ("@,
    ).with_expression(inner).with_text(")"@));
    assert(out.with_text("NOT ("@).with_expression(inner) == out.with_text("NOT ("@).with_text(
        "NOT ("@,
    ).with_expression(expression).with_text(")"@));
}

/// The condition `true` renders as no `WHERE` clause at all, and any other
/// condition renders as a clause.
pub proof fn lemma_true_condition_renders_nothing(out: SQLView, condition: ExpressionView)
    ensures
        out.with_where(true_expression()) == out,
        condition != true_expression() ==> out.with_where(condition) == out.with_text(
            " WHERE "@,
        ).with_expression(condition),
{
}

/// A cast renders as the expression that it is applied to.
pub proof fn lemma_cast_renders_as_operand(
    out: SQLView,
    expression: ExpressionView,
    cast_type: ScalarTypeView,
)
    ensures
        out.with_expression(
            ExpressionView::Cast { expression: Box::new(expression), type_: cast_type },
        ) == out.with_expression(expression),
{
}

/// Aliases with different indices appear under different names in a
/// statement, whatever their names are.
pub proof fn lemma_aliases_are_distinct(first: TableAliasView, second: TableAliasView)
    requires
        first.unique_index != second.unique_index,
    ensures
        aliased_string(first) != aliased_string(second),
{
    let a = nat_text(first.unique_index as nat);
    let b = nat_text(second.unique_index as nat);
    crate::text::lemma_nat_text_digits(first.unique_index as nat);
    crate::text::lemma_nat_text_digits(second.unique_index as nat);
    reveal_strlit("_");
    let s = aliased_string(first);
    let t = aliased_string(second);
    if s == t {
        let n = s.len() as int;
        assert(s.len() == first.name.len() + 1 + a.len());
        assert(t.len() == second.name.len() + 1 + b.len());
        if a.len() == b.len() {
            assert(a =~= s.subrange(n - a.len(), n));
            assert(b =~= t.subrange(n - b.len(), n));
            crate::text::lemma_nat_text_injective(
                first.unique_index as nat,
                second.unique_index as nat,
            );
        } else if a.len() < b.len() {
            let k = n - a.len() - 1;
            assert(s[k] == '_');
            assert(t[k] == b[k - second.name.len() - 1]);
            assert(crate::text::is_digit(b[k - second.name.len() - 1]));
        } else {
            let k = n - b.len() - 1;
            assert(t[k] == '_');
            assert(s[k] == a[k - first.name.len() - 1]);
            assert(crate::text::is_digit(a[k - first.name.len() - 1]));
        }
    }
}

} // verus!
