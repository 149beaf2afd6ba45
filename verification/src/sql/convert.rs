//! Renders the statement tree to text: each node writes itself at the end of
//! the statement under construction.

use crate::sql::ast::{
    BinaryArrayOperator, BinaryOperator, CTExpr, ColumnAlias, ColumnName, ColumnReference,
    CommonTableExpression, CountType, Delete, Explain, Expression, From, Function, Insert,
    InsertFrom, Join, Limit, MutationValueExpression, NestedField, OrderBy, OrderByDirection,
    OrderByElement, RawSql, Returning, ScalarType, ScalarTypeName, SchemaName, Select, SelectList,
    TableAlias, TableName, TableReference, UnaryOperator, Update, Value, Where, With,
};
use crate::sql::model::{
    aliased_expressions_view, cte_list_view, expression_list_view, labelled_expressions_view,
    order_by_elements_view, raw_sql_list_view, value_list_view,
};
use crate::sql::render::{aliased_string, safe_offset_text, true_expression};
use crate::sql::string::{Param, SQL};
use crate::text::{i64_to_string, u64_to_string};
use vstd::prelude::*;

verus! {

impl UnaryOperator {
    pub fn to_sql(&self, sql: &mut SQL)
        ensures
            final(sql)@ == old(sql)@.with_unary_operator(*self),
    {
        match self {
            UnaryOperator::IsNull => sql.append_syntax(" IS NULL "),
        }
    }
}

impl BinaryOperator {
    pub fn to_sql(&self, sql: &mut SQL)
        ensures
            final(sql)@ == old(sql)@.with_binary_operator(self@),
    {
        sql.append_syntax(" ");
        sql.append_syntax(self.0.as_str());
        sql.append_syntax(" ");
    }
}

impl BinaryArrayOperator {
    pub fn to_sql(&self, sql: &mut SQL)
        ensures
            final(sql)@ == old(sql)@.with_binary_array_operator(*self),
    {
        match self {
            BinaryArrayOperator::In => sql.append_syntax(" IN "),
        }
    }
}

impl NestedField {
    pub fn to_sql(&self, sql: &mut SQL)
        ensures
            final(sql)@ == old(sql)@.with_identifier(self@),
    {
        sql.append_identifier(&self.0);
    }
}

/// Writes the accessor of the array element at `offset`.
fn append_safe_offset(offset: i64, sql: &mut SQL)
    ensures
        final(sql)@ == old(sql)@.with_text(safe_offset_text(offset)),
{
    let digits: String = i64_to_string(offset);
    let text: String = String::from_str("[SAFE_OFFSET(").concat(digits.as_str()).concat(")]");
    sql.append_syntax(text.as_str());
}

impl Function {
    pub fn to_sql(&self, sql: &mut SQL)
        ensures
            final(sql)@ == old(sql)@.with_function(self@),
    {
        match self {
            Function::Coalesce => sql.append_syntax("coalesce"),
            Function::JsonAgg => sql.append_syntax("json_agg"),
            Function::JsonbPopulateRecord => sql.append_syntax("jsonb_populate_record"),
            Function::ArrayAgg => sql.append_syntax("ARRAY_AGG"),
            Function::Unnest => sql.append_syntax("unnest"),
            Function::Unknown(name) => sql.append_syntax(name.as_str()),
            Function::SafeOffSet(index) => append_safe_offset(*index, sql),
        }
    }
}

impl SchemaName {
    pub fn to_sql(&self, sql: &mut SQL)
        ensures
            final(sql)@ == old(sql)@.with_identifier(self@),
    {
        sql.append_identifier(&self.0);
    }
}

impl TableName {
    pub fn to_sql(&self, sql: &mut SQL)
        ensures
            final(sql)@ == old(sql)@.with_identifier(self@),
    {
        sql.append_identifier(&self.0);
    }
}

impl ColumnName {
    pub fn to_sql(&self, sql: &mut SQL)
        ensures
            final(sql)@ == old(sql)@.with_identifier(self@),
    {
        sql.append_identifier(&self.0);
    }
}

impl ColumnAlias {
    pub fn to_sql(&self, sql: &mut SQL)
        ensures
            final(sql)@ == old(sql)@.with_identifier(self@),
    {
        sql.append_identifier(&self.name);
    }
}

impl TableAlias {
    pub fn to_sql(&self, sql: &mut SQL)
        ensures
            final(sql)@ == old(sql)@.with_table_alias(self@),
    {
        let name: String = self.to_aliased_string();
        sql.append_identifier(&name);
    }

    /// The name under which the table appears in a statement: the alias's
    /// name, an underscore and its index.
    pub fn to_aliased_string(&self) -> (name: String)
        ensures
            name@ == aliased_string(self@),
    {
        let index: String = u64_to_string(self.unique_index);
        self.name.clone().concat("_").concat(index.as_str())
    }
}

impl TableReference {
    pub fn to_sql(&self, sql: &mut SQL)
        ensures
            final(sql)@ == old(sql)@.with_table_reference(self@),
    {
        match self {
            TableReference::DBTable { table, gsi } => {
                sql.append_identifier(&table.0);
                match gsi {
                    None => (),
                    Some(gsi) => {
                        sql.append_syntax(".");
                        sql.append_identifier(&gsi.0);
                    },
                }
            },
            TableReference::AliasedTable(alias) => alias.to_sql(sql),
        };
    }
}

impl ColumnReference {
    pub fn to_sql(&self, sql: &mut SQL)
        ensures
            final(sql)@ == old(sql)@.with_column_reference(self@),
    {
        match self {
            ColumnReference::TableColumn { table: _, name } => {
                sql.append_identifier(&name.0);
            },
            ColumnReference::AliasedColumn { column, table: _ } => {
                column.to_sql(sql);
            },
        };
    }
}

impl ScalarTypeName {
    pub fn to_sql(&self, sql: &mut SQL)
        ensures
            final(sql)@ == old(sql)@.with_scalar_type_name(self@),
    {
        match self {
            ScalarTypeName::Qualified { schema_name, name } => {
                schema_name.to_sql(sql);
                sql.append_syntax(".");
                sql.append_identifier(name);
            },
            ScalarTypeName::Unqualified(name) => {
                sql.append_identifier(name);
            },
        };
    }
}

impl ScalarType {
    pub fn to_sql(&self, sql: &mut SQL)
        ensures
            final(sql)@ == old(sql)@.with_scalar_type(self@),
    {
        match self {
            ScalarType::BaseType(name) => {
                name.to_sql(sql);
            },
            ScalarType::ArrayType(name) => {
                name.to_sql(sql);
                sql.append_syntax("[]");
            },
        };
    }
}

impl CountType {
    pub fn to_sql(&self, sql: &mut SQL)
        ensures
            final(sql)@ == old(sql)@.with_count_type(self@),
    {
        match self {
            CountType::Star => sql.append_syntax("*"),
            CountType::Simple(column) => column.to_sql(sql),
            CountType::Distinct(column) => {
                sql.append_syntax("DISTINCT ");
                column.to_sql(sql);
            },
        }
    }
}

impl OrderByDirection {
    pub fn to_sql(&self, sql: &mut SQL)
        ensures
            final(sql)@ == old(sql)@.with_direction(*self),
    {
        match self {
            OrderByDirection::Asc => sql.append_syntax(" ASC "),
            OrderByDirection::Desc => sql.append_syntax(" DESC "),
        }
    }
}

impl Limit {
    pub fn to_sql(&self, sql: &mut SQL)
        ensures
            final(sql)@ == old(sql)@.with_limit(self@),
    {
        match self.limit {
            None => (),
            Some(limit) => {
                sql.append_syntax(" LIMIT ");
                let digits: String = u64_to_string(limit as u64);
                sql.append_syntax(digits.as_str());
            },
        };
        match self.offset {
            None => (),
            Some(offset) => {
                sql.append_syntax(" OFFSET ");
                let digits: String = u64_to_string(offset as u64);
                sql.append_syntax(digits.as_str());
            },
        };
    }
}

impl Value {
    pub fn to_sql(&self, sql: &mut SQL)
        ensures
            final(sql)@ == old(sql)@.with_value(self@),
        decreases self,
    {
        match self {
            Value::EmptyJsonArray => sql.append_syntax("'[]'"),
            Value::Int8(i) => {
                let digits: String = i64_to_string(*i);
                sql.append_syntax(digits.as_str());
            },
            Value::Float8(text) => sql.append_syntax(text.as_str()),
            Value::Character(s) => {
                sql.append_syntax("'");
                sql.append_syntax(s.as_str());
                sql.append_syntax("'");
            },
            Value::String(s) => {
                sql.append_syntax("'");
                sql.append_syntax(s.as_str());
                sql.append_syntax("'");
            },
            Value::Variable(v) => sql.append_param(Param::Variable(v.clone())),
            Value::Bool(true) => sql.append_syntax("true"),
            Value::Bool(false) => sql.append_syntax("false"),
            Value::Null => sql.append_syntax("null"),
            Value::JsonValue(v) => sql.append_param(Param::Value(v.clone())),
            Value::Array(items) => {
                sql.append_syntax("ARRAY [");
                let ghost start = sql@;
                let ghost views = value_list_view(items@);
                let mut index: usize = 0;
                while index < items.len()
                    invariant
                        index <= items.len(),
                        self is Array,
                        *items == self->Array_0,
                        views == value_list_view(items@),
                        sql@ == start.with_values(views, index as nat),
                    decreases items.len() - index,
                {
                    if index > 0 {
                        sql.append_syntax(", ");
                    }
                    items[index].to_sql(sql);
                    index += 1;
                }
                sql.append_syntax("]");
            },
        }
    }
}

/// Writes a list of expressions, with `separator` between each two.
fn expressions_to_sql(expressions: &Vec<Expression>, separator: &str, sql: &mut SQL)
    ensures
        final(sql)@ == old(sql)@.with_expressions(
            expression_list_view(expressions@),
            expressions.len() as nat,
            separator@,
        ),
    decreases expressions,
{
    let ghost start = sql@;
    let ghost views = expression_list_view(expressions@);
    let mut index: usize = 0;
    while index < expressions.len()
        invariant
            index <= expressions.len(),
            views == expression_list_view(expressions@),
            sql@ == start.with_expressions(views, index as nat, separator@),
        decreases expressions.len() - index,
    {
        if index > 0 {
            sql.append_syntax(separator);
        }
        expressions[index].to_sql(sql);
        index += 1;
    }
}

impl Expression {
    pub fn to_sql(&self, sql: &mut SQL)
        ensures
            final(sql)@ == old(sql)@.with_expression(self@),
        decreases self,
    {
        match self {
            Expression::ColumnReference(column_reference) => column_reference.to_sql(sql),
            Expression::TableReference(table_reference) => table_reference.to_sql(sql),
            Expression::Value(value) => value.to_sql(sql),
            Expression::Cast { expression, type_: _ } => {
                // The target dialect has no cast expression.
                expression.to_sql(sql);
            },
            Expression::And { left, right } => {
                sql.append_syntax("(");
                left.to_sql(sql);
                sql.append_syntax(" AND ");
                right.to_sql(sql);
                sql.append_syntax(")");
            },
            Expression::Or { left, right } => {
                sql.append_syntax("(");
                left.to_sql(sql);
                sql.append_syntax(" OR ");
                right.to_sql(sql);
                sql.append_syntax(")");
            },
            Expression::Not(expr) => {
                sql.append_syntax("NOT (");
                expr.to_sql(sql);
                sql.append_syntax(")");
            },
            Expression::BinaryOperation { left, operator, right } => {
                sql.append_syntax("(");
                left.to_sql(sql);
                operator.to_sql(sql);
                right.to_sql(sql);
                sql.append_syntax(")");
            },
            Expression::BinaryArrayOperation { left, operator, right } => {
                sql.append_syntax("(");
                left.to_sql(sql);
                operator.to_sql(sql);
                sql.append_syntax("(");
                expressions_to_sql(right, ", ", sql);
                sql.append_syntax(")");
                sql.append_syntax(")");
            },
            Expression::UnaryOperation { expression, operator } => {
                sql.append_syntax("(");
                expression.to_sql(sql);
                operator.to_sql(sql);
                sql.append_syntax(")");
            },
            Expression::FunctionCall { function, args } => {
                function.to_sql(sql);
                sql.append_syntax("(");
                expressions_to_sql(args, ", ", sql);
                sql.append_syntax(")");
            },
            Expression::JoinExpressions(expressions) => {
                expressions_to_sql(expressions, "", sql);
                proof {
                    reveal_strlit("");
                    assert(""@ =~= Seq::<char>::empty());
                }
            },
            Expression::SafeOffSet { offset } => {
                append_safe_offset(*offset, sql);
            },
            Expression::Exists { select } => {
                sql.append_syntax("EXISTS ");
                sql.append_syntax("(");
                select.to_sql(sql);
                sql.append_syntax(")");
            },
            Expression::JsonBuildObject(map) => {
                sql.append_syntax("JSON_OBJECT");
                sql.append_syntax("(");
                let ghost start = sql@;
                let ghost views = labelled_expressions_view(map@);
                let mut index: usize = 0;
                while index < map.len()
                    invariant
                        index <= map.len(),
                        self is JsonBuildObject,
                        *map == self->JsonBuildObject_0,
                        views == labelled_expressions_view(map@),
                        sql@ == start.with_members(views, index as nat),
                    decreases map.len() - index,
                {
                    if index > 0 {
                        sql.append_syntax(", ");
                    }
                    sql.append_syntax("'");
                    sql.append_syntax(map[index].0.as_str());
                    sql.append_syntax("'");
                    sql.append_syntax(", ");
                    map[index].1.to_sql(sql);
                    index += 1;
                }
                sql.append_syntax(")");
            },
            Expression::RowToJson(select) => {
                sql.append_syntax("row_to_json");
                sql.append_syntax("(");
                select.to_sql(sql);
                sql.append_syntax(")");
            },
            Expression::Count(count_type) => {
                sql.append_syntax("COUNT");
                sql.append_syntax("(");
                count_type.to_sql(sql);
                sql.append_syntax(")");
            },
            Expression::ArrayConstructor(elements) => {
                sql.append_syntax("ARRAY[");
                expressions_to_sql(elements, ", ", sql);
                sql.append_syntax("]");
            },
            Expression::CorrelatedSubSelect(select) => {
                sql.append_syntax("(");
                select.to_sql(sql);
                sql.append_syntax(")");
            },
            Expression::NestedFieldSelect { expression, nested_field } => {
                sql.append_syntax("(");
                expression.to_sql(sql);
                sql.append_syntax(")");
                sql.append_syntax(".");
                nested_field.to_sql(sql);
            },
        }
    }

    /// Whether the expression is the literal `true`.
    pub fn is_true(&self) -> (b: bool)
        ensures
            b == (self@ == true_expression()),
    {
        match self {
            Expression::Value(Value::Bool(true)) => true,
            _ => false,
        }
    }
}

impl Where {
    pub fn to_sql(&self, sql: &mut SQL)
        ensures
            final(sql)@ == old(sql)@.with_where(self@),
        decreases self,
    {
        if !self.0.is_true() {
            sql.append_syntax(" WHERE ");
            self.0.to_sql(sql);
        }
    }
}

impl OrderByElement {
    pub fn to_sql(&self, sql: &mut SQL)
        ensures
            final(sql)@ == old(sql)@.with_order_by_element(self@),
        decreases self,
    {
        self.target.to_sql(sql);
        self.direction.to_sql(sql);
    }
}

impl OrderBy {
    pub fn to_sql(&self, sql: &mut SQL)
        ensures
            final(sql)@ == old(sql)@.with_order_by(self@),
        decreases self,
    {
        if !self.elements.is_empty() {
            sql.append_syntax(" ORDER BY ");
            let ghost start = sql@;
            let ghost views = order_by_elements_view(self.elements@);
            let mut index: usize = 0;
            while index < self.elements.len()
                invariant
                    index <= self.elements.len(),
                    views == order_by_elements_view(self.elements@),
                    sql@ == start.with_order_by_elements(views, index as nat),
                decreases self.elements.len() - index,
            {
                if index > 0 {
                    sql.append_syntax(", ");
                }
                self.elements[index].to_sql(sql);
                index += 1;
            }
        }
    }
}

impl SelectList {
    pub fn to_sql(&self, sql: &mut SQL)
        ensures
            final(sql)@ == old(sql)@.with_select_list(self@),
        decreases self,
    {
        match self {
            SelectList::SelectList(select_list) => {
                let ghost start = sql@;
                let ghost views = aliased_expressions_view(select_list@);
                let mut index: usize = 0;
                while index < select_list.len()
                    invariant
                        index <= select_list.len(),
                        self is SelectList,
                        *select_list == self->SelectList_0,
                        views == aliased_expressions_view(select_list@),
                        sql@ == start.with_aliased(views, index as nat),
                    decreases select_list.len() - index,
                {
                    if index > 0 {
                        sql.append_syntax(", ");
                    }
                    select_list[index].1.to_sql(sql);
                    index += 1;
                }
            },
            SelectList::SelectStar => {
                sql.append_syntax("*");
            },
            SelectList::SelectStarFrom(table_reference) => {
                table_reference.to_sql(sql);
                sql.append_syntax(".*");
            },
            SelectList::Select1 => {
                sql.append_syntax("1");
            },
        }
    }
}

impl From {
    pub fn to_sql(&self, sql: &mut SQL)
        ensures
            final(sql)@ == old(sql)@.with_from(self@),
        decreases self,
    {
        sql.append_syntax("FROM ");
        match self {
            From::Table { reference, alias: _ } => {
                reference.to_sql(sql);
            },
            From::Select { select, alias: _ } => {
                sql.append_syntax("(");
                select.to_sql(sql);
                sql.append_syntax(")");
            },
            From::JsonbToRecordset { expression, alias, columns } => {
                sql.append_syntax("jsonb_to_recordset");
                sql.append_syntax("(");
                expression.to_sql(sql);
                sql.append_syntax(")");
                sql.append_syntax(" AS ");
                alias.to_sql(sql);
                sql.append_syntax("(");
                let ghost start = sql@;
                let ghost views = columns@.map_values(|c: (ColumnAlias, ScalarType)| (c.0@, c.1@));
                let mut index: usize = 0;
                while index < columns.len()
                    invariant
                        index <= columns.len(),
                        views == columns@.map_values(|c: (ColumnAlias, ScalarType)| (c.0@, c.1@)),
                        sql@ == start.with_typed_columns(views, index as nat),
                    decreases columns.len() - index,
                {
                    if index > 0 {
                        sql.append_syntax(", ");
                    }
                    columns[index].0.to_sql(sql);
                    sql.append_syntax(" ");
                    columns[index].1.to_sql(sql);
                    index += 1;
                }
                sql.append_syntax(")");
            },
            From::JsonbArrayElements { expression, alias, column } => {
                sql.append_syntax("jsonb_array_elements");
                sql.append_syntax("(");
                expression.to_sql(sql);
                sql.append_syntax(")");
                sql.append_syntax(" AS ");
                alias.to_sql(sql);
                sql.append_syntax("(");
                column.to_sql(sql);
                sql.append_syntax(")");
            },
            From::Unnest { expression, alias, column } => {
                sql.append_syntax("UNNEST");
                sql.append_syntax("(");
                expression.to_sql(sql);
                sql.append_syntax(")");
                sql.append_syntax(" AS ");
                alias.to_sql(sql);
                sql.append_syntax("(");
                column.to_sql(sql);
                sql.append_syntax(")");
            },
        }
    }
}

impl RawSql {
    pub fn to_sql(&self, sql: &mut SQL)
        ensures
            final(sql)@ == old(sql)@.with_raw_sql(self@),
        decreases self,
    {
        match self {
            RawSql::RawText(text) => sql.append_syntax(text.as_str()),
            RawSql::Expression(exp) => exp.to_sql(sql),
        }
    }
}

impl CTExpr {
    pub fn to_sql(&self, sql: &mut SQL)
        ensures
            final(sql)@ == old(sql)@.with_ctexpr(self@),
        decreases self,
    {
        match self {
            CTExpr::Select(select) => {
                select.to_sql(sql);
            },
            CTExpr::RawSql(raw_vec) => {
                let ghost start = sql@;
                let ghost views = raw_sql_list_view(raw_vec@);
                let mut index: usize = 0;
                while index < raw_vec.len()
                    invariant
                        index <= raw_vec.len(),
                        self is RawSql,
                        *raw_vec == self->RawSql_0,
                        views == raw_sql_list_view(raw_vec@),
                        sql@ == start.with_raw_sqls(views, index as nat),
                    decreases raw_vec.len() - index,
                {
                    raw_vec[index].to_sql(sql);
                    index += 1;
                }
            },
        }
    }
}

impl CommonTableExpression {
    pub fn to_sql(&self, sql: &mut SQL)
        ensures
            final(sql)@ == old(sql)@.with_cte(self@),
        decreases self,
    {
        self.alias.to_sql(sql);
        match &self.column_names {
            None => {},
            Some(names) => {
                sql.append_syntax("(");
                let ghost start = sql@;
                let ghost views = names@.map_values(|n: ColumnAlias| n@);
                let mut index: usize = 0;
                while index < names.len()
                    invariant
                        index <= names.len(),
                        views == names@.map_values(|n: ColumnAlias| n@),
                        sql@ == start.with_identifiers(views, index as nat, Seq::empty()),
                    decreases names.len() - index,
                {
                    names[index].to_sql(sql);
                    index += 1;
                }
                sql.append_syntax(")");
            },
        }
        sql.append_syntax(" AS (");
        self.select.to_sql(sql);
        // The line break keeps a comment at the end of the body from
        // swallowing the parenthesis.
        sql.append_syntax("\n)");
    }
}

impl With {
    pub fn to_sql(&self, sql: &mut SQL)
        ensures
            final(sql)@ == old(sql)@.with_with(self@),
        decreases self,
    {
        if self.common_table_expressions.is_empty() {
        } else {
            sql.append_syntax("WITH ");
            let ctes = &self.common_table_expressions;
            let ghost start = sql@;
            let ghost views = cte_list_view(ctes@);
            let mut index: usize = 0;
            while index < ctes.len()
                invariant
                    index <= ctes.len(),
                    *ctes == self.common_table_expressions,
                    views == cte_list_view(ctes@),
                    sql@ == start.with_ctes(views, index as nat),
                decreases ctes.len() - index,
            {
                if index > 0 {
                    sql.append_syntax(", ");
                }
                ctes[index].to_sql(sql);
                index += 1;
            }
        }
    }
}

impl Select {
    pub fn to_sql(&self, sql: &mut SQL)
        ensures
            final(sql)@ == old(sql)@.with_select(self@),
        decreases self,
    {
        self.with.to_sql(sql);
        sql.append_syntax("SELECT ");
        self.select_list.to_sql(sql);
        sql.append_syntax(" ");
        match &self.from {
            Some(from) => from.to_sql(sql),
            None => (),
        }
        self.where_.to_sql(sql);
        self.order_by.to_sql(sql);
    }
}

impl Explain<'_> {
    pub fn to_sql(&self, sql: &mut SQL)
        ensures
            final(sql)@ == old(sql)@.with_explain(
                match self {
                    Explain::Select(select) => select@,
                },
            ),
    {
        sql.append_syntax("EXPLAIN ");
        match self {
            Explain::Select(select) => select.to_sql(sql),
        }
    }
}

impl Returning {
    pub fn to_sql(&self, sql: &mut SQL)
        ensures
            final(sql)@ == old(sql)@.with_returning(self@),
    {
        sql.append_syntax("RETURNING ");
        self.0.to_sql(sql);
    }
}

impl MutationValueExpression {
    pub fn to_sql(&self, sql: &mut SQL)
        ensures
            final(sql)@ == old(sql)@.with_mutation_value(self@),
    {
        match self {
            MutationValueExpression::Expression(expression) => expression.to_sql(sql),
            MutationValueExpression::Default => sql.append_syntax("DEFAULT"),
        }
    }
}

/// Writes the values of one row, with a comma and a space between each two.
fn row_to_sql(row: &Vec<MutationValueExpression>, sql: &mut SQL)
    ensures
        final(sql)@ == old(sql)@.with_row_values(
            row@.map_values(|v: MutationValueExpression| v@),
            row.len() as nat,
        ),
{
    let ghost start = sql@;
    let ghost views = row@.map_values(|v: MutationValueExpression| v@);
    let mut index: usize = 0;
    while index < row.len()
        invariant
            index <= row.len(),
            views == row@.map_values(|v: MutationValueExpression| v@),
            sql@ == start.with_row_values(views, index as nat),
        decreases row.len() - index,
    {
        if index > 0 {
            sql.append_syntax(", ");
        }
        row[index].to_sql(sql);
        index += 1;
    }
}

impl InsertFrom {
    pub fn to_sql(&self, sql: &mut SQL)
        ensures
            final(sql)@ == old(sql)@.with_insert_from(self@),
    {
        match self {
            InsertFrom::Select(select) => select.to_sql(sql),
            InsertFrom::Values(values) => {
                sql.append_syntax("VALUES ");
                let ghost start = sql@;
                let ghost views = self@->Values_0;
                let mut index: usize = 0;
                while index < values.len()
                    invariant
                        index <= values.len(),
                        views == values@.map_values(
                            |row: Vec<MutationValueExpression>|
                                row@.map_values(|v: MutationValueExpression| v@),
                        ),
                        sql@ == start.with_rows(views, index as nat),
                    decreases values.len() - index,
                {
                    if index > 0 {
                        sql.append_syntax(", ");
                    }
                    sql.append_syntax("(");
                    row_to_sql(&values[index], sql);
                    sql.append_syntax(")");
                    index += 1;
                }
            },
        }
    }
}

impl Insert {
    pub fn to_sql(&self, sql: &mut SQL)
        ensures
            final(sql)@ == old(sql)@.with_insert(self@),
    {
        sql.append_syntax("INSERT INTO ");
        self.schema.to_sql(sql);
        sql.append_syntax(".");
        self.table.to_sql(sql);
        if let Some(columns) = &self.columns {
            sql.append_syntax("(");
            let ghost start = sql@;
            let ghost views = columns@.map_values(|c: ColumnName| c@);
            let mut index: usize = 0;
            while index < columns.len()
                invariant
                    index <= columns.len(),
                    views == columns@.map_values(|c: ColumnName| c@),
                    sql@ == start.with_identifiers(views, index as nat, ", "@),
                decreases columns.len() - index,
            {
                if index > 0 {
                    sql.append_syntax(", ");
                }
                columns[index].to_sql(sql);
                index += 1;
            }
            sql.append_syntax(")");
        }
        sql.append_syntax(" ");
        self.from.to_sql(sql);
        sql.append_syntax(" ");
        self.returning.to_sql(sql);
    }
}

impl Delete {
    pub fn to_sql(&self, sql: &mut SQL)
        ensures
            final(sql)@ == old(sql)@.with_delete(self@),
    {
        sql.append_syntax("DELETE ");
        self.from.to_sql(sql);
        sql.append_syntax(" ");
        self.where_.to_sql(sql);
        sql.append_syntax(" ");
        self.returning.to_sql(sql);
    }
}

impl Update {
    pub fn to_sql(&self, sql: &mut SQL)
        ensures
            final(sql)@ == old(sql)@.with_update(self@),
    {
        sql.append_syntax("UPDATE ");
        self.schema.to_sql(sql);
        sql.append_syntax(".");
        self.table.to_sql(sql);
        sql.append_syntax(" SET ");
        let ghost start = sql@;
        let ghost views = self@.set;
        let mut index: usize = 0;
        while index < self.set.len()
            invariant
                index <= self.set.len(),
                views == self.set@.map_values(
                    |a: (ColumnName, MutationValueExpression)| (a.0@, a.1@),
                ),
                sql@ == start.with_assignments(views, index as nat),
            decreases self.set.len() - index,
        {
            if index > 0 {
                sql.append_syntax(", ");
            }
            self.set[index].0.to_sql(sql);
            sql.append_syntax(" = ");
            self.set[index].1.to_sql(sql);
            index += 1;
        }
        sql.append_syntax(" ");
        self.where_.to_sql(sql);
        sql.append_syntax(" ");
        self.returning.to_sql(sql);
    }
}

impl Join {
    pub fn to_sql(&self, sql: &mut SQL)
        ensures
            final(sql)@ == old(sql)@.with_join(self@),
    {
        match self {
            Join::LeftOuterJoin(join) => {
                sql.append_syntax(" LEFT OUTER JOIN ");
                sql.append_syntax("(");
                join.select.to_sql(sql);
                sql.append_syntax(")");
                sql.append_syntax(" AS ");
                join.alias.to_sql(sql);
                sql.append_syntax(" ON (");
                join.on.to_sql(sql);
                sql.append_syntax(") ");
            },
            Join::InnerJoin(join) => {
                sql.append_syntax(" INNER JOIN ");
                sql.append_syntax("(");
                join.select.to_sql(sql);
                sql.append_syntax(")");
                sql.append_syntax(" AS ");
                join.alias.to_sql(sql);
                sql.append_syntax(" ON ('true') ");
            },
            Join::CrossJoin(join) => {
                sql.append_syntax(" CROSS JOIN ");
                sql.append_syntax("(");
                join.select.to_sql(sql);
                sql.append_syntax(")");
                sql.append_syntax(" AS ");
                join.alias.to_sql(sql);
            },
            Join::FullOuterJoin(join) => {
                sql.append_syntax(" FULL OUTER JOIN ");
                sql.append_syntax("(");
                join.select.to_sql(sql);
                sql.append_syntax(")");
                sql.append_syntax(" AS ");
                join.alias.to_sql(sql);
                sql.append_syntax(" ON ('true') ");
            },
        }
    }

    /// The subquery of the join and its alias.
    pub fn get_select_and_alias(self) -> (parts: (Box<Select>, TableAlias))
        ensures
            parts.0@ == self@.select(),
            parts.1@ == self@.alias(),
    {
        match self {
            Join::LeftOuterJoin(join) => (join.select, join.alias),
            Join::InnerJoin(join) => (join.select, join.alias),
            Join::CrossJoin(join) => (join.select, join.alias),
            Join::FullOuterJoin(join) => (join.select, join.alias),
        }
    }
}

} // verus!
