use ndc_dynamodb::json::{JsonNumber, JsonValue};
use ndc_dynamodb::sql::ast::{
    BinaryArrayOperator, BinaryOperator, CTExpr, ColumnAlias, ColumnName, ColumnReference,
    CommonTableExpression, CountType, CrossJoin, Delete, Explain, Expression, From, FullOuterJoin,
    Function, Gsi, InnerJoin, Insert, InsertFrom, Join, LeftOuterJoin, Limit,
    MutationValueExpression, NestedField, OrderBy, OrderByDirection, OrderByElement, RawSql,
    Returning, ScalarType, ScalarTypeName, SchemaName, Select, SelectList, TableAlias, TableName,
    TableReference, UnaryOperator, Update, Value, Where, With,
};
use ndc_dynamodb::sql::execution_plan::{explain_to_sql, select_to_sql};
use ndc_dynamodb::sql::helpers::{
    empty_limit, empty_order_by, empty_where, empty_with, false_expr, int4_type, jsonb_type,
    make_column, make_column_alias, select_row_as_json_with_default, select_rows_as_json,
    simple_select, star_from_select, star_select, text_type_name, true_expr, where_exists_select,
    wrap_with,
};
use ndc_dynamodb::sql::string::{Param, SQL};

fn column(name: &str) -> Expression {
    Expression::ColumnReference(ColumnReference::TableColumn {
        table: users(),
        name: ColumnName(name.to_string()),
    })
}

fn users() -> TableReference {
    TableReference::DBTable { table: TableName("Users".to_string()), gsi: None }
}

fn alias(name: &str, unique_index: u64) -> TableAlias {
    TableAlias { unique_index, name: name.to_string() }
}

fn integer(i: i64) -> Expression {
    Expression::Value(Value::Int8(i))
}

fn text_of(expression: &Expression) -> String {
    let mut sql = SQL::new();
    expression.to_sql(&mut sql);
    sql.sql
}

fn from_users() -> From {
    From::Table { reference: users(), alias: alias("Users", 0) }
}

fn select_one() -> Select {
    Select {
        with: empty_with(),
        select_list: SelectList::Select1,
        from: Some(from_users()),
        where_: Where(empty_where()),
        order_by: empty_order_by(),
    }
}

#[test]
fn new_statement_is_empty() {
    let sql = SQL::new();
    assert_eq!(sql.sql, "");
    assert!(sql.params.is_empty());
}

#[test]
fn syntax_is_appended_as_it_is() {
    let mut sql = SQL::new();
    sql.append_syntax("SELECT ");
    sql.append_syntax("*");
    assert_eq!(sql.sql, "SELECT *");
    assert!(sql.params.is_empty());
}

#[test]
fn identifiers_are_quoted() {
    let mut sql = SQL::new();
    sql.append_identifier(&"Users".to_string());
    assert_eq!(sql.sql, "\"Users\"");
}

#[test]
fn params_leave_a_placeholder() {
    let mut sql = SQL::new();
    sql.append_param(Param::String("a".to_string()));
    sql.append_syntax(", ");
    sql.append_param(Param::Variable("v".to_string()));
    assert_eq!(sql.sql, "?, ?");
    assert_eq!(sql.params.len(), 2);
    assert!(matches!(&sql.params[0], Param::String(s) if s == "a"));
    assert!(matches!(&sql.params[1], Param::Variable(s) if s == "v"));
}

#[test]
fn table_alias_renders_name_and_index() {
    assert_eq!(alias("t", 7).to_aliased_string(), "t_7");
    assert_eq!(alias("Users", 0).to_aliased_string(), "Users_0");
    assert_eq!(alias("t", 18446744073709551615).to_aliased_string(), "t_18446744073709551615");
    let mut sql = SQL::new();
    alias("t", 12).to_sql(&mut sql);
    assert_eq!(sql.sql, "\"t_12\"");
}

#[test]
fn aliases_with_one_hint_render_differently() {
    assert_ne!(alias("t", 0).to_aliased_string(), alias("t", 1).to_aliased_string());
    assert_ne!(alias("t_1", 2).to_aliased_string(), alias("t", 12).to_aliased_string());
}

#[test]
fn literals_render() {
    assert_eq!(text_of(&integer(18)), "18");
    assert_eq!(text_of(&integer(-5)), "-5");
    assert_eq!(text_of(&integer(0)), "0");
    assert_eq!(text_of(&integer(i64::MIN)), "-9223372036854775808");
    assert_eq!(text_of(&integer(i64::MAX)), "9223372036854775807");
    assert_eq!(text_of(&Expression::Value(Value::Float8("1.5".to_string()))), "1.5");
    assert_eq!(text_of(&Expression::Value(Value::Bool(true))), "true");
    assert_eq!(text_of(&Expression::Value(Value::Bool(false))), "false");
    assert_eq!(text_of(&Expression::Value(Value::Null)), "null");
    assert_eq!(text_of(&Expression::Value(Value::EmptyJsonArray)), "'[]'");
    assert_eq!(text_of(&Expression::Value(Value::String("it".to_string()))), "'it'");
    assert_eq!(text_of(&Expression::Value(Value::Character("c".to_string()))), "'c'");
    assert_eq!(
        text_of(&Expression::Value(Value::Array(vec![Value::Int8(1), Value::Int8(2), Value::Null]))),
        "ARRAY [1, 2, null]"
    );
    assert_eq!(text_of(&Expression::Value(Value::Array(vec![]))), "ARRAY []");
}

#[test]
fn variables_and_json_values_become_params() {
    let mut sql = SQL::new();
    Value::Variable("x".to_string()).to_sql(&mut sql);
    Value::JsonValue(JsonValue::Object(vec![(
        "a".to_string(),
        JsonValue::Number(JsonNumber::Integer(1)),
    )]))
    .to_sql(&mut sql);
    assert_eq!(sql.sql, "??");
    assert_eq!(sql.params.len(), 2);
    assert!(matches!(&sql.params[0], Param::Variable(name) if name == "x"));
    assert!(matches!(&sql.params[1], Param::Value(JsonValue::Object(members)) if members.len() == 1));
}

#[test]
fn boolean_connectives_are_parenthesized() {
    let and = Expression::And { left: Box::new(column("a")), right: Box::new(column("b")) };
    assert_eq!(text_of(&and), "(\"a\" AND \"b\")");
    let or = Expression::Or { left: Box::new(and), right: Box::new(true_expr()) };
    assert_eq!(text_of(&or), "((\"a\" AND \"b\") OR true)");
}

#[test]
fn negation_puts_its_operand_in_parentheses() {
    let not = Expression::Not(Box::new(column("a")));
    assert_eq!(text_of(&not), "NOT (\"a\")");
}

#[test]
fn double_negation_is_not_cancelled() {
    let twice = Expression::Not(Box::new(Expression::Not(Box::new(column("a")))));
    assert_eq!(text_of(&twice), "NOT (NOT (\"a\"))");
    assert_ne!(text_of(&twice), text_of(&column("a")));
}

#[test]
fn operators_render() {
    let binary = Expression::BinaryOperation {
        left: Box::new(column("age")),
        operator: BinaryOperator(">=".to_string()),
        right: Box::new(integer(18)),
    };
    assert_eq!(text_of(&binary), "(\"age\" >= 18)");
    let unary = Expression::UnaryOperation {
        expression: Box::new(column("age")),
        operator: UnaryOperator::IsNull,
    };
    assert_eq!(text_of(&unary), "(\"age\" IS NULL )");
    let membership = Expression::BinaryArrayOperation {
        left: Box::new(column("age")),
        operator: BinaryArrayOperator::In,
        right: vec![integer(1), integer(2), integer(3)],
    };
    assert_eq!(text_of(&membership), "(\"age\" IN (1, 2, 3))");
    let empty = Expression::BinaryArrayOperation {
        left: Box::new(column("age")),
        operator: BinaryArrayOperator::In,
        right: vec![],
    };
    assert_eq!(text_of(&empty), "(\"age\" IN ())");
}

#[test]
fn functions_render() {
    let call = |function: Function| {
        text_of(&Expression::FunctionCall { function, args: vec![column("a"), integer(1)] })
    };
    assert_eq!(call(Function::Coalesce), "coalesce(\"a\", 1)");
    assert_eq!(call(Function::JsonAgg), "json_agg(\"a\", 1)");
    assert_eq!(call(Function::JsonbPopulateRecord), "jsonb_populate_record(\"a\", 1)");
    assert_eq!(call(Function::ArrayAgg), "ARRAY_AGG(\"a\", 1)");
    assert_eq!(call(Function::Unnest), "unnest(\"a\", 1)");
    assert_eq!(call(Function::Unknown("contains".to_string())), "contains(\"a\", 1)");
    assert_eq!(call(Function::SafeOffSet(3)), "[SAFE_OFFSET(3)](\"a\", 1)");
    assert_eq!(
        text_of(&Expression::FunctionCall { function: Function::Coalesce, args: vec![] }),
        "coalesce()"
    );
}

#[test]
fn cast_renders_as_its_operand() {
    let cast = Expression::Cast {
        expression: Box::new(column("id")),
        type_: ScalarType::BaseType(text_type_name()),
    };
    assert_eq!(text_of(&cast), "\"id\"");
}

#[test]
fn nested_field_select_renders() {
    let inner = Expression::NestedFieldSelect {
        expression: Box::new(column("address")),
        nested_field: NestedField("city".to_string()),
    };
    let outer = Expression::NestedFieldSelect {
        expression: Box::new(inner),
        nested_field: NestedField("name".to_string()),
    };
    assert_eq!(text_of(&outer), "((\"address\").\"city\").\"name\"");
}

#[test]
fn other_expressions_render() {
    assert_eq!(text_of(&Expression::TableReference(users())), "\"Users\"");
    assert_eq!(
        text_of(&Expression::TableReference(TableReference::DBTable {
            table: TableName("Orders".to_string()),
            gsi: Some(Gsi("ByCustomer".to_string())),
        })),
        "\"Orders\".\"ByCustomer\""
    );
    assert_eq!(
        text_of(&Expression::TableReference(TableReference::AliasedTable(alias("t", 1)))),
        "\"t_1\""
    );
    assert_eq!(text_of(&Expression::SafeOffSet { offset: 2 }), "[SAFE_OFFSET(2)]");
    assert_eq!(text_of(&Expression::SafeOffSet { offset: -2 }), "[SAFE_OFFSET(-2)]");
    assert_eq!(
        text_of(&Expression::JoinExpressions(vec![column("a"), Expression::SafeOffSet { offset: 0 }])),
        "\"a\"[SAFE_OFFSET(0)]"
    );
    assert_eq!(text_of(&Expression::RowToJson(users())), "row_to_json(\"Users\")");
    assert_eq!(text_of(&Expression::Count(CountType::Star)), "COUNT(*)");
    let id = || ColumnReference::AliasedColumn {
        table: users(),
        column: ColumnAlias { name: "id".to_string() },
    };
    assert_eq!(text_of(&Expression::Count(CountType::Simple(id()))), "COUNT(\"id\")");
    assert_eq!(text_of(&Expression::Count(CountType::Distinct(id()))), "COUNT(DISTINCT \"id\")");
    assert_eq!(
        text_of(&Expression::ArrayConstructor(vec![integer(1), integer(2)])),
        "ARRAY[1, 2]"
    );
    assert_eq!(
        text_of(&Expression::JsonBuildObject(vec![
            ("a".to_string(), integer(1)),
            ("b".to_string(), column("b")),
        ])),
        "JSON_OBJECT('a', 1, 'b', \"b\")"
    );
    assert_eq!(
        text_of(&Expression::Exists { select: Box::new(select_one()) }),
        "EXISTS (SELECT 1 FROM \"Users\")"
    );
    assert_eq!(
        text_of(&Expression::CorrelatedSubSelect(Box::new(select_one()))),
        "(SELECT 1 FROM \"Users\")"
    );
}

#[test]
fn where_clause_is_omitted_for_true() {
    let mut sql = SQL::new();
    Where(true_expr()).to_sql(&mut sql);
    assert_eq!(sql.sql, "");
    let mut sql = SQL::new();
    Where(false_expr()).to_sql(&mut sql);
    assert_eq!(sql.sql, " WHERE false");
    let mut sql = SQL::new();
    Where(column("a")).to_sql(&mut sql);
    assert_eq!(sql.sql, " WHERE \"a\"");
}

#[test]
fn true_is_recognized() {
    assert!(true_expr().is_true());
    assert!(!false_expr().is_true());
    assert!(!column("a").is_true());
}

#[test]
fn select_lists_render() {
    let render = |list: SelectList| {
        let mut sql = SQL::new();
        list.to_sql(&mut sql);
        sql.sql
    };
    assert_eq!(render(SelectList::SelectStar), "*");
    assert_eq!(render(SelectList::Select1), "1");
    assert_eq!(render(SelectList::SelectStarFrom(users())), "\"Users\".*");
    assert_eq!(
        render(SelectList::SelectList(vec![
            (make_column_alias("x".to_string()), column("id")),
            (make_column_alias("y".to_string()), column("name")),
        ])),
        "\"id\", \"name\""
    );
    assert_eq!(render(SelectList::SelectList(vec![])), "");
}

#[test]
fn select_renders_all_of_its_clauses() {
    let mut select = simple_select(vec![
        (make_column_alias("id".to_string()), column("id")),
        (make_column_alias("name".to_string()), column("name")),
    ]);
    select.from = Some(from_users());
    select.where_ = Where(Expression::BinaryOperation {
        left: Box::new(column("age")),
        operator: BinaryOperator(">=".to_string()),
        right: Box::new(integer(18)),
    });
    select.order_by = OrderBy {
        elements: vec![
            OrderByElement { target: column("name"), direction: OrderByDirection::Asc },
            OrderByElement { target: column("id"), direction: OrderByDirection::Desc },
        ],
    };
    assert_eq!(
        select_to_sql(&select).sql,
        "SELECT \"id\", \"name\" FROM \"Users\" WHERE (\"age\" >= 18) ORDER BY \"name\" ASC , \"id\" DESC "
    );
    assert_eq!(
        explain_to_sql(&Explain::Select(&select)).sql,
        "EXPLAIN SELECT \"id\", \"name\" FROM \"Users\" WHERE (\"age\" >= 18) ORDER BY \"name\" ASC , \"id\" DESC "
    );
}

#[test]
fn select_without_from_renders() {
    let select = simple_select(vec![(make_column_alias("one".to_string()), integer(1))]);
    assert_eq!(select_to_sql(&select).sql, "SELECT 1 ");
}

#[test]
fn from_clauses_render() {
    let render = |from: From| {
        let mut sql = SQL::new();
        from.to_sql(&mut sql);
        sql.sql
    };
    assert_eq!(render(from_users()), "FROM \"Users\"");
    assert_eq!(
        render(From::Table {
            reference: TableReference::DBTable {
                table: TableName("Orders".to_string()),
                gsi: Some(Gsi("ByCustomer".to_string())),
            },
            alias: alias("Orders", 0),
        }),
        "FROM \"Orders\".\"ByCustomer\""
    );
    assert_eq!(
        render(From::Select { select: Box::new(select_one()), alias: alias("s", 1) }),
        "FROM (SELECT 1 FROM \"Users\")"
    );
    assert_eq!(
        render(From::Unnest {
            expression: column("tags"),
            alias: alias("in_subquery", 2),
            column: make_column_alias("value".to_string()),
        }),
        "FROM UNNEST(\"tags\") AS \"in_subquery_2\"(\"value\")"
    );
    assert_eq!(
        render(From::JsonbArrayElements {
            expression: column("tags"),
            alias: alias("e", 3),
            column: make_column_alias("value".to_string()),
        }),
        "FROM jsonb_array_elements(\"tags\") AS \"e_3\"(\"value\")"
    );
    assert_eq!(
        render(From::JsonbToRecordset {
            expression: column("rows"),
            alias: alias("r", 4),
            columns: vec![
                (make_column_alias("a".to_string()), int4_type()),
                (
                    make_column_alias("b".to_string()),
                    ScalarType::ArrayType(ScalarTypeName::Qualified {
                        schema_name: SchemaName("public".to_string()),
                        name: "text".to_string(),
                    }),
                ),
            ],
        }),
        "FROM jsonb_to_recordset(\"rows\") AS \"r_4\"(\"a\" \"int4\", \"b\" \"public\".\"text\"[])"
    );
}

#[test]
fn scalar_types_render() {
    let mut sql = SQL::new();
    jsonb_type().to_sql(&mut sql);
    assert_eq!(sql.sql, "\"jsonb\"");
    let mut sql = SQL::new();
    text_type_name().to_sql(&mut sql);
    assert_eq!(sql.sql, "\"text\"");
}

#[test]
fn order_by_renders() {
    let mut sql = SQL::new();
    empty_order_by().to_sql(&mut sql);
    assert_eq!(sql.sql, "");
    let mut sql = SQL::new();
    OrderBy { elements: vec![OrderByElement { target: column("a"), direction: OrderByDirection::Desc }] }
        .to_sql(&mut sql);
    assert_eq!(sql.sql, " ORDER BY \"a\" DESC ");
}

#[test]
fn limit_renders() {
    let mut sql = SQL::new();
    empty_limit().to_sql(&mut sql);
    assert_eq!(sql.sql, "");
    let mut sql = SQL::new();
    Limit { limit: Some(10), offset: None }.to_sql(&mut sql);
    assert_eq!(sql.sql, " LIMIT 10");
    let mut sql = SQL::new();
    Limit { limit: Some(10), offset: Some(4294967295) }.to_sql(&mut sql);
    assert_eq!(sql.sql, " LIMIT 10 OFFSET 4294967295");
    let mut sql = SQL::new();
    Limit { limit: None, offset: Some(0) }.to_sql(&mut sql);
    assert_eq!(sql.sql, " OFFSET 0");
}

#[test]
fn with_clause_renders() {
    let cte = |name: &str, column_names: Option<Vec<ColumnAlias>>, select: CTExpr| {
        CommonTableExpression { alias: alias(name, 1), column_names, select }
    };
    let with = With {
        common_table_expressions: vec![
            cte("a", None, CTExpr::Select(select_one())),
            cte(
                "b",
                Some(vec![make_column_alias("x".to_string()), make_column_alias("y".to_string())]),
                CTExpr::RawSql(vec![
                    RawSql::RawText("SELECT ".to_string()),
                    RawSql::Expression(integer(2)),
                ]),
            ),
        ],
    };
    let select = wrap_with(with, select_one());
    assert_eq!(
        select_to_sql(&select).sql,
        "WITH \"a_1\" AS (SELECT 1 FROM \"Users\"\n), \"b_1\"(\"x\"\"y\") AS (SELECT 2\n)SELECT 1 FROM \"Users\""
    );
}

#[test]
fn star_selects_render() {
    assert_eq!(select_to_sql(&star_select(from_users())).sql, "SELECT * FROM \"Users\"");
    assert_eq!(
        select_to_sql(&star_from_select(TableReference::AliasedTable(alias("t", 0)), from_users()))
            .sql,
        "SELECT \"t_0\".* FROM \"Users\""
    );
}

#[test]
fn exists_select_renders() {
    let exists = where_exists_select(from_users(), Where(column("a")));
    assert_eq!(text_of(&exists), "EXISTS (SELECT 1 FROM \"Users\" WHERE \"a\")");
}

#[test]
fn json_wrappers_render() {
    let rows = select_rows_as_json(select_one(), make_column_alias("rows".to_string()), alias("t", 1));
    assert_eq!(
        select_to_sql(&rows).sql,
        "SELECT coalesce(json_agg(row_to_json(\"t_1\")), '[]') FROM (SELECT 1 FROM \"Users\")"
    );
    let row = select_row_as_json_with_default(
        select_one(),
        make_column_alias("row".to_string()),
        alias("t", 2),
    );
    assert_eq!(
        select_to_sql(&row).sql,
        "SELECT coalesce(row_to_json(\"t_2\"), '[]') FROM (SELECT 1 FROM \"Users\")"
    );
}

#[test]
fn make_column_refers_to_table_column() {
    let (column_alias, expression) = make_column(
        users(),
        ColumnName("id".to_string()),
        make_column_alias("alias".to_string()),
    );
    assert_eq!(column_alias.name, "alias");
    assert_eq!(text_of(&expression), "\"id\"");
}

#[test]
fn mutations_render() {
    let returning = || Returning(SelectList::SelectStar);
    let insert = Insert {
        schema: SchemaName("public".to_string()),
        table: TableName("Users".to_string()),
        columns: Some(vec![ColumnName("id".to_string()), ColumnName("name".to_string())]),
        from: InsertFrom::Values(vec![
            vec![
                MutationValueExpression::Expression(integer(1)),
                MutationValueExpression::Default,
            ],
            vec![
                MutationValueExpression::Expression(integer(2)),
                MutationValueExpression::Expression(Expression::Value(Value::String(
                    "b".to_string(),
                ))),
            ],
        ]),
        returning: returning(),
    };
    let mut sql = SQL::new();
    insert.to_sql(&mut sql);
    assert_eq!(
        sql.sql,
        "INSERT INTO \"public\".\"Users\"(\"id\", \"name\") VALUES (1, DEFAULT), (2, 'b') RETURNING *"
    );
    let insert_select = Insert {
        schema: SchemaName("public".to_string()),
        table: TableName("Users".to_string()),
        columns: None,
        from: InsertFrom::Select(select_one()),
        returning: returning(),
    };
    let mut sql = SQL::new();
    insert_select.to_sql(&mut sql);
    assert_eq!(sql.sql, "INSERT INTO \"public\".\"Users\" SELECT 1 FROM \"Users\" RETURNING *");
    let delete = Delete { from: from_users(), where_: Where(column("gone")), returning: returning() };
    let mut sql = SQL::new();
    delete.to_sql(&mut sql);
    assert_eq!(sql.sql, "DELETE FROM \"Users\"  WHERE \"gone\" RETURNING *");
    let update = Update {
        schema: SchemaName("public".to_string()),
        table: TableName("Users".to_string()),
        set: vec![
            (ColumnName("a".to_string()), MutationValueExpression::Expression(integer(1))),
            (ColumnName("b".to_string()), MutationValueExpression::Default),
        ],
        where_: Where(true_expr()),
        returning: returning(),
    };
    let mut sql = SQL::new();
    update.to_sql(&mut sql);
    assert_eq!(sql.sql, "UPDATE \"public\".\"Users\" SET \"a\" = 1, \"b\" = DEFAULT  RETURNING *");
}

#[test]
fn joins_render() {
    let render = |join: Join| {
        let mut sql = SQL::new();
        join.to_sql(&mut sql);
        sql.sql
    };
    assert_eq!(
        render(Join::LeftOuterJoin(LeftOuterJoin {
            select: Box::new(select_one()),
            alias: alias("j", 1),
            on: column("a"),
        })),
        " LEFT OUTER JOIN (SELECT 1 FROM \"Users\") AS \"j_1\" ON (\"a\") "
    );
    assert_eq!(
        render(Join::InnerJoin(InnerJoin { select: Box::new(select_one()), alias: alias("j", 2) })),
        " INNER JOIN (SELECT 1 FROM \"Users\") AS \"j_2\" ON ('true') "
    );
    assert_eq!(
        render(Join::CrossJoin(CrossJoin { select: Box::new(select_one()), alias: alias("j", 3) })),
        " CROSS JOIN (SELECT 1 FROM \"Users\") AS \"j_3\""
    );
    assert_eq!(
        render(Join::FullOuterJoin(FullOuterJoin {
            select: Box::new(select_one()),
            alias: alias("j", 4),
        })),
        " FULL OUTER JOIN (SELECT 1 FROM \"Users\") AS \"j_4\" ON ('true') "
    );
    let (select, join_alias) = Join::CrossJoin(CrossJoin {
        select: Box::new(select_one()),
        alias: alias("j", 5),
    })
    .get_select_and_alias();
    assert_eq!(select_to_sql(&select).sql, "SELECT 1 FROM \"Users\"");
    assert_eq!(join_alias.to_aliased_string(), "j_5");
}
