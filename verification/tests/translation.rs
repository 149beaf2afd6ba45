use ndc_dynamodb::json::{JsonNumber, JsonValue};
use ndc_dynamodb::metadata::database::{
    ColumnInfo, ComparisonOperator, GlobalSecondaryIndexes, Nullable, OperatorKind, ScalarType,
    ScalarTypes, TableInfo, TablesInfo, Type, TypeRepresentation,
};
use ndc_dynamodb::metadata::Metadata;
use ndc_dynamodb::models::{
    Argument, ComparisonTarget, ComparisonValue, ExistsInCollection, Expression, Field,
    NestedField, OrderBy, OrderByElement, OrderByTarget, OrderDirection, PathElement, Query,
    QueryRequest, UnaryComparisonOperator,
};
use ndc_dynamodb::sql::ast::Expression as SqlExpression;
use ndc_dynamodb::sql::ast::{TableAlias, TableReference};
use ndc_dynamodb::sql::execution_plan::select_to_sql;
use ndc_dynamodb::sql::string::SQL;
use ndc_dynamodb::translation::error::{Error, UnsupportedCapabilities};
use ndc_dynamodb::translation::helpers::{
    Env, RootAndCurrentTables, State, TableNameAndReference,
};
use ndc_dynamodb::translation::helpers::FieldsInfo;
use ndc_dynamodb::translation::query::fields::unpack_and_wrap_fields;
use ndc_dynamodb::translation::query::filtering::{translate_expression, translate_expression_with_joins};
use ndc_dynamodb::translation::query::parse_collection_name;
use ndc_dynamodb::translation::query::sorting::translate_order_by;
use ndc_dynamodb::translation::query::translate;

fn operator(name: &str, kind: OperatorKind, argument_type: &str, is_infix: bool) -> ComparisonOperator {
    ComparisonOperator {
        operator_name: name.to_string(),
        operator_kind: kind,
        argument_type: argument_type.to_string(),
        is_infix,
    }
}

fn scalar_type(name: &str, representation: Option<TypeRepresentation>) -> (String, ScalarType) {
    (
        name.to_string(),
        ScalarType {
            name: name.to_string(),
            description: None,
            comparison_operators: vec![
                ("_eq".to_string(), operator("=", OperatorKind::Equal, name, true)),
                ("_in".to_string(), operator("IN", OperatorKind::In, name, true)),
                ("_gte".to_string(), operator(">=", OperatorKind::Custom, name, true)),
                ("_contains".to_string(), operator("contains", OperatorKind::Custom, name, false)),
                ("_strange".to_string(), operator("~", OperatorKind::Custom, "Missing", true)),
            ],
            type_representation: representation,
        },
    )
}

fn column(name: &str, type_: Type) -> (String, ColumnInfo) {
    (
        name.to_string(),
        ColumnInfo { name: name.to_string(), type_, nullable: Nullable::Nullable, description: None },
    )
}

fn scalar(name: &str) -> Type {
    Type::ScalarType(name.to_string())
}

fn table(name: &str, columns: Vec<(String, ColumnInfo)>) -> (String, TableInfo) {
    (
        name.to_string(),
        TableInfo {
            table_name: name.to_string(),
            columns,
            partition_key: "id".to_string(),
            sort_key: "name".to_string(),
            gsi: GlobalSecondaryIndexes(vec![]),
            description: None,
        },
    )
}

fn metadata() -> Metadata {
    Metadata {
        tables: TablesInfo(vec![
            table(
                "Users",
                vec![
                    column("id", scalar("String")),
                    column("name", scalar("String")),
                    column("age", scalar("Number")),
                    column("balance", scalar("BigNumber")),
                    column("big", scalar("Decimal")),
                    column("active", scalar("Flag")),
                    column("tags", Type::ArrayType(Box::new(scalar("String")))),
                    column("amounts", Type::ArrayType(Box::new(scalar("BigNumber")))),
                    column("grid", Type::ArrayType(Box::new(Type::ArrayType(Box::new(scalar("Number")))))),
                    column("odd", scalar("Unknown")),
                ],
            ),
            table("Orders", vec![column("id", scalar("String")), column("total", scalar("Number"))]),
        ]),
        scalar_types: ScalarTypes(vec![
            scalar_type("String", None),
            scalar_type("Number", None),
            scalar_type("BigNumber", Some(TypeRepresentation::Int64AsString)),
            scalar_type("Decimal", Some(TypeRepresentation::BigDecimalAsString)),
            scalar_type("Flag", Some(TypeRepresentation::Boolean)),
        ]),
    }
}

fn plain_field(alias: &str, column: &str) -> (String, Field) {
    (alias.to_string(), Field::Column { column: column.to_string(), fields: None, arguments: vec![] })
}

fn query() -> Query {
    Query { fields: None, limit: None, offset: None, order_by: None, predicate: None }
}

fn request(collection: &str, query: Query) -> QueryRequest {
    QueryRequest { collection: collection.to_string(), query, arguments: vec![], variables: None }
}

fn target(name: &str) -> ComparisonTarget {
    ComparisonTarget::Column { name: name.to_string(), path: vec![], field_path: None }
}

fn number(i: i64) -> JsonValue {
    JsonValue::Number(JsonNumber::Integer(i))
}

fn compare(column: &str, operator: &str, value: JsonValue) -> Expression {
    Expression::BinaryComparisonOperator {
        column: target(column),
        operator: operator.to_string(),
        value: ComparisonValue::Scalar { value },
    }
}

fn statement(metadata: &Metadata, request: QueryRequest) -> String {
    let plan = translate(metadata, request).expect("the request is translated");
    plan.query.query_sql().sql
}

fn failure(metadata: &Metadata, request: QueryRequest) -> Error {
    match translate(metadata, request) {
        Ok(_) => panic!("the request is not to be translated"),
        Err(error) => error,
    }
}

fn users_tables() -> RootAndCurrentTables {
    let users = || TableNameAndReference {
        name: "Users".to_string(),
        reference: TableReference::AliasedTable(TableAlias {
            unique_index: 0,
            name: "Users".to_string(),
        }),
    };
    RootAndCurrentTables { root_table: users(), current_table: users() }
}

fn condition(predicate: &Expression) -> Result<String, Error> {
    let metadata = metadata();
    let env = Env::new(&metadata);
    let mut state = State::new();
    let expression = translate_expression(&env, &mut state, &users_tables(), predicate)?;
    let mut sql = SQL::new();
    expression.to_sql(&mut sql);
    Ok(sql.sql)
}

fn path() -> Vec<PathElement> {
    vec![PathElement { relationship: "orders".to_string(), arguments: vec![], predicate: None }]
}

fn sort_key(name: &str, direction: OrderDirection) -> OrderByElement {
    OrderByElement {
        order_direction: direction,
        target: OrderByTarget::Column { name: name.to_string(), path: vec![], field_path: None },
    }
}

#[test]
fn selects_fields_with_predicate_and_limit() {
    let metadata = metadata();
    let plan = translate(
        &metadata,
        request(
            "Users",
            Query {
                fields: Some(vec![plain_field("id", "id"), plain_field("name", "name")]),
                limit: Some(10),
                predicate: Some(compare("age", "_gte", number(18))),
                ..query()
            },
        ),
    )
    .expect("the request is translated");
    assert_eq!(
        plan.query.query_sql().sql,
        "SELECT \"id\", \"name\" FROM \"Users\" WHERE (\"age\" >= 18)"
    );
    assert!(plan.query.query_sql().params.is_empty());
    assert_eq!(plan.query.limit, Some(10));
    assert_eq!(plan.query.root_field, "Users");
    assert!(plan.query.variables.is_none());
    assert!(plan.pre.is_empty());
    assert!(plan.post.is_empty());
    assert_eq!(
        plan.query.explain_query_sql().sql,
        "EXPLAIN SELECT \"id\", \"name\" FROM \"Users\" WHERE (\"age\" >= 18)"
    );
}

#[test]
fn empty_fields_select_one() {
    let metadata = metadata();
    assert_eq!(statement(&metadata, request("Users", query())), "SELECT 1 FROM \"Users\"");
    assert_eq!(
        statement(&metadata, request("Users", Query { fields: Some(vec![]), ..query() })),
        "SELECT 1 FROM \"Users\""
    );
}

#[test]
fn unknown_collection_is_an_error() {
    let metadata = metadata();
    let error = failure(&metadata, request("Nowhere", query()));
    assert!(matches!(error, Error::CollectionNotFound(name) if name == "Nowhere"));
    let error = failure(&Metadata::empty(), request("Users", query()));
    assert!(matches!(error, Error::CollectionNotFound(name) if name == "Users"));
}

#[test]
fn collection_identifier_with_index_is_parsed() {
    let (collection, gsi) = parse_collection_name(&"Orders:ByCustomer".to_string()).unwrap();
    assert_eq!(collection, "Orders");
    assert_eq!(gsi.unwrap().0, "ByCustomer");
    let (collection, gsi) = parse_collection_name(&"Orders".to_string()).unwrap();
    assert_eq!(collection, "Orders");
    assert!(gsi.is_none());
    let (collection, gsi) = parse_collection_name(&"Orders:".to_string()).unwrap();
    assert_eq!(collection, "Orders");
    assert_eq!(gsi.unwrap().0, "");
    let (collection, gsi) = parse_collection_name(&":Index".to_string()).unwrap();
    assert_eq!(collection, "");
    assert_eq!(gsi.unwrap().0, "Index");
    let (collection, gsi) = parse_collection_name(&"Bücher:Ünter".to_string()).unwrap();
    assert_eq!(collection, "Bücher");
    assert_eq!(gsi.unwrap().0, "Ünter");
    let (collection, gsi) = parse_collection_name(&"".to_string()).unwrap();
    assert_eq!(collection, "");
    assert!(gsi.is_none());
}

#[test]
fn collection_identifier_with_two_colons_is_invalid() {
    let error = parse_collection_name(&"Orders:Foo:Bar".to_string()).unwrap_err();
    assert!(matches!(error, Error::InvalidCollectionName(name) if name == "Orders:Foo:Bar"));
    let error = parse_collection_name(&"::".to_string()).unwrap_err();
    assert!(matches!(error, Error::InvalidCollectionName(name) if name == "::"));
    let metadata = metadata();
    let error = failure(&metadata, request("Orders:Foo:Bar", query()));
    assert!(matches!(error, Error::InvalidCollectionName(name) if name == "Orders:Foo:Bar"));
}

#[test]
fn secondary_index_qualifies_the_table() {
    let metadata = metadata();
    let plan = translate(&metadata, request("Orders:ByCustomer", query())).unwrap();
    assert_eq!(plan.query.query_sql().sql, "SELECT 1 FROM \"Orders\".\"ByCustomer\"");
    assert_eq!(plan.query.root_field, "Orders:ByCustomer");
}

#[test]
fn variable_sets_are_not_supported() {
    let metadata = metadata();
    let mut with_variables = request("Users", query());
    with_variables.variables = Some(vec![vec![("x".to_string(), number(1))]]);
    let error = failure(&metadata, with_variables);
    assert!(matches!(
        error,
        Error::CapabilityNotSupported(UnsupportedCapabilities::VariableSets)
    ));
}

#[test]
fn column_without_representation_is_not_cast() {
    let metadata = metadata();
    let plan = translate(
        &metadata,
        request("Users", Query { fields: Some(vec![plain_field("n", "name")]), ..query() }),
    )
    .unwrap();
    match &plan.query.query.select_list {
        ndc_dynamodb::sql::ast::SelectList::SelectList(columns) => {
            assert_eq!(columns.len(), 1);
            assert_eq!(columns[0].0.name, "n");
            assert!(matches!(&columns[0].1, SqlExpression::ColumnReference(_)));
        }
        _ => panic!("a list of columns is selected"),
    }
    assert_eq!(plan.query.query_sql().sql, "SELECT \"name\" FROM \"Users\"");
}

#[test]
fn representation_decides_cast() {
    let metadata = metadata();
    let plan = translate(
        &metadata,
        request(
            "Users",
            Query {
                fields: Some(vec![
                    plain_field("balance", "balance"),
                    plain_field("big", "big"),
                    plain_field("active", "active"),
                    plain_field("amounts", "amounts"),
                    plain_field("tags", "tags"),
                ]),
                ..query()
            },
        ),
    )
    .unwrap();
    match &plan.query.query.select_list {
        ndc_dynamodb::sql::ast::SelectList::SelectList(columns) => {
            assert!(matches!(
                &columns[0].1,
                SqlExpression::Cast {
                    type_: ndc_dynamodb::sql::ast::ScalarType::BaseType(
                        ndc_dynamodb::sql::ast::ScalarTypeName::Unqualified(name)
                    ),
                    ..
                } if name == "text"
            ));
            assert!(matches!(
                &columns[1].1,
                SqlExpression::Cast {
                    type_: ndc_dynamodb::sql::ast::ScalarType::BaseType(_),
                    ..
                }
            ));
            assert!(matches!(&columns[2].1, SqlExpression::ColumnReference(_)));
            assert!(matches!(
                &columns[3].1,
                SqlExpression::Cast {
                    type_: ndc_dynamodb::sql::ast::ScalarType::ArrayType(_),
                    ..
                }
            ));
            assert!(matches!(&columns[4].1, SqlExpression::ColumnReference(_)));
        }
        _ => panic!("a list of columns is selected"),
    }
    assert_eq!(
        plan.query.query_sql().sql,
        "SELECT \"balance\", \"big\", \"active\", \"amounts\", \"tags\" FROM \"Users\""
    );
}

#[test]
fn field_errors() {
    let metadata = metadata();
    let with_fields = |fields: Vec<(String, Field)>| {
        failure(&metadata, request("Users", Query { fields: Some(fields), ..query() }))
    };
    assert!(matches!(
        with_fields(vec![plain_field("x", "missing")]),
        Error::ColumnNotFoundInCollection(column, collection)
            if column == "missing" && collection == "Users"
    ));
    assert!(matches!(
        with_fields(vec![plain_field("x", "grid")]),
        Error::NestedArraysNotSupported { field_name } if field_name == "grid"
    ));
    assert!(matches!(
        with_fields(vec![plain_field("x", "odd")]),
        Error::ScalarTypeNotFound(name) if name == "Unknown"
    ));
    assert!(matches!(
        with_fields(vec![(
            "x".to_string(),
            Field::Column {
                column: "id".to_string(),
                fields: None,
                arguments: vec![("a".to_string(), Argument::Literal { value: number(1) })],
            }
        )]),
        Error::CapabilityNotSupported(UnsupportedCapabilities::FieldArguments)
    ));
    assert!(matches!(
        with_fields(vec![(
            "x".to_string(),
            Field::Column {
                column: "id".to_string(),
                fields: Some(NestedField::Object { fields: vec![] }),
                arguments: vec![],
            }
        )]),
        Error::CapabilityNotSupported(UnsupportedCapabilities::NestedFields)
    ));
    assert!(matches!(
        with_fields(vec![(
            "x".to_string(),
            Field::Relationship {
                query: Box::new(query()),
                relationship: "orders".to_string(),
                arguments: vec![],
            }
        )]),
        Error::CapabilityNotSupported(UnsupportedCapabilities::Relationships)
    ));
    // The first field that has an error gives the error.
    assert!(matches!(
        with_fields(vec![plain_field("a", "id"), plain_field("b", "grid"), plain_field("c", "missing")]),
        Error::NestedArraysNotSupported { .. }
    ));
}

#[test]
fn in_empty_array_is_false_without_joins() {
    let metadata = metadata();
    let env = Env::new(&metadata);
    let mut state = State::new();
    let predicate = compare("age", "_in", JsonValue::Array(vec![]));
    let (expression, joins) =
        translate_expression_with_joins(&env, &mut state, &users_tables(), &predicate).unwrap();
    assert!(matches!(
        expression,
        SqlExpression::Value(ndc_dynamodb::sql::ast::Value::Bool(false))
    ));
    assert!(joins.is_empty());
    assert_eq!(condition(&compare("name", "_in", JsonValue::Array(vec![]))).unwrap(), "false");
}

#[test]
fn in_list_of_literals() {
    assert_eq!(
        condition(&compare("age", "_in", JsonValue::Array(vec![number(1), number(2)]))).unwrap(),
        "(\"age\" IN (1, 2))"
    );
    assert_eq!(
        condition(&compare(
            "name",
            "_in",
            JsonValue::Array(vec![JsonValue::String("a".to_string()), JsonValue::Null])
        ))
        .unwrap(),
        "(\"name\" IN ('a', null))"
    );
}

#[test]
fn in_another_column_uses_a_subquery() {
    let predicate = Expression::BinaryComparisonOperator {
        column: target("name"),
        operator: "_in".to_string(),
        value: ComparisonValue::Column { column: target("tags") },
    };
    assert_eq!(
        condition(&predicate).unwrap(),
        "(\"name\" IN ((SELECT \"value\" FROM UNNEST(\"tags\") AS \"in_subquery_0\"(\"value\"))))"
    );
}

#[test]
fn in_needs_an_array() {
    assert!(matches!(
        condition(&compare("age", "_in", number(3))),
        Err(Error::TypeMismatch(JsonValue::Number(JsonNumber::Integer(3)), expected))
            if expected == "Number"
    ));
    assert!(matches!(
        condition(&compare(
            "age",
            "_in",
            JsonValue::Array(vec![number(1), JsonValue::Array(vec![])])
        )),
        Err(Error::TypeMismatch(JsonValue::Array(_), expected)) if expected == "Number"
    ));
}

#[test]
fn comparisons_translate() {
    assert_eq!(condition(&compare("age", "_eq", number(3))).unwrap(), "(\"age\" = 3)");
    assert_eq!(
        condition(&compare("name", "_eq", JsonValue::String("Ann".to_string()))).unwrap(),
        "(\"name\" = 'Ann')"
    );
    assert_eq!(
        condition(&compare("age", "_gte", JsonValue::Number(JsonNumber::Decimal("1.5".to_string()))))
            .unwrap(),
        "(\"age\" >= 1.5)"
    );
    assert_eq!(condition(&compare("active", "_eq", JsonValue::Bool(true))).unwrap(), "(\"active\" = true)");
    assert_eq!(condition(&compare("age", "_eq", JsonValue::Null)).unwrap(), "(\"age\" = null)");
    assert_eq!(
        condition(&compare("name", "_contains", JsonValue::String("n".to_string()))).unwrap(),
        "contains(\"name\", 'n')"
    );
    assert_eq!(
        condition(&compare("name", "_eq", JsonValue::Object(vec![]))).unwrap(),
        "(\"name\" = ?)"
    );
    let columns = Expression::BinaryComparisonOperator {
        column: target("id"),
        operator: "_eq".to_string(),
        value: ComparisonValue::Column {
            column: ComparisonTarget::RootCollectionColumn {
                name: "name".to_string(),
                field_path: Some(vec!["first".to_string()]),
            },
        },
    };
    assert_eq!(condition(&columns).unwrap(), "(\"id\" = (\"name\").\"first\")");
}

#[test]
fn comparison_errors() {
    assert!(matches!(
        condition(&compare("missing", "_eq", number(1))),
        Err(Error::ColumnNotFoundInCollection(column, collection))
            if column == "missing" && collection == "Users"
    ));
    assert!(matches!(
        condition(&compare("age", "_like", number(1))),
        Err(Error::OperatorNotFound { operator_name, scalar_type })
            if operator_name == "_like" && scalar_type == "Number"
    ));
    assert!(matches!(
        condition(&compare("odd", "_eq", number(1))),
        Err(Error::OperatorNotFound { operator_name, scalar_type })
            if operator_name == "_eq" && scalar_type == "Unknown"
    ));
    assert!(matches!(
        condition(&compare("tags", "_eq", number(1))),
        Err(Error::NonScalarTypeUsedInOperator { type_: Type::ArrayType(_) })
    ));
    assert!(matches!(
        condition(&compare("age", "_strange", number(1))),
        Err(Error::ScalarTypeNotFound(name)) if name == "Missing"
    ));
    assert!(matches!(
        condition(&compare("age", "_eq", JsonValue::Array(vec![]))),
        Err(Error::TypeMismatch(JsonValue::Array(_), expected)) if expected == "Number"
    ));
    let variable = Expression::BinaryComparisonOperator {
        column: target("age"),
        operator: "_eq".to_string(),
        value: ComparisonValue::Variable { name: "v".to_string() },
    };
    assert!(matches!(
        condition(&variable),
        Err(Error::CapabilityNotSupported(UnsupportedCapabilities::Variables))
    ));
    let in_variable = Expression::BinaryComparisonOperator {
        column: target("age"),
        operator: "_in".to_string(),
        value: ComparisonValue::Variable { name: "v".to_string() },
    };
    assert!(matches!(
        condition(&in_variable),
        Err(Error::CapabilityNotSupported(UnsupportedCapabilities::Variables))
    ));
    let related = Expression::BinaryComparisonOperator {
        column: ComparisonTarget::Column { name: "age".to_string(), path: path(), field_path: None },
        operator: "_eq".to_string(),
        value: ComparisonValue::Scalar { value: number(1) },
    };
    assert!(matches!(
        condition(&related),
        Err(Error::CapabilityNotSupported(UnsupportedCapabilities::Relationships))
    ));
    let nested = Expression::BinaryComparisonOperator {
        column: ComparisonTarget::Column {
            name: "age".to_string(),
            path: vec![],
            field_path: Some(vec!["years".to_string()]),
        },
        operator: "_eq".to_string(),
        value: ComparisonValue::Scalar { value: number(1) },
    };
    assert!(matches!(
        condition(&nested),
        Err(Error::ColumnNotFoundInCollection(field, scalar_type))
            if field == "years" && scalar_type == "Number"
    ));
}

#[test]
fn is_null_translates() {
    let predicate = Expression::UnaryComparisonOperator {
        column: ComparisonTarget::Column {
            name: "name".to_string(),
            path: vec![],
            field_path: Some(vec!["a".to_string(), "b".to_string()]),
        },
        operator: UnaryComparisonOperator::IsNull,
    };
    assert_eq!(condition(&predicate).unwrap(), "(((\"name\").\"a\").\"b\" IS NULL )");
    let related = Expression::UnaryComparisonOperator {
        column: ComparisonTarget::Column { name: "name".to_string(), path: path(), field_path: None },
        operator: UnaryComparisonOperator::IsNull,
    };
    assert!(matches!(
        condition(&related),
        Err(Error::CapabilityNotSupported(UnsupportedCapabilities::Relationships))
    ));
}

#[test]
fn connectives_fold_from_the_left() {
    assert_eq!(condition(&Expression::And { expressions: vec![] }).unwrap(), "true");
    assert_eq!(condition(&Expression::Or { expressions: vec![] }).unwrap(), "false");
    let both = vec![compare("age", "_eq", number(1)), compare("age", "_eq", number(2))];
    assert_eq!(
        condition(&Expression::And { expressions: both }).unwrap(),
        "((true AND (\"age\" = 1)) AND (\"age\" = 2))"
    );
    let either = vec![compare("age", "_eq", number(1)), compare("age", "_eq", number(2))];
    assert_eq!(
        condition(&Expression::Or { expressions: either }).unwrap(),
        "((false OR (\"age\" = 1)) OR (\"age\" = 2))"
    );
    // The first predicate that has an error gives the error.
    let failing = vec![
        compare("age", "_eq", number(1)),
        compare("missing", "_eq", number(2)),
        compare("age", "_like", number(3)),
    ];
    assert!(matches!(
        condition(&Expression::And { expressions: failing }),
        Err(Error::ColumnNotFoundInCollection(..))
    ));
}

#[test]
fn negations_are_kept() {
    let once = Expression::Not { expression: Box::new(compare("age", "_eq", number(1))) };
    assert_eq!(condition(&once).unwrap(), "NOT ((\"age\" = 1))");
    let twice = Expression::Not { expression: Box::new(once) };
    assert_eq!(condition(&twice).unwrap(), "NOT (NOT ((\"age\" = 1)))");
    assert_ne!(condition(&twice).unwrap(), condition(&compare("age", "_eq", number(1))).unwrap());
}

#[test]
fn empty_and_renders_no_where_clause() {
    let metadata = metadata();
    let without = statement(&metadata, request("Users", query()));
    let with_empty_and = statement(
        &metadata,
        request(
            "Users",
            Query { predicate: Some(Expression::And { expressions: vec![] }), ..query() },
        ),
    );
    assert_eq!(with_empty_and, without);
    assert_eq!(with_empty_and, "SELECT 1 FROM \"Users\"");
}

#[test]
fn constants_are_folded_in_the_plan() {
    let metadata = metadata();
    let conjunction = Expression::And {
        expressions: vec![compare("age", "_eq", number(1)), compare("age", "_gte", number(2))],
    };
    assert_eq!(
        statement(&metadata, request("Users", Query { predicate: Some(conjunction), ..query() })),
        "SELECT 1 FROM \"Users\" WHERE ((\"age\" = 1) AND (\"age\" >= 2))"
    );
    let with_empty_in = Expression::And {
        expressions: vec![
            compare("age", "_eq", number(1)),
            compare("age", "_in", JsonValue::Array(vec![])),
        ],
    };
    assert_eq!(
        statement(&metadata, request("Users", Query { predicate: Some(with_empty_in), ..query() })),
        "SELECT 1 FROM \"Users\" WHERE false"
    );
    let disjunction = Expression::Or {
        expressions: vec![
            compare("age", "_in", JsonValue::Array(vec![])),
            compare("age", "_eq", number(1)),
        ],
    };
    assert_eq!(
        statement(&metadata, request("Users", Query { predicate: Some(disjunction), ..query() })),
        "SELECT 1 FROM \"Users\" WHERE (\"age\" = 1)"
    );
    let negated = Expression::Not {
        expression: Box::new(Expression::Not {
            expression: Box::new(Expression::And { expressions: vec![compare("age", "_eq", number(1))] }),
        }),
    };
    assert_eq!(
        statement(&metadata, request("Users", Query { predicate: Some(negated), ..query() })),
        "SELECT 1 FROM \"Users\" WHERE NOT (NOT ((\"age\" = 1)))"
    );
}

#[test]
fn exists_in_unrelated_collection() {
    let exists = |predicate: Option<Box<Expression>>| Expression::Exists {
        in_collection: ExistsInCollection::Unrelated {
            collection: "Orders".to_string(),
            arguments: vec![],
        },
        predicate,
    };
    assert_eq!(condition(&exists(None)).unwrap(), "true");
    // A column of the predicate is looked up in the root table.
    assert_eq!(
        condition(&exists(Some(Box::new(Expression::UnaryComparisonOperator {
            column: target("name"),
            operator: UnaryComparisonOperator::IsNull,
        }))))
        .unwrap(),
        "EXISTS (SELECT 1 FROM \"Orders\" WHERE (\"name\" IS NULL ))"
    );
    // The type of a column of the predicate is that of the column of the
    // collection in which rows are to exist.
    assert_eq!(
        condition(&exists(Some(Box::new(compare("id", "_eq", JsonValue::String("a".to_string()))))))
            .unwrap(),
        "EXISTS (SELECT 1 FROM \"Orders\" WHERE (\"id\" = 'a'))"
    );
    assert!(matches!(
        condition(&exists(Some(Box::new(compare("name", "_eq", number(1)))))),
        Err(Error::ColumnNotFoundInCollection(column, collection))
            if column == "name" && collection == "Orders"
    ));
    let nowhere = Expression::Exists {
        in_collection: ExistsInCollection::Unrelated {
            collection: "Nowhere".to_string(),
            arguments: vec![],
        },
        predicate: Some(Box::new(compare("id", "_eq", number(1)))),
    };
    assert!(matches!(
        condition(&nowhere),
        Err(Error::CollectionNotFound(name)) if name == "Nowhere"
    ));
}

#[test]
fn exists_in_other_collections_is_not_supported() {
    let related = Expression::Exists {
        in_collection: ExistsInCollection::Related {
            relationship: "orders".to_string(),
            arguments: vec![],
        },
        predicate: Some(Box::new(compare("id", "_eq", number(1)))),
    };
    assert!(matches!(
        condition(&related),
        Err(Error::CapabilityNotSupported(UnsupportedCapabilities::RelatedExists))
    ));
    let nested = Expression::Exists {
        in_collection: ExistsInCollection::NestedCollection {
            column_name: "tags".to_string(),
            arguments: vec![],
            field_path: vec![],
        },
        predicate: Some(Box::new(compare("id", "_eq", number(1)))),
    };
    assert!(matches!(
        condition(&nested),
        Err(Error::CapabilityNotSupported(UnsupportedCapabilities::NestedCollectionExists))
    ));
}

#[test]
fn aliases_are_drawn_in_order() {
    let metadata = metadata();
    let env = Env::new(&metadata);
    let mut state = State::new();
    let first = state.make_table_alias("t".to_string());
    let second = state.make_table_alias("t".to_string());
    let third = state.make_boolean_expression_table_alias("Users");
    let fourth = state.make_order_by_table_alias("Users");
    let fifth = state.make_order_path_part_table_alias("Users");
    let sixth = state.make_native_query_table_alias("q");
    assert_eq!(first.to_aliased_string(), "t_0");
    assert_eq!(second.to_aliased_string(), "t_1");
    assert_ne!(first.to_aliased_string(), second.to_aliased_string());
    assert_eq!(third.to_aliased_string(), "BOOLEXP_Users_2");
    assert_eq!(fourth.to_aliased_string(), "ORDER_FOR_Users_3");
    assert_eq!(fifth.to_aliased_string(), "ORDER_PART_Users_4");
    assert_eq!(sixth.to_aliased_string(), "NATIVE_QUERY_q_5");
    // A translation goes on from where the state stands.
    let predicate = Expression::BinaryComparisonOperator {
        column: target("name"),
        operator: "_in".to_string(),
        value: ComparisonValue::Column { column: target("tags") },
    };
    let expression = translate_expression(&env, &mut state, &users_tables(), &predicate).unwrap();
    let mut sql = SQL::new();
    expression.to_sql(&mut sql);
    assert!(sql.sql.contains("\"in_subquery_6\""));
    assert_eq!(state.global_table_index.0, 7);
}

#[test]
fn order_by_keeps_the_order_of_the_request() {
    let metadata = metadata();
    let plan = translate(
        &metadata,
        request(
            "Users",
            Query {
                order_by: Some(OrderBy {
                    elements: vec![
                        sort_key("name", OrderDirection::Asc),
                        sort_key("age", OrderDirection::Desc),
                        sort_key("id", OrderDirection::Asc),
                        OrderByElement {
                            order_direction: OrderDirection::Desc,
                            target: OrderByTarget::Column {
                                name: "balance".to_string(),
                                path: vec![],
                                field_path: Some(vec!["cents".to_string()]),
                            },
                        },
                    ],
                }),
                ..query()
            },
        ),
    )
    .unwrap();
    assert_eq!(
        plan.query.query_sql().sql,
        "SELECT 1 FROM \"Users\" ORDER BY \"name\" ASC , \"age\" DESC , \"id\" ASC , (\"balance\").\"cents\" DESC "
    );
}

#[test]
fn empty_order_by_renders_nothing() {
    let metadata = metadata();
    assert_eq!(
        statement(
            &metadata,
            request("Users", Query { order_by: Some(OrderBy { elements: vec![] }), ..query() })
        ),
        "SELECT 1 FROM \"Users\""
    );
    let env = Env::new(&metadata);
    let mut state = State::new();
    let (order_by, joins) = translate_order_by(&env, &mut state, &users_tables(), &None).unwrap();
    assert!(order_by.elements.is_empty());
    assert!(joins.is_empty());
}

#[test]
fn aggregate_over_empty_path_is_an_error() {
    let metadata = metadata();
    let ordered = |elements: Vec<OrderByElement>| {
        failure(
            &metadata,
            request("Users", Query { order_by: Some(OrderBy { elements }), ..query() }),
        )
    };
    assert!(matches!(
        ordered(vec![
            sort_key("name", OrderDirection::Asc),
            OrderByElement {
                order_direction: OrderDirection::Desc,
                target: OrderByTarget::StarCountAggregate { path: vec![] },
            },
            sort_key("id", OrderDirection::Asc),
        ]),
        Error::EmptyPathForOrderByAggregate
    ));
    assert!(matches!(
        ordered(vec![OrderByElement {
            order_direction: OrderDirection::Desc,
            target: OrderByTarget::SingleColumnAggregate {
                column: "age".to_string(),
                function: "max".to_string(),
                path: vec![],
                field_path: None,
            },
        }]),
        Error::EmptyPathForOrderByAggregate
    ));
}

#[test]
fn order_by_errors() {
    let metadata = metadata();
    let ordered = |elements: Vec<OrderByElement>| {
        failure(
            &metadata,
            request("Users", Query { order_by: Some(OrderBy { elements }), ..query() }),
        )
    };
    assert!(matches!(
        ordered(vec![sort_key("name", OrderDirection::Asc), sort_key("missing", OrderDirection::Asc)]),
        Error::ColumnNotFoundInCollection(column, collection)
            if column == "missing" && collection == "Users"
    ));
    assert!(matches!(
        ordered(vec![OrderByElement {
            order_direction: OrderDirection::Asc,
            target: OrderByTarget::Column { name: "name".to_string(), path: path(), field_path: None },
        }]),
        Error::CapabilityNotSupported(UnsupportedCapabilities::Relationships)
    ));
    assert!(matches!(
        ordered(vec![OrderByElement {
            order_direction: OrderDirection::Asc,
            target: OrderByTarget::StarCountAggregate { path: path() },
        }]),
        Error::CapabilityNotSupported(UnsupportedCapabilities::Relationships)
    ));
}

#[test]
fn order_by_error_comes_before_predicate_error() {
    let metadata = metadata();
    let error = failure(
        &metadata,
        request(
            "Users",
            Query {
                order_by: Some(OrderBy { elements: vec![sort_key("missing", OrderDirection::Asc)] }),
                predicate: Some(compare("age", "_like", number(1))),
                ..query()
            },
        ),
    );
    assert!(matches!(error, Error::ColumnNotFoundInCollection(..)));
}

#[test]
fn statement_of_a_select_renders_alone() {
    let metadata = metadata();
    let plan = translate(&metadata, request("Orders", query())).unwrap();
    assert_eq!(select_to_sql(&plan.query.query).sql, plan.query.query_sql().sql);
}

#[test]
fn errors_say_what_went_wrong() {
    assert_eq!(
        Error::CollectionNotFound("Users".to_string()).message(),
        "Collection 'Users' not found."
    );
    assert_eq!(
        Error::ColumnNotFoundInCollection("age".to_string(), "Users".to_string()).message(),
        "Column 'age' not found in collection 'Users'."
    );
    assert_eq!(
        Error::ScalarTypeNotFound("Number".to_string()).message(),
        "Scalar type 'Number' not found."
    );
    assert_eq!(
        Error::OperatorNotFound { operator_name: "_eq".to_string(), scalar_type: "T".to_string() }
            .message(),
        "Operator '_eq' not found for type 'T'."
    );
    assert_eq!(
        Error::TypeMismatch(JsonValue::Null, "Number".to_string()).message(),
        "Value is not of type 'Number'."
    );
    assert_eq!(
        Error::NestedArraysNotSupported { field_name: "grid".to_string() }.message(),
        "Nested arrays are not supported in field 'grid'."
    );
    assert_eq!(
        Error::NonScalarTypeUsedInOperator {
            type_: Type::ArrayType(Box::new(Type::ArrayType(Box::new(scalar("Number"))))),
        }
        .message(),
        "Non-scalar type '[[Number]]' used in operator."
    );
    assert_eq!(
        Error::InvalidCollectionName("a:b:c".to_string()).message(),
        "Invalid collection name: 'a:b:c'."
    );
    assert_eq!(
        Error::CapabilityNotSupported(UnsupportedCapabilities::Relationships).message(),
        "Relationships are not supported."
    );
    assert_eq!(
        Error::CapabilityNotSupported(UnsupportedCapabilities::VariableSets).message(),
        "Variable sets are not supported."
    );
    assert_eq!(UnsupportedCapabilities::FieldArguments.text(), "Field arguments");
    assert_eq!(UnsupportedCapabilities::NestedFields.text(), "Nested fields");
    assert_eq!(UnsupportedCapabilities::RelatedExists.text(), "EXISTS in a related collection");
    assert_eq!(
        UnsupportedCapabilities::NestedCollectionExists.text(),
        "EXISTS in a nested collection"
    );
    assert_eq!(UnsupportedCapabilities::Variables.text(), "Variables");
    assert_eq!(
        Error::EmptyPathForOrderByAggregate.message(),
        "No path elements supplied for order by aggregate."
    );
}

fn projected(column: &str) -> Result<(String, SqlExpression), Error> {
    let mut metadata = metadata();
    // The column is stored under another name than the one it is asked for by.
    for (_, stored) in metadata.tables.0[0].1.columns.iter_mut() {
        stored.name = format!("{}_stored", stored.name);
    }
    let env = Env::new(&metadata);
    let collection = "Users".to_string();
    let info = env.lookup_collection(&collection)?;
    let fields_info = FieldsInfo::from(&info);
    let alias = ndc_dynamodb::sql::ast::ColumnAlias { name: "shown".to_string() };
    let (alias, expression) = unpack_and_wrap_fields(
        &env,
        &users_tables().current_table,
        &column.to_string(),
        alias,
        &fields_info,
    )?;
    Ok((alias.name, expression))
}

fn is_column_of_users(expression: &SqlExpression, stored: &str) -> bool {
    matches!(
        expression,
        SqlExpression::ColumnReference(ndc_dynamodb::sql::ast::ColumnReference::TableColumn {
            table: TableReference::AliasedTable(TableAlias { unique_index: 0, name: table }),
            name: ndc_dynamodb::sql::ast::ColumnName(name),
        }) if table == "Users" && name == stored
    )
}

#[test]
fn column_without_representation_is_a_bare_reference() {
    let (alias, expression) = projected("name").unwrap();
    assert_eq!(alias, "shown");
    assert!(is_column_of_users(&expression, "name_stored"));
    let (alias, expression) = projected("tags").unwrap();
    assert_eq!(alias, "shown");
    assert!(is_column_of_users(&expression, "tags_stored"));
}

#[test]
fn wide_integer_is_cast_to_text() {
    let (alias, expression) = projected("balance").unwrap();
    assert_eq!(alias, "shown");
    match &expression {
        SqlExpression::Cast {
            expression,
            type_:
                ndc_dynamodb::sql::ast::ScalarType::BaseType(
                    ndc_dynamodb::sql::ast::ScalarTypeName::Unqualified(name),
                ),
        } => {
            assert_eq!(name, "text");
            assert!(is_column_of_users(expression, "balance_stored"));
        }
        other => panic!("no cast to text: {other:?}"),
    }
    match &projected("big").unwrap().1 {
        SqlExpression::Cast {
            expression,
            type_:
                ndc_dynamodb::sql::ast::ScalarType::BaseType(
                    ndc_dynamodb::sql::ast::ScalarTypeName::Unqualified(name),
                ),
        } => {
            assert_eq!(name, "text");
            assert!(is_column_of_users(expression, "big_stored"));
        }
        other => panic!("no cast to text: {other:?}"),
    }
    match &projected("amounts").unwrap().1 {
        SqlExpression::Cast {
            expression,
            type_:
                ndc_dynamodb::sql::ast::ScalarType::ArrayType(
                    ndc_dynamodb::sql::ast::ScalarTypeName::Unqualified(name),
                ),
        } => {
            assert_eq!(name, "text");
            assert!(is_column_of_users(expression, "amounts_stored"));
        }
        other => panic!("no cast to an array of text: {other:?}"),
    }
}

#[test]
fn boolean_is_not_cast() {
    let (alias, expression) = projected("active").unwrap();
    assert_eq!(alias, "shown");
    assert!(is_column_of_users(&expression, "active_stored"));
}

#[test]
fn projection_errors() {
    assert!(matches!(
        projected("missing"),
        Err(Error::ColumnNotFoundInCollection(column, collection))
            if column == "missing" && collection == "Users"
    ));
    assert!(matches!(
        projected("odd"),
        Err(Error::ScalarTypeNotFound(name)) if name == "Unknown"
    ));
    assert!(matches!(
        projected("grid"),
        Err(Error::NestedArraysNotSupported { field_name }) if field_name == "grid"
    ));
}
