use ndc_dynamodb::json::{copy_json, JsonNumber, JsonValue};
use ndc_dynamodb::metadata::database::{
    AggregateFunctions, ColumnInfo, ComparisonOperator, ComparisonOperators,
    GlobalSecondaryIndexes, HasDefault, IsGenerated, IsIdentity, Nullable, OperatorKind,
    ScalarType, ScalarTypes, TableInfo, TablesInfo, Type, TypeRepresentation,
    TypeRepresentations,
};
use ndc_dynamodb::metadata::entries::{find, reversed};
use ndc_dynamodb::metadata::Metadata;
use ndc_dynamodb::models::Expression as Predicate;
use ndc_dynamodb::models::{
    ComparisonTarget, ComparisonValue, ExistsInCollection, Query, QueryRequest,
};
use ndc_dynamodb::sql::ast::{Expression, NestedField, Value};
use ndc_dynamodb::sql::rewrites::constant_folding::{normalize_expr, normalize_select};
use ndc_dynamodb::sql::helpers::{false_expr, select_rowset, simple_select, true_expr, SelectSet};
use ndc_dynamodb::sql::ast::{ReturnsFields, Where};
use ndc_dynamodb::sql::string::SQL;
use ndc_dynamodb::text::{i64_to_string, u64_to_string};
use ndc_dynamodb::translation::error::Error;
use ndc_dynamodb::translation::helpers::{
    copy_names, wrap_in_field_path, Env, FieldPath, FieldsInfo, TableAliasIndex,
};
use ndc_dynamodb::translation::query::filtering::count_aliases;
use ndc_dynamodb::translation::query::fits_alias_counter;

fn table(table_name: &str) -> TableInfo {
    TableInfo {
        table_name: table_name.to_string(),
        columns: vec![(
            "field".to_string(),
            ColumnInfo {
                name: "column".to_string(),
                type_: Type::ScalarType("String".to_string()),
                nullable: Nullable::Nullable,
                description: None,
            },
        )],
        partition_key: "column".to_string(),
        sort_key: "column".to_string(),
        gsi: GlobalSecondaryIndexes(vec![]),
        description: None,
    }
}

fn names(tables: &TablesInfo) -> Vec<(String, String)> {
    tables.0.iter().map(|(name, table)| (name.clone(), table.table_name.clone())).collect()
}

fn pair(a: &str, b: &str) -> (String, String) {
    (a.to_string(), b.to_string())
}

fn text_of(expression: &Expression) -> String {
    let mut sql = SQL::new();
    expression.to_sql(&mut sql);
    sql.sql
}

fn column(name: &str) -> Expression {
    Expression::Value(Value::Variable(name.to_string()))
}

#[test]
fn empty_metadata_describes_nothing() {
    let metadata = Metadata::empty();
    assert!(metadata.tables.0.is_empty());
    assert!(metadata.scalar_types.0.is_empty());
    assert!(Metadata::default().tables.0.is_empty());
    assert!(TablesInfo::empty().0.is_empty());
    assert!(ScalarTypes::empty().0.is_empty());
    assert!(ComparisonOperators::empty().0.is_empty());
    assert!(AggregateFunctions::empty().0.is_empty());
    assert!(TypeRepresentations::empty().0.is_empty());
    assert_eq!(Nullable::default(), Nullable::Nullable);
    assert_eq!(HasDefault::default(), HasDefault::NoDefault);
    assert_eq!(IsIdentity::default(), IsIdentity::NotIdentity);
    assert_eq!(IsGenerated::default(), IsGenerated::NotGenerated);
}

#[test]
fn merge_takes_the_tables_of_the_other() {
    let mut tables =
        TablesInfo(vec![("A".to_string(), table("a1")), ("B".to_string(), table("b1"))]);
    tables.merge(TablesInfo(vec![
        ("C".to_string(), table("c2")),
        ("A".to_string(), table("a2")),
        ("C".to_string(), table("c3")),
    ]));
    assert_eq!(names(&tables), [pair("A", "a2"), pair("B", "b1"), pair("C", "c3")]);
    tables.merge(TablesInfo::empty());
    assert_eq!(names(&tables), [pair("A", "a2"), pair("B", "b1"), pair("C", "c3")]);
    let mut empty = TablesInfo::empty();
    empty.merge(TablesInfo(vec![("A".to_string(), table("a"))]));
    assert_eq!(names(&empty), [pair("A", "a")]);
}

#[test]
fn first_entry_under_a_name_is_found() {
    let entries =
        vec![("a".to_string(), 1), ("b".to_string(), 2), ("a".to_string(), 3)];
    assert_eq!(find(&entries, &"a".to_string()), Some(0));
    assert_eq!(find(&entries, &"b".to_string()), Some(1));
    assert_eq!(find(&entries, &"c".to_string()), None);
    assert_eq!(find(&Vec::<(String, u8)>::new(), &"a".to_string()), None);
    assert_eq!(reversed(vec![1, 2, 3]), [3, 2, 1]);
    assert_eq!(reversed(Vec::<u8>::new()), Vec::<u8>::new());
}

#[test]
fn environment_looks_things_up() {
    let operator = ComparisonOperator {
        operator_name: "=".to_string(),
        operator_kind: OperatorKind::Equal,
        argument_type: "String".to_string(),
        is_infix: true,
    };
    let metadata = Metadata {
        tables: TablesInfo(vec![("T".to_string(), table("t"))]),
        scalar_types: ScalarTypes(vec![
            (
                "String".to_string(),
                ScalarType {
                    name: "String".to_string(),
                    description: None,
                    comparison_operators: vec![("_eq".to_string(), operator)],
                    type_representation: Some(TypeRepresentation::String),
                },
            ),
            (
                "Plain".to_string(),
                ScalarType {
                    name: "Plain".to_string(),
                    description: None,
                    comparison_operators: vec![],
                    type_representation: None,
                },
            ),
        ]),
    };
    let env = Env::new(&metadata);
    let name = "T".to_string();
    let missing = "U".to_string();
    let collection = env.lookup_collection(&name).unwrap();
    let column = collection.lookup_column(&"field".to_string()).unwrap();
    assert_eq!(column.name.0, "column");
    assert!(matches!(column.type_, Type::ScalarType(scalar_type) if scalar_type == "String"));
    assert!(matches!(
        collection.lookup_column(&"column".to_string()),
        Err(Error::ColumnNotFoundInCollection(column, collection))
            if column == "column" && collection == "T"
    ));
    let fields = FieldsInfo::from(&collection);
    assert_eq!(fields.lookup_column(&"field".to_string()).unwrap().name.0, "column");
    assert_eq!(
        env.lookup_fields_info(&name).unwrap().lookup_column(&"field".to_string()).unwrap().name.0,
        "column"
    );
    assert!(matches!(
        env.lookup_collection(&missing),
        Err(Error::CollectionNotFound(name)) if name == "U"
    ));
    assert!(matches!(
        env.lookup_fields_info(&missing),
        Err(Error::CollectionNotFound(name)) if name == "U"
    ));
    let string = "String".to_string();
    assert_eq!(
        env.lookup_comparison_operator(&string, &"_eq".to_string()).unwrap().operator_name,
        "="
    );
    assert!(matches!(
        env.lookup_comparison_operator(&string, &"_lt".to_string()),
        Err(Error::OperatorNotFound { operator_name, scalar_type })
            if operator_name == "_lt" && scalar_type == "String"
    ));
    assert!(matches!(
        env.lookup_comparison_operator(&missing, &"_eq".to_string()),
        Err(Error::OperatorNotFound { operator_name, scalar_type })
            if operator_name == "_eq" && scalar_type == "U"
    ));
    assert!(matches!(
        env.lookup_type_representation(&string),
        Some(TypeRepresentation::String)
    ));
    assert!(env.lookup_type_representation(&"Plain".to_string()).is_none());
    assert!(env.lookup_type_representation(&missing).is_none());
    assert_eq!(env.lookup_scalar_type(&string).unwrap().name, "String");
    assert!(matches!(
        env.lookup_scalar_type(&missing),
        Err(Error::ScalarTypeNotFound(name)) if name == "U"
    ));
}

#[test]
fn empty_environment_knows_no_collection() {
    let found = Env::with_empty(|env| env.lookup_collection(&"T".to_string()).is_ok());
    assert!(!found);
}

#[test]
fn alias_index_counts_up() {
    let mut index = TableAliasIndex(5);
    assert_eq!(index.next_global_table_index().0, 5);
    assert_eq!(index.next_global_table_index().0, 6);
    let alias = index.make_table_alias("t".to_string());
    assert_eq!(alias.unique_index, 7);
    assert_eq!(alias.name, "t");
    assert_eq!(index.0, 8);
}

#[test]
fn field_paths_wrap_from_the_inside() {
    let path = FieldPath::from(&Some(vec!["a".to_string(), "b".to_string()]));
    assert_eq!(path.0, ["a", "b"]);
    assert!(FieldPath::from(&None).0.is_empty());
    let wrapped = wrap_in_field_path(&path, Expression::Value(Value::Null));
    match &wrapped {
        Expression::NestedFieldSelect { expression, nested_field: NestedField(outer) } => {
            assert_eq!(outer, "b");
            assert!(matches!(
                &**expression,
                Expression::NestedFieldSelect { nested_field: NestedField(inner), .. }
                    if inner == "a"
            ));
        }
        other => panic!("a nested field is expected, not {other:?}"),
    }
    assert_eq!(text_of(&wrapped), "((null).\"a\").\"b\"");
    let bare = wrap_in_field_path(&FieldPath(vec![]), Expression::Value(Value::Null));
    assert!(matches!(bare, Expression::Value(Value::Null)));
    assert_eq!(copy_names(&vec!["a".to_string(), "b".to_string()]), ["a", "b"]);
}

#[test]
fn numbers_are_written_in_decimal() {
    assert_eq!(u64_to_string(0), "0");
    assert_eq!(u64_to_string(9), "9");
    assert_eq!(u64_to_string(10), "10");
    assert_eq!(u64_to_string(1234567890), "1234567890");
    assert_eq!(u64_to_string(u64::MAX), "18446744073709551615");
    assert_eq!(i64_to_string(0), "0");
    assert_eq!(i64_to_string(-1), "-1");
    assert_eq!(i64_to_string(42), "42");
    assert_eq!(i64_to_string(i64::MAX), "9223372036854775807");
    assert_eq!(i64_to_string(i64::MIN), "-9223372036854775808");
}

#[test]
fn json_values_are_copied() {
    let value = JsonValue::Object(vec![
        ("a".to_string(), JsonValue::Array(vec![JsonValue::Null, JsonValue::Bool(true)])),
        ("b".to_string(), JsonValue::Number(JsonNumber::Decimal("1.5".to_string()))),
        ("c".to_string(), JsonValue::String("text".to_string())),
        ("d".to_string(), JsonValue::Number(JsonNumber::Integer(-3))),
    ]);
    assert_eq!(format!("{:?}", copy_json(&value)), format!("{value:?}"));
    assert_eq!(format!("{:?}", value.clone()), format!("{value:?}"));
}

#[test]
fn constants_are_folded() {
    let and = |left: Expression, right: Expression| Expression::And {
        left: Box::new(left),
        right: Box::new(right),
    };
    let or = |left: Expression, right: Expression| Expression::Or {
        left: Box::new(left),
        right: Box::new(right),
    };
    let normalized = |expression: Expression| text_of(&normalize_expr(expression));
    assert_eq!(normalized(and(true_expr(), column("a"))), "?");
    assert_eq!(normalized(and(column("a"), true_expr())), "?");
    assert_eq!(normalized(and(true_expr(), true_expr())), "true");
    assert_eq!(normalized(and(false_expr(), column("a"))), "false");
    assert_eq!(normalized(and(column("a"), false_expr())), "false");
    assert_eq!(normalized(and(column("a"), column("b"))), "(? AND ?)");
    assert_eq!(normalized(or(false_expr(), column("a"))), "?");
    assert_eq!(normalized(or(column("a"), false_expr())), "?");
    assert_eq!(normalized(or(false_expr(), false_expr())), "false");
    assert_eq!(normalized(or(true_expr(), column("a"))), "true");
    assert_eq!(normalized(or(column("a"), true_expr())), "true");
    assert_eq!(normalized(or(column("a"), column("b"))), "(? OR ?)");
    assert_eq!(
        normalized(and(and(true_expr(), column("a")), or(false_expr(), column("b")))),
        "(? AND ?)"
    );
    // A negation is kept, and what it negates is folded.
    assert_eq!(
        normalized(Expression::Not(Box::new(and(true_expr(), true_expr())))),
        "NOT (true)"
    );
    assert_eq!(
        normalized(Expression::Not(Box::new(Expression::Not(Box::new(column("a")))))),
        "NOT (NOT (?))"
    );
    let mut inner = simple_select(vec![]);
    inner.where_ = Where(and(true_expr(), true_expr()));
    let exists = Expression::Exists { select: Box::new(inner) };
    assert_eq!(normalized(exists), "EXISTS (SELECT  )");
    let mut select = simple_select(vec![]);
    select.where_ = Where(or(false_expr(), and(true_expr(), true_expr())));
    let mut sql = SQL::new();
    normalize_select(select).to_sql(&mut sql);
    assert_eq!(sql.sql, "SELECT  ");
}

#[test]
fn selection_set_keeps_its_rows() {
    let rows = || SelectSet::Rows(simple_select(vec![]));
    for returns_fields in [ReturnsFields::FieldsWereRequested, ReturnsFields::NoFieldsWereRequested] {
        let mut sql = SQL::new();
        select_rowset(rows(), &returns_fields).to_sql(&mut sql);
        assert_eq!(sql.sql, "SELECT  ");
    }
}

#[test]
fn aliases_of_a_predicate_are_counted() {
    let target = || ComparisonTarget::Column { name: "a".to_string(), path: vec![], field_path: None };
    let columns = || Predicate::BinaryComparisonOperator {
        column: target(),
        operator: "_in".to_string(),
        value: ComparisonValue::Column { column: target() },
    };
    let scalar = || Predicate::BinaryComparisonOperator {
        column: target(),
        operator: "_eq".to_string(),
        value: ComparisonValue::Scalar { value: JsonValue::Null },
    };
    let exists = |predicate: Option<Box<Predicate>>| Predicate::Exists {
        in_collection: ExistsInCollection::Unrelated { collection: "T".to_string(), arguments: vec![] },
        predicate,
    };
    assert_eq!(count_aliases(&scalar()), Some(0));
    assert_eq!(count_aliases(&columns()), Some(1));
    assert_eq!(count_aliases(&exists(None)), Some(0));
    assert_eq!(count_aliases(&exists(Some(Box::new(columns())))), Some(2));
    assert_eq!(
        count_aliases(&Predicate::And {
            expressions: vec![
                columns(),
                Predicate::Not { expression: Box::new(exists(Some(Box::new(scalar())))) },
                Predicate::Or { expressions: vec![columns(), scalar()] },
            ],
        }),
        Some(3)
    );
    let request = |predicate: Option<Predicate>| QueryRequest {
        collection: "T".to_string(),
        query: Query { fields: None, limit: None, offset: None, order_by: None, predicate },
        arguments: vec![],
        variables: None,
    };
    assert!(fits_alias_counter(&request(None)));
    assert!(fits_alias_counter(&request(Some(columns()))));
}
