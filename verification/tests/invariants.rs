use ndc_dynamodb::configuration::version1::{
    get_comparison_operators_for_type, introspect_metadata, introspect_table, AttributeDefinition,
    AttributeKind, IndexDescription, KeySchemaElement, KeyType, TableDescription,
};
use ndc_dynamodb::json::{JsonNumber, JsonValue};
use ndc_dynamodb::metadata::database::{
    ColumnInfo, ComparisonOperator, GlobalSecondaryIndexes, Nullable, OperatorKind, ScalarType,
    ScalarTypes, TableInfo, TablesInfo, Type,
};
use ndc_dynamodb::metadata::Metadata;
use ndc_dynamodb::models::{
    ComparisonTarget, ComparisonValue, Expression, OrderByElement, OrderByTarget, OrderDirection,
    PathElement, RelationshipArgument,
};
use ndc_dynamodb::sql::ast::{Gsi, TableAlias, TableReference};
use ndc_dynamodb::sql::string::SQL;
use ndc_dynamodb::translation::error::{Error, UnsupportedCapabilities};
use ndc_dynamodb::translation::helpers::{
    Env, RootAndCurrentTables, State, TableNameAndReference,
};
use ndc_dynamodb::translation::query::filtering::translate_expression;
use ndc_dynamodb::translation::query::path_text::write_path;
use ndc_dynamodb::translation::query::root::make_from_clause_and_reference;
use ndc_dynamodb::translation::query::sorting::{
    group_elements, path_keys, translate_order_by, translate_order_by_groups,
    OrderByElementGroups,
};

fn no_name_twice<V>(entries: &[(String, V)]) -> bool {
    entries
        .iter()
        .enumerate()
        .all(|(i, (name, _))| entries.iter().skip(i + 1).all(|(other, _)| other != name))
}

fn well_formed(metadata: &Metadata) -> bool {
    no_name_twice(&metadata.tables.0)
        && metadata
            .tables
            .0
            .iter()
            .all(|(_, table)| no_name_twice(&table.columns) && no_name_twice(&table.gsi.0))
        && no_name_twice(&metadata.scalar_types.0)
        && metadata
            .scalar_types
            .0
            .iter()
            .all(|(_, scalar_type)| no_name_twice(&scalar_type.comparison_operators))
}

fn key(name: &str, key_type: KeyType) -> KeySchemaElement {
    KeySchemaElement { attribute_name: name.to_string(), key_type }
}

fn index(name: &str) -> IndexDescription {
    IndexDescription {
        index_name: name.to_string(),
        key_schema: vec![key("customer", KeyType::Hash)],
        projection_type: "ALL".to_string(),
        non_key_attributes: vec![],
    }
}

fn repeating(table_name: &str) -> TableDescription {
    let attribute = |name: &str, letter: &str| AttributeDefinition {
        attribute_name: name.to_string(),
        attribute_type: letter.to_string(),
    };
    TableDescription {
        table_name: table_name.to_string(),
        attribute_definitions: vec![
            attribute("id", "S"),
            attribute("at", "N"),
            attribute("id", "N"),
            attribute("at", "N"),
        ],
        items: vec![
            vec![
                ("id".to_string(), AttributeKind::S),
                ("paid".to_string(), AttributeKind::Bool),
                ("paid".to_string(), AttributeKind::N),
            ],
            vec![("paid".to_string(), AttributeKind::S), ("at".to_string(), AttributeKind::Bool)],
        ],
        key_schema: vec![key("id", KeyType::Hash), key("at", KeyType::Range)],
        global_secondary_indexes: vec![index("ByCustomer"), index("ByDay"), index("ByCustomer")],
    }
}

#[test]
fn introspection_names_nothing_twice() {
    let metadata =
        introspect_metadata(&vec![repeating("Orders"), repeating("Users"), repeating("Orders")])
            .unwrap();
    assert!(well_formed(&metadata));
    let tables: Vec<&str> = metadata.tables.0.iter().map(|(name, _)| name.as_str()).collect();
    assert_eq!(tables, ["Orders", "Users"]);
    let orders = &metadata.tables.0[0].1;
    let columns: Vec<(&str, &Type)> =
        orders.columns.iter().map(|(name, column)| (name.as_str(), &column.type_)).collect();
    // What is seen last of a column stands in the place where it was seen first.
    assert_eq!(columns.len(), 3);
    assert_eq!(columns[0].0, "id");
    assert!(matches!(columns[0].1, Type::ScalarType(name) if name == "String"));
    assert_eq!(columns[1].0, "at");
    assert!(matches!(columns[1].1, Type::ScalarType(name) if name == "Boolean"));
    assert_eq!(columns[2].0, "paid");
    assert!(matches!(columns[2].1, Type::ScalarType(name) if name == "String"));
    let indexes: Vec<&str> = orders.gsi.0.iter().map(|(name, _)| name.as_str()).collect();
    assert_eq!(indexes, ["ByCustomer", "ByDay"]);
    let scalar_types: Vec<&str> =
        metadata.scalar_types.0.iter().map(|(name, _)| name.as_str()).collect();
    assert_eq!(scalar_types, ["String", "Number", "Boolean"]);
}

#[test]
fn a_table_names_no_column_twice() {
    let mut scalars = vec!["Number".to_string()];
    let table = introspect_table(&repeating("Orders"), &mut scalars).unwrap();
    assert!(no_name_twice(&table.columns));
    assert!(no_name_twice(&table.gsi.0));
    assert_eq!(scalars, ["Number", "String", "Boolean"]);
}

#[test]
fn operators_have_their_own_names() {
    for name in ["string", "text", "image", "Number", "ntext", "nvarchar", ""] {
        let operators = get_comparison_operators_for_type(&name.to_string());
        assert!(no_name_twice(&operators));
    }
    let names = |scalar_type: &str| -> Vec<String> {
        get_comparison_operators_for_type(&scalar_type.to_string())
            .into_iter()
            .map(|(name, _)| name)
            .collect()
    };
    assert_eq!(
        names("string"),
        ["_eq", "_in", "_like", "_nlike", "_neq", "_lt", "_gt", "_gte", "_lte"]
    );
    assert_eq!(names("text"), ["_eq", "_in", "_like", "_nlike"]);
    assert_eq!(names("image"), ["_eq", "_in"]);
}

#[test]
fn merged_tables_name_nothing_twice() {
    let table = |metadata: &Metadata, at: usize| {
        let (name, table) = &metadata.tables.0[at];
        (
            name.clone(),
            TableInfo {
                table_name: table.table_name.clone(),
                columns: vec![],
                partition_key: table.partition_key.clone(),
                sort_key: table.sort_key.clone(),
                gsi: GlobalSecondaryIndexes(vec![]),
                description: None,
            },
        )
    };
    let first = introspect_metadata(&vec![repeating("A"), repeating("B")]).unwrap();
    let second = introspect_metadata(&vec![repeating("C"), repeating("B")]).unwrap();
    let mut tables = TablesInfo(vec![table(&first, 0), table(&first, 1)]);
    tables.merge(TablesInfo(vec![table(&second, 0), table(&second, 1)]));
    assert!(no_name_twice(&tables.0));
    let names: Vec<&str> = tables.0.iter().map(|(name, _)| name.as_str()).collect();
    assert_eq!(names, ["A", "B", "C"]);
    assert!(well_formed(&Metadata::empty()));
    assert!(no_name_twice(&TablesInfo::empty().0));
    assert!(no_name_twice(&ScalarTypes::empty().0));
}

fn hop(relationship: &str) -> PathElement {
    PathElement { relationship: relationship.to_string(), arguments: vec![], predicate: None }
}

fn target(name: &str) -> ComparisonTarget {
    ComparisonTarget::Column { name: name.to_string(), path: vec![], field_path: None }
}

#[test]
fn paths_are_written_behind_their_lengths() {
    assert_eq!(write_path(&vec![]), "[0]");
    assert_eq!(write_path(&vec![hop("album")]), "[1]H5:album[0]-");
    assert_eq!(write_path(&vec![hop("a"), hop("")]), "[2]H1:a[0]-H0:[0]-");
    let with_arguments = PathElement {
        relationship: "album".to_string(),
        arguments: vec![
            ("x".to_string(), RelationshipArgument::Column { name: "c".to_string() }),
            ("yz".to_string(), RelationshipArgument::Variable { name: "v".to_string() }),
            (
                "w".to_string(),
                RelationshipArgument::Literal {
                    value: JsonValue::Array(vec![
                        JsonValue::Null,
                        JsonValue::Bool(true),
                        JsonValue::Number(JsonNumber::Integer(-12)),
                        JsonValue::String("s]".to_string()),
                    ]),
                },
            ),
        ],
        predicate: Some(Box::new(Expression::Not {
            expression: Box::new(Expression::And { expressions: vec![] }),
        })),
    };
    assert_eq!(
        write_path(&vec![with_arguments]),
        "[1]H5:album[3]1:xC1:c2:yzV1:v1:wLa[4]nti-12;s2:s]+NA[0]"
    );
    let with_comparison = PathElement {
        relationship: "r".to_string(),
        arguments: vec![],
        predicate: Some(Box::new(Expression::BinaryComparisonOperator {
            column: target("age"),
            operator: "_eq".to_string(),
            value: ComparisonValue::Scalar { value: JsonValue::Bool(false) },
        })),
    };
    assert_eq!(write_path(&vec![with_comparison]), "[1]H1:r[0]+Bc3:age[0]-3:_eqSf");
}

#[test]
fn names_do_not_run_into_each_other() {
    // The same letters, cut at another place.
    assert_ne!(write_path(&vec![hop("ab"), hop("c")]), write_path(&vec![hop("a"), hop("bc")]));
    assert_ne!(write_path(&vec![hop("a")]), write_path(&vec![hop("a"), hop("")]));
    assert_eq!(write_path(&vec![hop("a"), hop("b")]), write_path(&vec![hop("a"), hop("b")]));
}

fn column_on(name: &str, path: Vec<PathElement>) -> OrderByElement {
    OrderByElement {
        order_direction: OrderDirection::Asc,
        target: OrderByTarget::Column { name: name.to_string(), path, field_path: None },
    }
}

#[test]
fn keys_follow_the_paths() {
    let elements = vec![
        column_on("a", vec![hop("album")]),
        column_on("b", vec![]),
        column_on("c", vec![hop("album")]),
        column_on("d", vec![hop("artist")]),
        OrderByElement {
            order_direction: OrderDirection::Desc,
            target: OrderByTarget::StarCountAggregate { path: vec![hop("album")] },
        },
    ];
    let keys = path_keys(&elements);
    assert_eq!(keys.len(), 5);
    assert_eq!(keys[0], keys[2]);
    assert_eq!(keys[0], keys[4]);
    assert_ne!(keys[0], keys[1]);
    assert_ne!(keys[0], keys[3]);
    assert_ne!(keys[1], keys[3]);
    let mut groups = group_elements(&elements);
    groups.columns.sort();
    assert_eq!(groups.columns, vec![vec![0, 2], vec![1], vec![3]]);
    assert_eq!(groups.aggregates, vec![vec![4]]);
}

fn albums() -> Metadata {
    let column = |name: &str, scalar_type: &str| {
        (
            name.to_string(),
            ColumnInfo {
                name: name.to_string(),
                type_: Type::ScalarType(scalar_type.to_string()),
                nullable: Nullable::Nullable,
                description: None,
            },
        )
    };
    let member_of = |argument_type: &str| {
        (
            "_in".to_string(),
            ComparisonOperator {
                operator_name: "IN".to_string(),
                operator_kind: OperatorKind::In,
                argument_type: argument_type.to_string(),
                is_infix: true,
            },
        )
    };
    let scalar_type = |name: &str, argument_type: &str| {
        (
            name.to_string(),
            ScalarType {
                name: name.to_string(),
                description: None,
                comparison_operators: vec![member_of(argument_type)],
                type_representation: None,
            },
        )
    };
    Metadata {
        tables: TablesInfo(vec![(
            "Albums".to_string(),
            TableInfo {
                table_name: "albums".to_string(),
                columns: vec![
                    column("id", "Text"),
                    column("title", "Wide"),
                    column("year", "Odd"),
                ],
                partition_key: "id".to_string(),
                sort_key: "title".to_string(),
                gsi: GlobalSecondaryIndexes(vec![]),
                description: None,
            },
        )]),
        scalar_types: ScalarTypes(vec![
            scalar_type("Text", "Text"),
            scalar_type("Wide", "Text"),
            scalar_type("Odd", "Missing"),
        ]),
    }
}

fn albums_tables() -> RootAndCurrentTables {
    let table = || TableNameAndReference {
        name: "Albums".to_string(),
        reference: TableReference::AliasedTable(TableAlias {
            unique_index: 0,
            name: "Albums".to_string(),
        }),
    };
    RootAndCurrentTables { root_table: table(), current_table: table() }
}

fn member(column: &str, value: JsonValue) -> Expression {
    Expression::BinaryComparisonOperator {
        column: target(column),
        operator: "_in".to_string(),
        value: ComparisonValue::Scalar { value },
    }
}

#[test]
fn members_have_the_argument_type_of_the_operator() {
    let metadata = albums();
    let env = Env::new(&metadata);
    let mut state = State::new();
    let one = || JsonValue::Array(vec![JsonValue::Number(JsonNumber::Integer(1))]);
    let translated =
        translate_expression(&env, &mut state, &albums_tables(), &member("title", one())).unwrap();
    let mut sql = SQL::new();
    translated.to_sql(&mut sql);
    assert_eq!(sql.sql, "(\"title\" IN (1))");
    // The type of the column is known, the argument type of its operator is not.
    assert!(matches!(
        translate_expression(&env, &mut state, &albums_tables(), &member("year", one())),
        Err(Error::ScalarTypeNotFound(name)) if name == "Missing"
    ));
    // What is no list is held against the argument type.
    assert!(matches!(
        translate_expression(&env, &mut state, &albums_tables(), &member("title", JsonValue::Null)),
        Err(Error::TypeMismatch(JsonValue::Null, expected)) if expected == "Text"
    ));
    assert!(matches!(
        translate_expression(&env, &mut state, &albums_tables(), &member("year", JsonValue::Null)),
        Err(Error::TypeMismatch(JsonValue::Null, expected)) if expected == "Missing"
    ));
    // Nothing is a member of the empty list, whatever its type.
    let translated = translate_expression(
        &env,
        &mut state,
        &albums_tables(),
        &member("year", JsonValue::Array(vec![])),
    )
    .unwrap();
    let mut sql = SQL::new();
    translated.to_sql(&mut sql);
    assert_eq!(sql.sql, "false");
    assert_eq!(state.global_table_index.0, 0);
}

#[test]
fn an_alias_that_is_handed_in_is_not_supported() {
    let metadata = albums();
    let env = Env::new(&metadata);
    let mut state = State::new();
    let alias = TableAlias { unique_index: 7, name: "mine".to_string() };
    let result = make_from_clause_and_reference(
        &"Albums".to_string(),
        None,
        &env,
        &mut state,
        Some(alias),
    );
    assert!(matches!(
        result,
        Err(Error::CapabilityNotSupported(UnsupportedCapabilities::CollectionAliases))
    ));
    // No alias was drawn.
    assert_eq!(state.global_table_index.0, 0);
    let alias = TableAlias { unique_index: 7, name: "mine".to_string() };
    assert!(matches!(
        make_from_clause_and_reference(
            &"Nowhere".to_string(),
            Some(Gsi("ByYear".to_string())),
            &env,
            &mut state,
            Some(alias)
        ),
        Err(Error::CapabilityNotSupported(UnsupportedCapabilities::CollectionAliases))
    ));
    assert_eq!(
        Error::CapabilityNotSupported(UnsupportedCapabilities::CollectionAliases).message(),
        "Collection aliases are not supported."
    );
    assert_eq!(UnsupportedCapabilities::CollectionAliases.text(), "Collection aliases");
    // Without an alias one is drawn, and the table is addressed by it.
    let (table, from) =
        make_from_clause_and_reference(&"Albums".to_string(), None, &env, &mut state, None)
            .unwrap();
    assert_eq!(state.global_table_index.0, 1);
    assert_eq!(table.name, "Albums");
    let mut sql = SQL::new();
    from.to_sql(&mut sql);
    assert_eq!(sql.sql, "FROM \"albums\"");
}

#[test]
fn every_member_of_a_group_is_asked_for_its_path() {
    let metadata = albums();
    let env = Env::new(&metadata);
    let mut state = State::new();
    let elements = vec![column_on("id", vec![]), column_on("title", vec![hop("artist")])];
    // A sort key through a relationship is refused wherever it stands.
    for columns in [vec![vec![0, 1]], vec![vec![1, 0]], vec![vec![0], vec![1]], vec![vec![1], vec![0]]] {
        let groups = OrderByElementGroups { columns, aggregates: vec![] };
        assert!(matches!(
            translate_order_by_groups(&env, &mut state, &albums_tables(), &elements, &groups),
            Err(Error::CapabilityNotSupported(UnsupportedCapabilities::Relationships))
        ));
    }
    let order_by = Some(ndc_dynamodb::models::OrderBy { elements });
    assert!(matches!(
        translate_order_by(&env, &mut state, &albums_tables(), &order_by),
        Err(Error::CapabilityNotSupported(UnsupportedCapabilities::Relationships))
    ));
    assert_eq!(state.global_table_index.0, 0);
}
