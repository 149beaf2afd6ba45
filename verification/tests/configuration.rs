use ndc_dynamodb::configuration::connection_settings::{
    DatabaseConnectionSettings, DEFAULT_ACCESS_KEY_ID_VARIABLE, DEFAULT_REGION_VARIABLE,
    DEFAULT_SECRET_ACCESS_KEY_VARIABLE, DEFAULT_URL_VARIABLE,
};
use ndc_dynamodb::configuration::environment::{
    EmptyEnvironment, Environment, Error, FixedEnvironment, Variable,
};
use ndc_dynamodb::configuration::error::MakeRuntimeConfigurationError;
use ndc_dynamodb::configuration::to_runtime_configuration::{
    convert_metadata, convert_tables, make_runtime_configuration,
};
use ndc_dynamodb::configuration::values::{
    AccessKeyId, ProviderName, Region, Secret, SecretAccessKey, Url,
};
use ndc_dynamodb::configuration::version1::{
    add_name, get_comparison_operators_for_type, introspect_metadata, introspect_table, key_name,
    scalar_type_of_attribute, scalar_type_of_sample, AttributeDefinition, AttributeKind,
    IndexDescription, KeySchemaElement, KeyType, ParsedConfiguration, TableDescription,
    CURRENT_VERSION,
};
use ndc_dynamodb::metadata::database::{
    ColumnInfo, GlobalSecondaryIndexes, Nullable, OperatorKind, ScalarType, ScalarTypes,
    TableInfo, TablesInfo, Type, TypeRepresentation,
};
use ndc_dynamodb::metadata::Metadata;

fn variable_of(secret: &Secret) -> String {
    match secret {
        Secret::FromEnvironment { variable } => variable.0.clone(),
        Secret::Plain(value) => panic!("the secret {value} is written out"),
    }
}

fn environment(variables: &[(&str, &str)]) -> FixedEnvironment {
    FixedEnvironment::new(
        variables.iter().map(|(name, value)| (name.to_string(), value.to_string())).collect(),
    )
}

fn key(name: &str, key_type: KeyType) -> KeySchemaElement {
    KeySchemaElement { attribute_name: name.to_string(), key_type }
}

fn description() -> TableDescription {
    TableDescription {
        table_name: "Orders".to_string(),
        attribute_definitions: vec![
            AttributeDefinition { attribute_name: "id".to_string(), attribute_type: "S".to_string() },
            AttributeDefinition { attribute_name: "at".to_string(), attribute_type: "N".to_string() },
            AttributeDefinition { attribute_name: "raw".to_string(), attribute_type: "B".to_string() },
            AttributeDefinition { attribute_name: "etc".to_string(), attribute_type: "X".to_string() },
        ],
        items: vec![
            vec![
                ("id".to_string(), AttributeKind::S),
                ("paid".to_string(), AttributeKind::Bool),
                ("notes".to_string(), AttributeKind::Other),
            ],
            vec![("at".to_string(), AttributeKind::S), ("total".to_string(), AttributeKind::N)],
        ],
        key_schema: vec![key("id", KeyType::Hash), key("at", KeyType::Range)],
        global_secondary_indexes: vec![IndexDescription {
            index_name: "ByCustomer".to_string(),
            key_schema: vec![key("customer", KeyType::Hash)],
            projection_type: "ALL".to_string(),
            non_key_attributes: vec!["total".to_string()],
        }],
    }
}

#[test]
fn empty_settings_read_the_environment() {
    let settings = DatabaseConnectionSettings::empty();
    assert_eq!(variable_of(&settings.access_key_id.0), "HASURA_DYNAMODB_AWS_ACCESS_KEY_ID");
    assert_eq!(variable_of(&settings.secret_access_key.0), "HASURA_DYNAMODB_AWS_SECRET_ACCESS_KEY");
    assert_eq!(variable_of(&settings.url.0), "HASURA_DYNAMODB_URL");
    assert_eq!(variable_of(&settings.region.0), "HASURA_DYNAMODB_AWS_REGION");
    assert_eq!(DEFAULT_ACCESS_KEY_ID_VARIABLE, "HASURA_DYNAMODB_AWS_ACCESS_KEY_ID");
    assert_eq!(DEFAULT_SECRET_ACCESS_KEY_VARIABLE, "HASURA_DYNAMODB_AWS_SECRET_ACCESS_KEY");
    assert_eq!(DEFAULT_URL_VARIABLE, "HASURA_DYNAMODB_URL");
    assert_eq!(DEFAULT_REGION_VARIABLE, "HASURA_DYNAMODB_AWS_REGION");
}

#[test]
fn secrets_are_made_from_text() {
    assert!(matches!(AccessKeyId::from("a".to_string()).0, Secret::Plain(value) if value == "a"));
    assert!(matches!(SecretAccessKey::from("b".to_string()).0, Secret::Plain(value) if value == "b"));
    assert!(matches!(ProviderName::from("c".to_string()).0, Secret::Plain(value) if value == "c"));
    assert!(matches!(Region::from("d".to_string()).0, Secret::Plain(value) if value == "d"));
    assert!(matches!(Url::from("e".to_string()).0, Secret::Plain(value) if value == "e"));
    assert!(matches!(Secret::plain("f"), Secret::Plain(value) if value == "f"));
    assert_eq!(variable_of(&Secret::from_environment("V")), "V");
}

#[test]
fn empty_configuration_has_current_version() {
    let configuration = ParsedConfiguration::empty();
    assert_eq!(configuration.version, CURRENT_VERSION);
    assert_eq!(configuration.version, 1);
    assert!(configuration.metadata.tables.0.is_empty());
    assert!(configuration.metadata.scalar_types.0.is_empty());
    let initial = ParsedConfiguration::initial();
    assert_eq!(initial.version, 1);
    assert!(initial.metadata.tables.0.is_empty());
}

#[test]
fn environments_read_variables() {
    let fixed = environment(&[("A", "1"), ("B", "2"), ("A", "3")]);
    assert_eq!(fixed.read(&Variable::new("A".to_string())).unwrap(), "1");
    assert_eq!(fixed.read(&Variable::new("B".to_string())).unwrap(), "2");
    assert!(matches!(
        fixed.read(&Variable::new("C".to_string())),
        Err(Error::VariableNotPresent(variable)) if variable.0 == "C"
    ));
    assert!(matches!(
        EmptyEnvironment.read(&Variable::new("A".to_string())),
        Err(Error::VariableNotPresent(variable)) if variable.0 == "A"
    ));
    assert_eq!(
        Error::VariableNotPresent(Variable::new("A".to_string())).message(),
        "missing environment variable: A"
    );
    assert_eq!(
        Error::NonUnicodeValue("x".to_string()).message(),
        "value is not valid unicode: x"
    );
}

#[test]
fn runtime_configuration_resolves_secrets() {
    let mut parsed = ParsedConfiguration::empty();
    parsed.connection_settings.access_key_id = AccessKeyId::from("key".to_string());
    let configuration = make_runtime_configuration(
        parsed,
        environment(&[
            ("HASURA_DYNAMODB_AWS_SECRET_ACCESS_KEY", "secret"),
            ("HASURA_DYNAMODB_AWS_REGION", "eu-west-1"),
            ("HASURA_DYNAMODB_AWS_ACCESS_KEY_ID", "other"),
        ]),
    )
    .unwrap();
    assert_eq!(configuration.access_key_id, "key");
    assert_eq!(configuration.secret_access_key, "secret");
    assert_eq!(configuration.region, "eu-west-1");
    assert_eq!(configuration.url, None);
    let configuration = make_runtime_configuration(
        ParsedConfiguration::empty(),
        environment(&[
            ("HASURA_DYNAMODB_AWS_SECRET_ACCESS_KEY", "secret"),
            ("HASURA_DYNAMODB_AWS_REGION", "eu-west-1"),
            ("HASURA_DYNAMODB_AWS_ACCESS_KEY_ID", "id"),
            ("HASURA_DYNAMODB_URL", "http://localhost:8000"),
        ]),
    )
    .unwrap();
    assert_eq!(configuration.access_key_id, "id");
    assert_eq!(configuration.url, Some("http://localhost:8000".to_string()));
}

#[test]
fn missing_variable_is_reported() {
    let error = make_runtime_configuration(ParsedConfiguration::empty(), EmptyEnvironment).unwrap_err();
    let MakeRuntimeConfigurationError::MissingEnvironmentVariable { file_path, message } = error;
    assert_eq!(file_path, "configuration.json");
    assert_eq!(message, "missing environment variable: HASURA_DYNAMODB_AWS_ACCESS_KEY_ID");
    // The first secret that cannot be resolved gives the error.
    let error = make_runtime_configuration(
        ParsedConfiguration::empty(),
        environment(&[("HASURA_DYNAMODB_AWS_ACCESS_KEY_ID", "id")]),
    )
    .unwrap_err();
    let MakeRuntimeConfigurationError::MissingEnvironmentVariable { message, .. } = error;
    assert_eq!(message, "missing environment variable: HASURA_DYNAMODB_AWS_SECRET_ACCESS_KEY");
}

#[test]
fn metadata_is_taken_over() {
    let metadata = Metadata {
        tables: TablesInfo(vec![(
            "T".to_string(),
            TableInfo {
                table_name: "t".to_string(),
                columns: vec![
                    (
                        "a".to_string(),
                        ColumnInfo {
                            name: "a".to_string(),
                            type_: Type::ArrayType(Box::new(Type::ScalarType("S".to_string()))),
                            nullable: Nullable::NonNullable,
                            description: Some("first".to_string()),
                        },
                    ),
                    (
                        "b".to_string(),
                        ColumnInfo {
                            name: "b".to_string(),
                            type_: Type::ScalarType("N".to_string()),
                            nullable: Nullable::Nullable,
                            description: None,
                        },
                    ),
                ],
                partition_key: "a".to_string(),
                sort_key: "b".to_string(),
                gsi: GlobalSecondaryIndexes(vec![]),
                description: None,
            },
        )]),
        scalar_types: ScalarTypes(vec![
            (
                "S".to_string(),
                ScalarType {
                    name: "S".to_string(),
                    description: None,
                    comparison_operators: get_comparison_operators_for_type(&"S".to_string()),
                    type_representation: Some(TypeRepresentation::Enum(vec!["x".to_string()])),
                },
            ),
            (
                "N".to_string(),
                ScalarType {
                    name: "N".to_string(),
                    description: Some("numbers".to_string()),
                    comparison_operators: vec![],
                    type_representation: None,
                },
            ),
        ]),
    };
    let expected = format!("{metadata:?}");
    assert_eq!(format!("{:?}", convert_metadata(metadata.clone())), expected);
    assert_eq!(
        format!("{:?}", convert_tables(metadata.tables.clone())),
        format!("{:?}", metadata.tables)
    );
}

#[test]
fn comparison_operators_follow_the_type() {
    let names = |scalar_type: &str| -> Vec<String> {
        get_comparison_operators_for_type(&scalar_type.to_string())
            .into_iter()
            .map(|(name, _)| name)
            .collect()
    };
    assert_eq!(names("Number"), ["_eq", "_in", "_neq", "_lt", "_gt", "_gte", "_lte"]);
    assert_eq!(
        names("string"),
        ["_eq", "_in", "_like", "_nlike", "_neq", "_lt", "_gt", "_gte", "_lte"]
    );
    assert_eq!(names("text"), ["_eq", "_in", "_like", "_nlike"]);
    assert_eq!(names("ntext"), ["_eq", "_in", "_like", "_nlike"]);
    assert_eq!(names("image"), ["_eq", "_in"]);
    assert_eq!(names("nvarchar").len(), 9);
    assert_eq!(names("nchar").len(), 9);
    assert_eq!(names("character").len(), 9);
    // The names of the types are told apart by case.
    assert_eq!(names("String").len(), 7);
    let operators = get_comparison_operators_for_type(&"string".to_string());
    let tokens: Vec<&str> =
        operators.iter().map(|(_, operator)| operator.operator_name.as_str()).collect();
    assert_eq!(tokens, ["=", "IN", "LIKE", "NOT LIKE", "!=", "<", ">", ">=", "<="]);
    assert_eq!(operators[0].1.operator_kind, OperatorKind::Equal);
    assert_eq!(operators[1].1.operator_kind, OperatorKind::In);
    for (_, operator) in &operators[2..] {
        assert_eq!(operator.operator_kind, OperatorKind::Custom);
    }
    for (_, operator) in &operators {
        assert!(operator.is_infix);
        assert_eq!(operator.argument_type, "string");
    }
}

#[test]
fn attribute_types_give_scalar_types() {
    assert_eq!(scalar_type_of_attribute(&"S".to_string()), "String");
    assert_eq!(scalar_type_of_attribute(&"N".to_string()), "Number");
    assert_eq!(scalar_type_of_attribute(&"B".to_string()), "Binary");
    assert_eq!(scalar_type_of_attribute(&"SS".to_string()), "Any");
    assert_eq!(scalar_type_of_attribute(&"".to_string()), "Any");
    assert_eq!(scalar_type_of_sample(AttributeKind::S), "String");
    assert_eq!(scalar_type_of_sample(AttributeKind::N), "Number");
    assert_eq!(scalar_type_of_sample(AttributeKind::Bool), "Boolean");
    assert_eq!(scalar_type_of_sample(AttributeKind::Other), "Any");
}

#[test]
fn last_key_of_a_kind_is_the_key() {
    let schema = vec![
        key("a", KeyType::Hash),
        key("b", KeyType::Range),
        key("c", KeyType::Other),
        key("d", KeyType::Hash),
    ];
    assert_eq!(key_name(&schema, KeyType::Hash), Some("d".to_string()));
    assert_eq!(key_name(&schema, KeyType::Range), Some("b".to_string()));
    assert_eq!(key_name(&vec![], KeyType::Hash), None);
    assert_eq!(key_name(&vec![key("a", KeyType::Hash)], KeyType::Range), None);
}

#[test]
fn names_are_noted_once() {
    let mut names = vec![];
    add_name(&mut names, "b".to_string());
    add_name(&mut names, "a".to_string());
    add_name(&mut names, "b".to_string());
    assert_eq!(names, ["b", "a"]);
}

#[test]
fn table_is_introspected() {
    let mut scalars = vec!["Number".to_string()];
    let table = introspect_table(&description(), &mut scalars).unwrap();
    assert_eq!(table.table_name, "Orders");
    assert_eq!(table.partition_key, "id");
    assert_eq!(table.sort_key, "at");
    assert_eq!(table.description, None);
    let columns: Vec<(String, String)> = table
        .columns
        .iter()
        .map(|(name, column)| {
            assert_eq!(&column.name, name);
            assert_eq!(column.nullable, Nullable::Nullable);
            assert_eq!(column.description, None);
            match &column.type_ {
                Type::ScalarType(scalar_type) => (name.clone(), scalar_type.clone()),
                Type::ArrayType(_) => panic!("introspection finds no arrays"),
            }
        })
        .collect();
    let expected = [
        ("id", "String"),
        ("at", "String"),
        ("raw", "Binary"),
        ("etc", "Any"),
        ("paid", "Boolean"),
        ("notes", "Any"),
        ("total", "Number"),
    ];
    assert_eq!(columns.len(), expected.len());
    for ((name, scalar_type), (expected_name, expected_type)) in columns.iter().zip(expected) {
        assert_eq!(name, expected_name);
        assert_eq!(scalar_type, expected_type);
    }
    // A sample value of a kind that is not known notes no scalar type.
    assert_eq!(scalars, ["Number", "String", "Binary", "Any", "Boolean"]);
    assert_eq!(table.gsi.0.len(), 1);
    assert_eq!(table.gsi.0[0].0, "ByCustomer");
    assert_eq!(table.gsi.0[0].1.partition_key, "customer");
    assert_eq!(table.gsi.0[0].1.sort_key, None);
    assert_eq!(table.gsi.0[0].1.projection_type.projection_type, "ALL");
    assert_eq!(table.gsi.0[0].1.projection_type.non_key_attributes, ["total"]);
}

#[test]
fn table_without_keys_gives_nothing() {
    let mut without_sort_key = description();
    without_sort_key.key_schema = vec![key("id", KeyType::Hash)];
    assert!(introspect_table(&without_sort_key, &mut vec![]).is_none());
    let mut without_partition_key = description();
    without_partition_key.key_schema = vec![key("at", KeyType::Range)];
    assert!(introspect_table(&without_partition_key, &mut vec![]).is_none());
    let mut without_index_key = description();
    without_index_key.global_secondary_indexes[0].key_schema = vec![key("at", KeyType::Range)];
    assert!(introspect_table(&without_index_key, &mut vec![]).is_none());
    assert!(introspect_metadata(&vec![description(), without_index_key]).is_none());
}

#[test]
fn metadata_is_introspected() {
    let mut second = description();
    second.table_name = "Users".to_string();
    second.items = vec![];
    let mut again = description();
    again.attribute_definitions = vec![];
    again.items = vec![];
    let metadata = introspect_metadata(&vec![description(), second, again]).unwrap();
    let tables: Vec<(&str, usize)> = metadata
        .tables
        .0
        .iter()
        .map(|(name, table)| (name.as_str(), table.columns.len()))
        .collect();
    // A table that is described again takes the place of the first.
    assert_eq!(tables, [("Orders", 0), ("Users", 4)]);
    let scalar_types: Vec<&str> =
        metadata.scalar_types.0.iter().map(|(name, _)| name.as_str()).collect();
    assert_eq!(scalar_types, ["String", "Number", "Binary", "Any", "Boolean"]);
    for (name, scalar_type) in &metadata.scalar_types.0 {
        assert_eq!(&scalar_type.name, name);
        assert_eq!(scalar_type.description, None);
        assert!(scalar_type.type_representation.is_none());
        assert_eq!(scalar_type.comparison_operators.len(), 7);
    }
    let empty = introspect_metadata(&vec![]).unwrap();
    assert!(empty.tables.0.is_empty());
    assert!(empty.scalar_types.0.is_empty());
}

#[test]
fn secrets_are_resolved() {
    let variables = environment(&[("A", "1")]);
    assert_eq!(
        ndc_dynamodb::configuration::to_runtime_configuration::resolve_secret(
            Secret::plain("p"),
            &variables
        )
        .unwrap(),
        "p"
    );
    assert_eq!(
        ndc_dynamodb::configuration::to_runtime_configuration::resolve_secret(
            Secret::from_environment("A"),
            &variables
        )
        .unwrap(),
        "1"
    );
    assert!(ndc_dynamodb::configuration::to_runtime_configuration::resolve_secret(
        Secret::from_environment("B"),
        &variables
    )
    .is_err());
}
