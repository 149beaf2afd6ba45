use ndc_dynamodb::configuration::Configuration;
use ndc_dynamodb::metadata::database::{
    ColumnInfo, ComparisonOperator, GlobalSecondaryIndexes, Nullable, OperatorKind, ScalarType,
    ScalarTypes, TableInfo, TablesInfo, Type, TypeRepresentation,
};
use ndc_dynamodb::metadata::Metadata;
use ndc_dynamodb::schema::{
    column_to_type, get_schema, type_to_type, ComparisonOperatorDefinition, SchemaType,
    SchemaTypeRepresentation,
};

fn configuration(metadata: Metadata) -> Configuration {
    Configuration {
        metadata,
        access_key_id: "id".to_string(),
        secret_access_key: "secret".to_string(),
        url: None,
        region: "region".to_string(),
    }
}

fn scalar_type(representation: Option<TypeRepresentation>) -> ScalarType {
    ScalarType {
        name: "T".to_string(),
        description: None,
        comparison_operators: vec![],
        type_representation: representation,
    }
}

fn represented(representation: TypeRepresentation) -> SchemaTypeRepresentation {
    let schema = get_schema(&configuration(Metadata {
        tables: TablesInfo(vec![]),
        scalar_types: ScalarTypes(vec![("T".to_string(), scalar_type(Some(representation)))]),
    }));
    schema.scalar_types.into_iter().next().unwrap().1.representation.unwrap()
}

#[test]
fn types_map_to_schema_types() {
    let scalar = Type::ScalarType("Number".to_string());
    assert!(matches!(type_to_type(&scalar), SchemaType::Named { name } if name == "Number"));
    let nested = Type::ArrayType(Box::new(Type::ArrayType(Box::new(scalar))));
    match type_to_type(&nested) {
        SchemaType::Array { element_type } => match *element_type {
            SchemaType::Array { element_type } => {
                assert!(matches!(*element_type, SchemaType::Named { name } if name == "Number"));
            }
            other => panic!("an array is expected, not {other:?}"),
        },
        other => panic!("an array is expected, not {other:?}"),
    }
}

#[test]
fn nullable_columns_have_nullable_types() {
    let column = |nullable: Nullable| ColumnInfo {
        name: "c".to_string(),
        type_: Type::ScalarType("String".to_string()),
        nullable,
        description: None,
    };
    assert!(matches!(
        column_to_type(&column(Nullable::NonNullable)),
        SchemaType::Named { name } if name == "String"
    ));
    match column_to_type(&column(Nullable::Nullable)) {
        SchemaType::Nullable { underlying_type } => {
            assert!(matches!(*underlying_type, SchemaType::Named { name } if name == "String"));
        }
        other => panic!("a nullable type is expected, not {other:?}"),
    }
}

#[test]
fn representations_map_to_schema_representations() {
    assert!(matches!(represented(TypeRepresentation::Boolean), SchemaTypeRepresentation::Boolean));
    assert!(matches!(represented(TypeRepresentation::String), SchemaTypeRepresentation::String));
    assert!(matches!(represented(TypeRepresentation::Float32), SchemaTypeRepresentation::Float32));
    assert!(matches!(represented(TypeRepresentation::Float64), SchemaTypeRepresentation::Float64));
    assert!(matches!(represented(TypeRepresentation::Int16), SchemaTypeRepresentation::Int16));
    assert!(matches!(represented(TypeRepresentation::Int32), SchemaTypeRepresentation::Int32));
    assert!(matches!(represented(TypeRepresentation::Int64), SchemaTypeRepresentation::JSON));
    assert!(matches!(represented(TypeRepresentation::Int64AsString), SchemaTypeRepresentation::Int64));
    assert!(matches!(represented(TypeRepresentation::BigDecimal), SchemaTypeRepresentation::JSON));
    assert!(matches!(represented(TypeRepresentation::BigDecimalAsString), SchemaTypeRepresentation::BigDecimal));
    assert!(matches!(represented(TypeRepresentation::Timestamp), SchemaTypeRepresentation::Timestamp));
    assert!(matches!(represented(TypeRepresentation::Timestamptz), SchemaTypeRepresentation::TimestampTZ));
    assert!(matches!(represented(TypeRepresentation::Time), SchemaTypeRepresentation::String));
    assert!(matches!(represented(TypeRepresentation::Timetz), SchemaTypeRepresentation::String));
    assert!(matches!(represented(TypeRepresentation::Date), SchemaTypeRepresentation::Date));
    assert!(matches!(represented(TypeRepresentation::UUID), SchemaTypeRepresentation::UUID));
    assert!(matches!(represented(TypeRepresentation::Geography), SchemaTypeRepresentation::Geography));
    assert!(matches!(represented(TypeRepresentation::Geometry), SchemaTypeRepresentation::Geometry));
    assert!(matches!(represented(TypeRepresentation::Json), SchemaTypeRepresentation::JSON));
    assert!(matches!(
        represented(TypeRepresentation::Enum(vec!["a".to_string(), "b".to_string()])),
        SchemaTypeRepresentation::Enum { one_of } if one_of == ["a", "b"]
    ));
}

#[test]
fn schema_lists_collections_and_types() {
    let operator = |kind: OperatorKind| ComparisonOperator {
        operator_name: "op".to_string(),
        operator_kind: kind,
        argument_type: "Other".to_string(),
        is_infix: true,
    };
    let metadata = Metadata {
        tables: TablesInfo(vec![
            (
                "Users".to_string(),
                TableInfo {
                    table_name: "users".to_string(),
                    columns: vec![
                        (
                            "id".to_string(),
                            ColumnInfo {
                                name: "ID".to_string(),
                                type_: Type::ScalarType("String".to_string()),
                                nullable: Nullable::NonNullable,
                                description: Some("the key".to_string()),
                            },
                        ),
                        (
                            "tags".to_string(),
                            ColumnInfo {
                                name: "tags".to_string(),
                                type_: Type::ArrayType(Box::new(Type::ScalarType(
                                    "String".to_string(),
                                ))),
                                nullable: Nullable::Nullable,
                                description: None,
                            },
                        ),
                    ],
                    partition_key: "id".to_string(),
                    sort_key: "id".to_string(),
                    gsi: GlobalSecondaryIndexes(vec![]),
                    description: Some("people".to_string()),
                },
            ),
            (
                "Orders".to_string(),
                TableInfo {
                    table_name: "orders".to_string(),
                    columns: vec![],
                    partition_key: "id".to_string(),
                    sort_key: "id".to_string(),
                    gsi: GlobalSecondaryIndexes(vec![]),
                    description: None,
                },
            ),
        ]),
        scalar_types: ScalarTypes(vec![(
            "String".to_string(),
            ScalarType {
                name: "String".to_string(),
                description: None,
                comparison_operators: vec![
                    ("_eq".to_string(), operator(OperatorKind::Equal)),
                    ("_in".to_string(), operator(OperatorKind::In)),
                    ("_like".to_string(), operator(OperatorKind::Custom)),
                ],
                type_representation: None,
            },
        )]),
    };
    let schema = get_schema(&configuration(metadata));
    assert_eq!(schema.collections.len(), 2);
    assert_eq!(schema.collections[0].name, "Users");
    assert_eq!(schema.collections[0].collection_type, "Users");
    assert_eq!(schema.collections[0].description, Some("people".to_string()));
    assert_eq!(schema.collections[1].name, "Orders");
    assert_eq!(schema.collections[1].description, None);
    assert_eq!(schema.object_types.len(), 2);
    assert_eq!(schema.object_types[0].0, "Users");
    assert_eq!(schema.object_types[0].1.description, Some("people".to_string()));
    let fields = &schema.object_types[0].1.fields;
    assert_eq!(fields.len(), 2);
    assert_eq!(fields[0].0, "id");
    assert_eq!(fields[0].1.description, Some("the key".to_string()));
    assert!(matches!(&fields[0].1.type_, SchemaType::Named { name } if name == "String"));
    assert_eq!(fields[1].0, "tags");
    match &fields[1].1.type_ {
        SchemaType::Nullable { underlying_type } => {
            assert!(matches!(&**underlying_type, SchemaType::Array { .. }));
        }
        other => panic!("a nullable type is expected, not {other:?}"),
    }
    assert!(schema.object_types[1].1.fields.is_empty());
    assert_eq!(schema.scalar_types.len(), 1);
    assert_eq!(schema.scalar_types[0].0, "String");
    assert!(schema.scalar_types[0].1.representation.is_none());
    let operators = &schema.scalar_types[0].1.comparison_operators;
    assert_eq!(operators.len(), 3);
    assert_eq!(operators[0].0, "_eq");
    assert!(matches!(operators[0].1, ComparisonOperatorDefinition::Equal));
    assert!(matches!(operators[1].1, ComparisonOperatorDefinition::In));
    assert!(matches!(
        &operators[2].1,
        ComparisonOperatorDefinition::Custom { argument_type: SchemaType::Named { name } }
            if name == "Other"
    ));
    let empty = get_schema(&configuration(Metadata::empty()));
    assert!(empty.collections.is_empty());
    assert!(empty.object_types.is_empty());
    assert!(empty.scalar_types.is_empty());
}
