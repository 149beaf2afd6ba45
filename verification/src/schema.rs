//! The schema that the connector reports: its collections, the types of
//! their rows, and the scalar types with their comparison operators.

use crate::configuration::Configuration;
use crate::metadata::database::{
    optional_text, ColumnInfo, ColumnInfoView, ComparisonOperator, ComparisonOperatorView,
    Nullable, OperatorKind, ScalarType, ScalarTypeInfoView, TableInfo, TableInfoView, Type,
    TypeRepresentation, TypeRepresentationView, TypeView,
};
use crate::metadata::MetadataView;
use vstd::prelude::*;

verus! {

/// The type of a field, as the schema gives it.
#[derive(Debug)]
pub enum SchemaType {
    Named { name: String },
    Nullable { underlying_type: Box<SchemaType> },
    Array { element_type: Box<SchemaType> },
}

pub enum SchemaTypeView {
    Named { name: Seq<char> },
    Nullable { underlying_type: Box<SchemaTypeView> },
    Array { element_type: Box<SchemaTypeView> },
}

/// The model of a type of the schema.
pub open spec fn schema_type_view(t: SchemaType) -> SchemaTypeView
    decreases t,
{
    match t {
        SchemaType::Named { name } => SchemaTypeView::Named { name: name@ },
        SchemaType::Nullable { underlying_type } => SchemaTypeView::Nullable {
            underlying_type: Box::new(schema_type_view(*underlying_type)),
        },
        SchemaType::Array { element_type } => SchemaTypeView::Array {
            element_type: Box::new(schema_type_view(*element_type)),
        },
    }
}

impl View for SchemaType {
    type V = SchemaTypeView;

    open spec fn view(&self) -> SchemaTypeView {
        schema_type_view(*self)
    }
}

/// How the values of a scalar type are written, as the schema gives it.
#[derive(Debug)]
pub enum SchemaTypeRepresentation {
    Boolean,
    String,
    Int16,
    Int32,
    Int64,
    Float32,
    Float64,
    BigDecimal,
    UUID,
    Date,
    Timestamp,
    TimestampTZ,
    Geography,
    Geometry,
    JSON,
    Enum { one_of: Vec<String> },
}

pub enum SchemaTypeRepresentationView {
    Boolean,
    String,
    Int16,
    Int32,
    Int64,
    Float32,
    Float64,
    BigDecimal,
    UUID,
    Date,
    Timestamp,
    TimestampTZ,
    Geography,
    Geometry,
    JSON,
    Enum { one_of: Seq<Seq<char>> },
}

impl View for SchemaTypeRepresentation {
    type V = SchemaTypeRepresentationView;

    open spec fn view(&self) -> SchemaTypeRepresentationView {
        match self {
            SchemaTypeRepresentation::Boolean => SchemaTypeRepresentationView::Boolean,
            SchemaTypeRepresentation::String => SchemaTypeRepresentationView::String,
            SchemaTypeRepresentation::Int16 => SchemaTypeRepresentationView::Int16,
            SchemaTypeRepresentation::Int32 => SchemaTypeRepresentationView::Int32,
            SchemaTypeRepresentation::Int64 => SchemaTypeRepresentationView::Int64,
            SchemaTypeRepresentation::Float32 => SchemaTypeRepresentationView::Float32,
            SchemaTypeRepresentation::Float64 => SchemaTypeRepresentationView::Float64,
            SchemaTypeRepresentation::BigDecimal => SchemaTypeRepresentationView::BigDecimal,
            SchemaTypeRepresentation::UUID => SchemaTypeRepresentationView::UUID,
            SchemaTypeRepresentation::Date => SchemaTypeRepresentationView::Date,
            SchemaTypeRepresentation::Timestamp => SchemaTypeRepresentationView::Timestamp,
            SchemaTypeRepresentation::TimestampTZ => SchemaTypeRepresentationView::TimestampTZ,
            SchemaTypeRepresentation::Geography => SchemaTypeRepresentationView::Geography,
            SchemaTypeRepresentation::Geometry => SchemaTypeRepresentationView::Geometry,
            SchemaTypeRepresentation::JSON => SchemaTypeRepresentationView::JSON,
            SchemaTypeRepresentation::Enum { one_of } => SchemaTypeRepresentationView::Enum {
                one_of: one_of@.map_values(|v: String| v@),
            },
        }
    }
}

/// What a comparison operator is, as the schema gives it.
#[derive(Debug)]
pub enum ComparisonOperatorDefinition {
    Equal,
    In,
    Custom { argument_type: SchemaType },
}

pub enum ComparisonOperatorDefinitionView {
    Equal,
    In,
    Custom { argument_type: SchemaTypeView },
}

impl View for ComparisonOperatorDefinition {
    type V = ComparisonOperatorDefinitionView;

    open spec fn view(&self) -> ComparisonOperatorDefinitionView {
        match self {
            ComparisonOperatorDefinition::Equal => ComparisonOperatorDefinitionView::Equal,
            ComparisonOperatorDefinition::In => ComparisonOperatorDefinitionView::In,
            ComparisonOperatorDefinition::Custom {
                argument_type,
            } => ComparisonOperatorDefinitionView::Custom { argument_type: argument_type@ },
        }
    }
}

/// A scalar type of the schema.
#[derive(Debug)]
pub struct ScalarTypeSchema {
    pub representation: Option<SchemaTypeRepresentation>,
    pub comparison_operators: Vec<(String, ComparisonOperatorDefinition)>,
}

pub struct ScalarTypeSchemaView {
    pub representation: Option<SchemaTypeRepresentationView>,
    pub comparison_operators: Seq<(Seq<char>, ComparisonOperatorDefinitionView)>,
}

impl View for ScalarTypeSchema {
    type V = ScalarTypeSchemaView;

    open spec fn view(&self) -> ScalarTypeSchemaView {
        ScalarTypeSchemaView {
            representation: match self.representation {
                Some(representation) => Some(representation@),
                None => None,
            },
            comparison_operators: self.comparison_operators@.map_values(
                |o: (String, ComparisonOperatorDefinition)| (o.0@, o.1@),
            ),
        }
    }
}

/// A field of an object type.
#[derive(Debug)]
pub struct ObjectField {
    pub description: Option<String>,
    pub type_: SchemaType,
}

pub struct ObjectFieldView {
    pub description: Option<Seq<char>>,
    pub type_: SchemaTypeView,
}

impl View for ObjectField {
    type V = ObjectFieldView;

    open spec fn view(&self) -> ObjectFieldView {
        ObjectFieldView { description: optional_text(self.description), type_: self.type_@ }
    }
}

/// The type of the rows of a collection.
#[derive(Debug)]
pub struct ObjectType {
    pub description: Option<String>,
    pub fields: Vec<(String, ObjectField)>,
}

pub struct ObjectTypeView {
    pub description: Option<Seq<char>>,
    pub fields: Seq<(Seq<char>, ObjectFieldView)>,
}

impl View for ObjectType {
    type V = ObjectTypeView;

    open spec fn view(&self) -> ObjectTypeView {
        ObjectTypeView {
            description: optional_text(self.description),
            fields: self.fields@.map_values(|f: (String, ObjectField)| (f.0@, f.1@)),
        }
    }
}

/// A collection of the schema.
#[derive(Debug)]
pub struct CollectionInfo {
    pub name: String,
    pub description: Option<String>,
    /// The name of the type of the rows.
    pub collection_type: String,
}

pub struct CollectionInfoView {
    pub name: Seq<char>,
    pub description: Option<Seq<char>>,
    pub collection_type: Seq<char>,
}

impl View for CollectionInfo {
    type V = CollectionInfoView;

    open spec fn view(&self) -> CollectionInfoView {
        CollectionInfoView {
            name: self.name@,
            description: optional_text(self.description),
            collection_type: self.collection_type@,
        }
    }
}

/// The schema of the connector. It has no functions and no procedures.
#[derive(Debug)]
pub struct SchemaResponse {
    pub scalar_types: Vec<(String, ScalarTypeSchema)>,
    pub object_types: Vec<(String, ObjectType)>,
    pub collections: Vec<CollectionInfo>,
}

pub struct SchemaResponseView {
    pub scalar_types: Seq<(Seq<char>, ScalarTypeSchemaView)>,
    pub object_types: Seq<(Seq<char>, ObjectTypeView)>,
    pub collections: Seq<CollectionInfoView>,
}

impl View for SchemaResponse {
    type V = SchemaResponseView;

    open spec fn view(&self) -> SchemaResponseView {
        SchemaResponseView {
            scalar_types: self.scalar_types@.map_values(|t: (String, ScalarTypeSchema)| (t.0@, t.1@)),
            object_types: self.object_types@.map_values(|t: (String, ObjectType)| (t.0@, t.1@)),
            collections: self.collections@.map_values(|c: CollectionInfo| c@),
        }
    }
}

// What the schema says of the metadata

/// The representation that the schema gives for a representation of the
/// metadata. A 64-bit integer or a decimal that is written as a number is
/// given as JSON, and one that is written as a string is given as the
/// number type; a time of day is given as a string.
pub open spec fn representation_in_schema(
    representation: TypeRepresentationView,
) -> SchemaTypeRepresentationView {
    match representation {
        TypeRepresentationView::Boolean => SchemaTypeRepresentationView::Boolean,
        TypeRepresentationView::String => SchemaTypeRepresentationView::String,
        TypeRepresentationView::Float32 => SchemaTypeRepresentationView::Float32,
        TypeRepresentationView::Float64 => SchemaTypeRepresentationView::Float64,
        TypeRepresentationView::Int16 => SchemaTypeRepresentationView::Int16,
        TypeRepresentationView::Int32 => SchemaTypeRepresentationView::Int32,
        TypeRepresentationView::Int64 => SchemaTypeRepresentationView::JSON,
        TypeRepresentationView::Int64AsString => SchemaTypeRepresentationView::Int64,
        TypeRepresentationView::BigDecimal => SchemaTypeRepresentationView::JSON,
        TypeRepresentationView::BigDecimalAsString => SchemaTypeRepresentationView::BigDecimal,
        TypeRepresentationView::Timestamp => SchemaTypeRepresentationView::Timestamp,
        TypeRepresentationView::Timestamptz => SchemaTypeRepresentationView::TimestampTZ,
        TypeRepresentationView::Time => SchemaTypeRepresentationView::String,
        TypeRepresentationView::Timetz => SchemaTypeRepresentationView::String,
        TypeRepresentationView::Date => SchemaTypeRepresentationView::Date,
        TypeRepresentationView::Geometry => SchemaTypeRepresentationView::Geometry,
        TypeRepresentationView::Geography => SchemaTypeRepresentationView::Geography,
        TypeRepresentationView::UUID => SchemaTypeRepresentationView::UUID,
        TypeRepresentationView::Json => SchemaTypeRepresentationView::JSON,
        TypeRepresentationView::Enum(variants) => SchemaTypeRepresentationView::Enum {
            one_of: variants,
        },
    }
}

/// The type that the schema gives for a type of the metadata.
pub open spec fn type_in_schema(t: TypeView) -> SchemaTypeView
    decreases t,
{
    match t {
        TypeView::ArrayType(inner) => SchemaTypeView::Array {
            element_type: Box::new(type_in_schema(*inner)),
        },
        TypeView::ScalarType(name) => SchemaTypeView::Named { name },
    }
}

/// The type that the schema gives for a column: nullable where the column
/// is.
pub open spec fn column_type_in_schema(column: ColumnInfoView) -> SchemaTypeView {
    match column.nullable {
        Nullable::NonNullable => type_in_schema(column.type_),
        Nullable::Nullable => SchemaTypeView::Nullable {
            underlying_type: Box::new(type_in_schema(column.type_)),
        },
    }
}

/// What the schema says of a comparison operator.
pub open spec fn operator_in_schema(
    operator: ComparisonOperatorView,
) -> ComparisonOperatorDefinitionView {
    match operator.operator_kind {
        OperatorKind::Equal => ComparisonOperatorDefinitionView::Equal,
        OperatorKind::In => ComparisonOperatorDefinitionView::In,
        OperatorKind::Custom => ComparisonOperatorDefinitionView::Custom {
            argument_type: SchemaTypeView::Named { name: operator.argument_type },
        },
    }
}

/// What the schema says of a scalar type.
pub open spec fn scalar_type_in_schema(scalar_type: ScalarTypeInfoView) -> ScalarTypeSchemaView {
    ScalarTypeSchemaView {
        representation: match scalar_type.type_representation {
            Some(representation) => Some(representation_in_schema(representation)),
            None => None,
        },
        comparison_operators: scalar_type.comparison_operators.map_values(
            |o: (Seq<char>, ComparisonOperatorView)| (o.0, operator_in_schema(o.1)),
        ),
    }
}

/// The type of the rows of a table.
pub open spec fn object_type_of(table: TableInfoView) -> ObjectTypeView {
    ObjectTypeView {
        description: table.description,
        fields: table.columns.map_values(
            |c: (Seq<char>, ColumnInfoView)|
                (
                    c.0,
                    ObjectFieldView {
                        description: c.1.description,
                        type_: column_type_in_schema(c.1),
                    },
                ),
        ),
    }
}

/// The schema of the metadata: every scalar type, and for every table a
/// collection and the type of its rows, both under the table's name in the
/// metadata.
pub open spec fn schema_of(metadata: MetadataView) -> SchemaResponseView {
    SchemaResponseView {
        scalar_types: metadata.scalar_types.map_values(
            |t: (Seq<char>, ScalarTypeInfoView)| (t.0, scalar_type_in_schema(t.1)),
        ),
        object_types: metadata.tables.map_values(
            |t: (Seq<char>, TableInfoView)| (t.0, object_type_of(t.1)),
        ),
        collections: metadata.tables.map_values(
            |t: (Seq<char>, TableInfoView)|
                CollectionInfoView {
                    name: t.0,
                    description: t.1.description,
                    collection_type: t.0,
                },
        ),
    }
}

/// A copy of an optional text.
fn copy_optional(text: &Option<String>) -> (copy: Option<String>)
    ensures
        optional_text(copy) == optional_text(*text),
{
    match text {
        Some(text) => Some(text.clone()),
        None => None,
    }
}

/// A copy of a list of texts.
fn copy_texts(texts: &Vec<String>) -> (copy: Vec<String>)
    ensures
        copy@.map_values(|v: String| v@) == texts@.map_values(|v: String| v@),
{
    let mut copy: Vec<String> = Vec::new();
    let mut index: usize = 0;
    while index < texts.len()
        invariant
            index <= texts.len(),
            copy@.len() == index,
            forall|i: int| 0 <= i < index ==> copy@[i]@ == texts@[i]@,
        decreases texts.len() - index,
    {
        copy.push(texts[index].clone());
        index += 1;
    }
    assert(copy@.map_values(|v: String| v@) =~= texts@.map_values(|v: String| v@));
    copy
}

/// Maps a representation of the metadata to the representation that the
/// schema gives.
fn map_type_representation(type_representation: &TypeRepresentation) -> (mapped:
    SchemaTypeRepresentation)
    ensures
        mapped@ == representation_in_schema(type_representation@),
{
    match type_representation {
        TypeRepresentation::Boolean => SchemaTypeRepresentation::Boolean,
        TypeRepresentation::String => SchemaTypeRepresentation::String,
        TypeRepresentation::Float32 => SchemaTypeRepresentation::Float32,
        TypeRepresentation::Float64 => SchemaTypeRepresentation::Float64,
        TypeRepresentation::Int16 => SchemaTypeRepresentation::Int16,
        TypeRepresentation::Int32 => SchemaTypeRepresentation::Int32,
        // Int64 returns a number.
        TypeRepresentation::Int64 => SchemaTypeRepresentation::JSON,
        // Int64AsString returns a string.
        TypeRepresentation::Int64AsString => SchemaTypeRepresentation::Int64,
        // BigDecimal returns a number.
        TypeRepresentation::BigDecimal => SchemaTypeRepresentation::JSON,
        // BigDecimalAsString returns a string.
        TypeRepresentation::BigDecimalAsString => SchemaTypeRepresentation::BigDecimal,
        TypeRepresentation::Timestamp => SchemaTypeRepresentation::Timestamp,
        TypeRepresentation::Timestamptz => SchemaTypeRepresentation::TimestampTZ,
        TypeRepresentation::Time => SchemaTypeRepresentation::String,
        TypeRepresentation::Timetz => SchemaTypeRepresentation::String,
        TypeRepresentation::Date => SchemaTypeRepresentation::Date,
        TypeRepresentation::Geometry => SchemaTypeRepresentation::Geometry,
        TypeRepresentation::Geography => SchemaTypeRepresentation::Geography,
        TypeRepresentation::UUID => SchemaTypeRepresentation::UUID,
        TypeRepresentation::Json => SchemaTypeRepresentation::JSON,
        TypeRepresentation::Enum(variants) => SchemaTypeRepresentation::Enum {
            one_of: copy_texts(variants),
        },
    }
}

/// The type that the schema gives for a column.
pub fn column_to_type(column: &ColumnInfo) -> (schema_type: SchemaType)
    ensures
        schema_type@ == column_type_in_schema(column@),
{
    match &column.nullable {
        Nullable::NonNullable => type_to_type(&column.type_),
        Nullable::Nullable => SchemaType::Nullable {
            underlying_type: Box::new(type_to_type(&column.type_)),
        },
    }
}

/// The type that the schema gives for a type of the metadata.
pub fn type_to_type(typ: &Type) -> (schema_type: SchemaType)
    ensures
        schema_type@ == type_in_schema(typ@),
    decreases typ,
{
    match typ {
        Type::ArrayType(typ) => SchemaType::Array { element_type: Box::new(type_to_type(typ)) },
        Type::ScalarType(scalar_type) => SchemaType::Named { name: scalar_type.clone() },
    }
}

/// What the schema says of a comparison operator.
fn operator_definition(operator: &ComparisonOperator) -> (definition: ComparisonOperatorDefinition)
    ensures
        definition@ == operator_in_schema(operator@),
{
    match operator.operator_kind {
        OperatorKind::Equal => ComparisonOperatorDefinition::Equal,
        OperatorKind::In => ComparisonOperatorDefinition::In,
        OperatorKind::Custom => {
            let argument_type = SchemaType::Named { name: operator.argument_type.clone() };
            assert(argument_type@ == (SchemaTypeView::Named { name: operator@.argument_type }));
            ComparisonOperatorDefinition::Custom { argument_type }
        },
    }
}

/// What the schema says of a scalar type.
fn scalar_type_schema(scalar_type: &ScalarType) -> (schema: ScalarTypeSchema)
    ensures
        schema@ == scalar_type_in_schema(scalar_type@),
{
    let mut comparison_operators: Vec<(String, ComparisonOperatorDefinition)> = Vec::new();
    let operators = &scalar_type.comparison_operators;
    let mut index: usize = 0;
    while index < operators.len()
        invariant
            index <= operators.len(),
            comparison_operators@.len() == index,
            forall|i: int|
                0 <= i < index ==> (#[trigger] comparison_operators@[i]).0@ == operators@[i].0@
                    && comparison_operators@[i].1@ == operator_in_schema(operators@[i].1@),
        decreases operators.len() - index,
    {
        comparison_operators.push(
            (operators[index].0.clone(), operator_definition(&operators[index].1)),
        );
        index += 1;
    }
    let schema = ScalarTypeSchema {
        representation: match &scalar_type.type_representation {
            Some(representation) => Some(map_type_representation(representation)),
            None => None,
        },
        comparison_operators,
    };
    assert(schema@.comparison_operators =~= scalar_type_in_schema(
        scalar_type@,
    ).comparison_operators);
    schema
}

/// The type of the rows of a table.
fn object_type(table: &TableInfo) -> (object: ObjectType)
    ensures
        object@ == object_type_of(table@),
{
    let mut fields: Vec<(String, ObjectField)> = Vec::new();
    let columns = &table.columns;
    let mut index: usize = 0;
    while index < columns.len()
        invariant
            index <= columns.len(),
            fields@.len() == index,
            forall|i: int|
                0 <= i < index ==> (#[trigger] fields@[i]).0@ == columns@[i].0@ && fields@[i].1@
                    == (ObjectFieldView {
                    description: columns@[i].1@.description,
                    type_: column_type_in_schema(columns@[i].1@),
                }),
        decreases columns.len() - index,
    {
        let column_info = &columns[index].1;
        fields.push(
            (
                columns[index].0.clone(),
                ObjectField {
                    description: copy_optional(&column_info.description),
                    type_: column_to_type(column_info),
                },
            ),
        );
        index += 1;
    }
    let object = ObjectType { description: copy_optional(&table.description), fields };
    assert(object@.fields =~= object_type_of(table@).fields);
    object
}

/// The schema of the connector for a configuration.
pub fn get_schema(configuration: &Configuration) -> (schema: SchemaResponse)
    ensures
        schema@ == schema_of(configuration@.metadata),
{
    let metadata = &configuration.metadata;
    let mut scalar_types: Vec<(String, ScalarTypeSchema)> = Vec::new();
    let mut index: usize = 0;
    while index < metadata.scalar_types.0.len()
        invariant
            index <= metadata.scalar_types.0.len(),
            scalar_types@.len() == index,
            forall|i: int|
                0 <= i < index ==> (#[trigger] scalar_types@[i]).0@ == metadata.scalar_types.0@[i].0@
                    && scalar_types@[i].1@ == scalar_type_in_schema(
                    metadata.scalar_types.0@[i].1@,
                ),
        decreases metadata.scalar_types.0.len() - index,
    {
        let entry = &metadata.scalar_types.0[index];
        scalar_types.push((entry.0.clone(), scalar_type_schema(&entry.1)));
        index += 1;
    }
    let tables = &metadata.tables.0;
    let mut collections: Vec<CollectionInfo> = Vec::new();
    let mut object_types: Vec<(String, ObjectType)> = Vec::new();
    let mut index: usize = 0;
    while index < tables.len()
        invariant
            index <= tables.len(),
            collections@.len() == index,
            object_types@.len() == index,
            forall|i: int|
                0 <= i < index ==> (#[trigger] collections@[i])@ == (CollectionInfoView {
                    name: tables@[i].0@,
                    description: tables@[i].1@.description,
                    collection_type: tables@[i].0@,
                }),
            forall|i: int|
                0 <= i < index ==> (#[trigger] object_types@[i]).0@ == tables@[i].0@
                    && object_types@[i].1@ == object_type_of(tables@[i].1@),
        decreases tables.len() - index,
    {
        let table_name = &tables[index].0;
        let table = &tables[index].1;
        collections.push(
            CollectionInfo {
                name: table_name.clone(),
                description: copy_optional(&table.description),
                collection_type: table_name.clone(),
            },
        );
        object_types.push((table_name.clone(), object_type(table)));
        index += 1;
    }
    let schema = SchemaResponse { collections, object_types, scalar_types };
    assert(schema@.scalar_types =~= schema_of(configuration@.metadata).scalar_types);
    assert(schema@.object_types =~= schema_of(configuration@.metadata).object_types);
    assert(schema@.collections =~= schema_of(configuration@.metadata).collections);
    schema
}

} // verus!
