//! What can go wrong in a translation. None of it is transient: each error
//! tells of a malformed request or of something this engine does not do.

use crate::json::{JsonValue, JsonValueView};
use crate::metadata::database::{Type, TypeView};
use vstd::prelude::*;

verus! {

/// Shapes of request that are valid and that this engine does not translate.
#[derive(Debug, Clone, Copy, PartialEq, Eq, Structural)]
pub enum UnsupportedCapabilities {
    /// Arguments of a field.
    FieldArguments,
    /// A selection inside the value of a field.
    NestedFields,
    /// A column, a field or a sort key that is reached through a
    /// relationship.
    Relationships,
    /// `EXISTS` in a related collection.
    RelatedExists,
    /// `EXISTS` in a nested collection.
    NestedCollectionExists,
    /// A comparison with a variable.
    Variables,
    /// Sets of variables for which a query is run once each.
    VariableSets,
    /// An alias for a collection that the caller hands in.
    CollectionAliases,
}

/// An error of translation.
#[derive(Debug)]
pub enum Error {
    CollectionNotFound(String),
    /// A column, and the collection in which it was looked for.
    ColumnNotFoundInCollection(String, String),
    ScalarTypeNotFound(String),
    OperatorNotFound { operator_name: String, scalar_type: String },
    /// A literal, and the scalar type that it was to have.
    TypeMismatch(JsonValue, String),
    NestedArraysNotSupported { field_name: String },
    NonScalarTypeUsedInOperator { type_: Type },
    InvalidCollectionName(String),
    CapabilityNotSupported(UnsupportedCapabilities),
    EmptyPathForOrderByAggregate,
}

pub enum ErrorView {
    CollectionNotFound(Seq<char>),
    ColumnNotFoundInCollection(Seq<char>, Seq<char>),
    ScalarTypeNotFound(Seq<char>),
    OperatorNotFound { operator_name: Seq<char>, scalar_type: Seq<char> },
    TypeMismatch(JsonValueView, Seq<char>),
    NestedArraysNotSupported { field_name: Seq<char> },
    NonScalarTypeUsedInOperator { type_: TypeView },
    InvalidCollectionName(Seq<char>),
    CapabilityNotSupported(UnsupportedCapabilities),
    EmptyPathForOrderByAggregate,
}

impl View for Error {
    type V = ErrorView;

    open spec fn view(&self) -> ErrorView {
        match self {
            Error::CollectionNotFound(name) => ErrorView::CollectionNotFound(name@),
            Error::ColumnNotFoundInCollection(column, collection) => ErrorView::ColumnNotFoundInCollection(
                column@,
                collection@,
            ),
            Error::ScalarTypeNotFound(name) => ErrorView::ScalarTypeNotFound(name@),
            Error::OperatorNotFound { operator_name, scalar_type } => ErrorView::OperatorNotFound {
                operator_name: operator_name@,
                scalar_type: scalar_type@,
            },
            Error::TypeMismatch(value, expected) => ErrorView::TypeMismatch(value@, expected@),
            Error::NestedArraysNotSupported { field_name } => ErrorView::NestedArraysNotSupported {
                field_name: field_name@,
            },
            Error::NonScalarTypeUsedInOperator { type_ } => ErrorView::NonScalarTypeUsedInOperator {
                type_: type_@,
            },
            Error::InvalidCollectionName(name) => ErrorView::InvalidCollectionName(name@),
            Error::CapabilityNotSupported(capability) => ErrorView::CapabilityNotSupported(
                *capability,
            ),
            Error::EmptyPathForOrderByAggregate => ErrorView::EmptyPathForOrderByAggregate,
        }
    }
}

/// What a capability is called in a message.
pub open spec fn capability_text(capability: UnsupportedCapabilities) -> Seq<char> {
    match capability {
        UnsupportedCapabilities::FieldArguments => "Field arguments"@,
        UnsupportedCapabilities::NestedFields => "Nested fields"@,
        UnsupportedCapabilities::Relationships => "Relationships"@,
        UnsupportedCapabilities::RelatedExists => "EXISTS in a related collection"@,
        UnsupportedCapabilities::NestedCollectionExists => "EXISTS in a nested collection"@,
        UnsupportedCapabilities::Variables => "Variables"@,
        UnsupportedCapabilities::VariableSets => "Variable sets"@,
        UnsupportedCapabilities::CollectionAliases => "Collection aliases"@,
    }
}

/// How a type is written in a message: a scalar type by its name, an array
/// as its type of items between brackets.
pub open spec fn type_text(t: TypeView) -> Seq<char>
    decreases t,
{
    match t {
        TypeView::ScalarType(name) => name,
        TypeView::ArrayType(inner) => "["@ + type_text(*inner) + "]"@,
    }
}

/// What an error says.
pub open spec fn error_message(error: ErrorView) -> Seq<char> {
    match error {
        ErrorView::CollectionNotFound(name) => "Collection '"@ + name + "' not found."@,
        ErrorView::ColumnNotFoundInCollection(column, collection) => "Column '"@ + column
            + "' not found in collection '"@ + collection + "'."@,
        ErrorView::ScalarTypeNotFound(name) => "Scalar type '"@ + name + "' not found."@,
        ErrorView::OperatorNotFound { operator_name, scalar_type } => "Operator '"@
            + operator_name + "' not found for type '"@ + scalar_type + "'."@,
        ErrorView::TypeMismatch(value, expected) => "Value is not of type '"@ + expected + "'."@,
        ErrorView::NestedArraysNotSupported { field_name } => "Nested arrays are not supported in field '"@
            + field_name + "'."@,
        ErrorView::NonScalarTypeUsedInOperator { type_ } => "Non-scalar type '"@ + type_text(type_)
            + "' used in operator."@,
        ErrorView::InvalidCollectionName(name) => "Invalid collection name: '"@ + name + "'."@,
        ErrorView::CapabilityNotSupported(capability) => capability_text(capability)
            + " are not supported."@,
        ErrorView::EmptyPathForOrderByAggregate => "No path elements supplied for order by aggregate."@,
    }
}

impl UnsupportedCapabilities {
    /// What the capability is called in a message.
    pub fn text(&self) -> (text: &'static str)
        ensures
            text@ == capability_text(*self),
    {
        match self {
            UnsupportedCapabilities::FieldArguments => "Field arguments",
            UnsupportedCapabilities::NestedFields => "Nested fields",
            UnsupportedCapabilities::Relationships => "Relationships",
            UnsupportedCapabilities::RelatedExists => "EXISTS in a related collection",
            UnsupportedCapabilities::NestedCollectionExists => "EXISTS in a nested collection",
            UnsupportedCapabilities::Variables => "Variables",
            UnsupportedCapabilities::VariableSets => "Variable sets",
            UnsupportedCapabilities::CollectionAliases => "Collection aliases",
        }
    }
}

/// Writes a type as it stands in a message.
pub fn type_to_string(t: &Type) -> (text: String)
    ensures
        text@ == type_text(t@),
    decreases t,
{
    match t {
        Type::ScalarType(name) => name.clone(),
        Type::ArrayType(inner) => {
            let inner_text = type_to_string(inner);
            String::from_str("[").concat(inner_text.as_str()).concat("]")
        },
    }
}

impl Error {
    /// What the error says.
    pub fn message(&self) -> (text: String)
        ensures
            text@ == error_message(self@),
    {
        match self {
            Error::CollectionNotFound(name) => String::from_str("Collection '").concat(
                name.as_str(),
            ).concat("' not found."),
            Error::ColumnNotFoundInCollection(column, collection) => String::from_str(
                "Column '",
            ).concat(column.as_str()).concat("' not found in collection '").concat(
                collection.as_str(),
            ).concat("'."),
            Error::ScalarTypeNotFound(name) => String::from_str("Scalar type '").concat(
                name.as_str(),
            ).concat("' not found."),
            Error::OperatorNotFound { operator_name, scalar_type } => String::from_str(
                "Operator '",
            ).concat(operator_name.as_str()).concat("' not found for type '").concat(
                scalar_type.as_str(),
            ).concat("'."),
            Error::TypeMismatch(_, expected) => String::from_str("Value is not of type '").concat(
                expected.as_str(),
            ).concat("'."),
            Error::NestedArraysNotSupported { field_name } => String::from_str(
                "Nested arrays are not supported in field '",
            ).concat(field_name.as_str()).concat("'."),
            Error::NonScalarTypeUsedInOperator { type_ } => {
                let type_text = type_to_string(type_);
                String::from_str("Non-scalar type '").concat(type_text.as_str()).concat(
                    "' used in operator.",
                )
            },
            Error::InvalidCollectionName(name) => String::from_str(
                "Invalid collection name: '",
            ).concat(name.as_str()).concat("'."),
            Error::CapabilityNotSupported(capability) => String::from_str(
                capability.text(),
            ).concat(" are not supported."),
            Error::EmptyPathForOrderByAggregate => String::from_str(
                "No path elements supplied for order by aggregate.",
            ),
        }
    }
}

} // verus!
