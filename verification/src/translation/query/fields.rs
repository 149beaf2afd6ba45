//! Translation of the fields that a query asks for into a select list.

use crate::metadata::database::{Type, TypeRepresentation, TypeRepresentationView, TypeView};
use crate::metadata::entries::lookup;
use crate::metadata::MetadataView;
use crate::models::{fields_view, Field, FieldView};
use crate::sql::ast::{ColumnAlias, Expression, From, ScalarType, ScalarTypeName, Select};
use crate::sql::helpers::{make_column, make_column_alias, simple_select, simple_select_view, text_type_name};
use crate::sql::model::{
    aliased_expressions_view, ColumnReferenceView, ExpressionView, ScalarTypeNameView,
    ScalarTypeView, SelectListView, SelectView,
};
use crate::translation::error::{Error, ErrorView, UnsupportedCapabilities};
use crate::translation::helpers::{
    collection_of, column_of, result_view, Env, FieldsInfo, NamedTableView, State,
    TableNameAndReference, TableNameAndReferenceView,
};
use vstd::prelude::*;

verus! {

/// The type that values of a representation are cast to: text for the
/// numbers that are written as strings, none for every other
/// representation.
pub open spec fn cast_type_of(representation: TypeRepresentationView) -> Option<
    ScalarTypeNameView,
> {
    match representation {
        TypeRepresentationView::Int64AsString => Some(ScalarTypeNameView::Unqualified("text"@)),
        TypeRepresentationView::BigDecimalAsString => Some(
            ScalarTypeNameView::Unqualified("text"@),
        ),
        _ => None,
    }
}

/// An expression inside the cast that the representation of its scalar type
/// asks for, if it asks for one.
pub open spec fn wrapped_in_type_representation(
    expression: ExpressionView,
    representation: Option<TypeRepresentationView>,
) -> ExpressionView {
    match representation {
        None => expression,
        Some(representation) => match cast_type_of(representation) {
            Some(cast_type) => ExpressionView::Cast {
                expression: Box::new(expression),
                type_: ScalarTypeView::BaseType(cast_type),
            },
            None => expression,
        },
    }
}

/// An array-valued expression inside the cast to an array that the
/// representation of the scalar type of its items asks for, if it asks for
/// one.
pub open spec fn wrapped_array_in_type_representation(
    expression: ExpressionView,
    representation: Option<TypeRepresentationView>,
) -> ExpressionView {
    match representation {
        None => expression,
        Some(representation) => match cast_type_of(representation) {
            Some(cast_type) => ExpressionView::Cast {
                expression: Box::new(expression),
                type_: ScalarTypeView::ArrayType(cast_type),
            },
            None => expression,
        },
    }
}

/// The reference to a column of a table of the query.
pub open spec fn column_expression(
    table: TableNameAndReferenceView,
    name: Seq<char>,
) -> ExpressionView {
    ExpressionView::ColumnReference(
        ColumnReferenceView::TableColumn { table: table.reference, name },
    )
}

/// The expression that selects a column of the current table: a reference
/// to the column, inside a cast where the representation of its scalar type
/// asks for one. The column has to exist, its scalar type has to be known,
/// and it may be a scalar or an array of scalars.
pub open spec fn column_selection(
    metadata: MetadataView,
    current_table: TableNameAndReferenceView,
    fields_info: NamedTableView,
    column: Seq<char>,
) -> Result<ExpressionView, ErrorView> {
    match column_of(fields_info, column) {
        Err(error) => Err(error),
        Ok(info) => {
            let reference = column_expression(current_table, info.name);
            match info.type_ {
                TypeView::ScalarType(scalar_type) => match lookup(
                    metadata.scalar_types,
                    scalar_type,
                ) {
                    None => Err(ErrorView::ScalarTypeNotFound(scalar_type)),
                    Some(scalar) => Ok(
                        wrapped_in_type_representation(reference, scalar.type_representation),
                    ),
                },
                TypeView::ArrayType(inner) => match *inner {
                    TypeView::ArrayType(_) => Err(
                        ErrorView::NestedArraysNotSupported { field_name: column },
                    ),
                    TypeView::ScalarType(scalar_type) => match lookup(
                        metadata.scalar_types,
                        scalar_type,
                    ) {
                        None => Err(ErrorView::ScalarTypeNotFound(scalar_type)),
                        Some(scalar) => Ok(
                            wrapped_array_in_type_representation(
                                reference,
                                scalar.type_representation,
                            ),
                        ),
                    },
                },
            }
        },
    }
}

/// The expression that selects a field. Only a plain column can be
/// selected: no arguments, no selection inside its value, no relationship.
pub open spec fn field_selection(
    metadata: MetadataView,
    current_table: TableNameAndReferenceView,
    fields_info: NamedTableView,
    field: FieldView,
) -> Result<ExpressionView, ErrorView> {
    match field {
        FieldView::Column { column, has_fields, has_arguments } => if has_arguments {
            Err(ErrorView::CapabilityNotSupported(UnsupportedCapabilities::FieldArguments))
        } else if has_fields {
            Err(ErrorView::CapabilityNotSupported(UnsupportedCapabilities::NestedFields))
        } else {
            column_selection(metadata, current_table, fields_info, column)
        },
        FieldView::Relationship => Err(
            ErrorView::CapabilityNotSupported(UnsupportedCapabilities::Relationships),
        ),
    }
}

/// The select list for the first `count` fields, in the order of the
/// fields, or the error of the first field that has one.
pub open spec fn field_selections(
    metadata: MetadataView,
    current_table: TableNameAndReferenceView,
    fields_info: NamedTableView,
    fields: Seq<(Seq<char>, FieldView)>,
    count: nat,
) -> Result<Seq<(Seq<char>, ExpressionView)>, ErrorView>
    decreases count,
{
    if 0 < count <= fields.len() {
        match field_selections(metadata, current_table, fields_info, fields, (count - 1) as nat) {
            Err(error) => Err(error),
            Ok(before) => match field_selection(
                metadata,
                current_table,
                fields_info,
                fields[count - 1].1,
            ) {
                Err(error) => Err(error),
                Ok(expression) => Ok(before.push((fields[count - 1].0, expression))),
            },
        }
    } else {
        Ok(Seq::empty())
    }
}

/// The query that selects the given fields of the current table from the
/// given source.
pub open spec fn fields_select(
    metadata: MetadataView,
    fields: Seq<(Seq<char>, FieldView)>,
    current_table: TableNameAndReferenceView,
    from: crate::sql::model::FromView,
) -> Result<SelectView, ErrorView> {
    match collection_of(metadata, current_table.name) {
        Err(error) => Err(error),
        Ok(fields_info) => match field_selections(
            metadata,
            current_table,
            fields_info,
            fields,
            fields.len(),
        ) {
            Err(error) => Err(error),
            Ok(columns) => Ok(
                SelectView {
                    from: Some(from),
                    ..simple_select_view(SelectListView::SelectList(columns))
                },
            ),
        },
    }
}

/// Once a field has an error, the select list has that error however many
/// fields are read.
pub proof fn lemma_field_selections_error(
    metadata: MetadataView,
    current_table: TableNameAndReferenceView,
    fields_info: NamedTableView,
    fields: Seq<(Seq<char>, FieldView)>,
    count: nat,
    more: nat,
)
    requires
        field_selections(metadata, current_table, fields_info, fields, count) is Err,
        count <= more <= fields.len(),
    ensures
        field_selections(metadata, current_table, fields_info, fields, more) == field_selections(
            metadata,
            current_table,
            fields_info,
            fields,
            count,
        ),
    decreases more,
{
    if count < more {
        lemma_field_selections_error(
            metadata,
            current_table,
            fields_info,
            fields,
            count,
            (more - 1) as nat,
        );
    }
}

/// Translates the fields of a query into a select from the given source.
pub fn translate_fields(
    env: &Env,
    _state: &mut State,
    fields: &Vec<(String, Field)>,
    current_table: &TableNameAndReference,
    from: From,
) -> (result: Result<Select, Error>)
    ensures
        result_view(result) == fields_select(env@, fields_view(fields@), current_table@, from@),
        final(_state)@ == old(_state)@,
{
    // find the table according to the metadata.
    let fields_info = match env.lookup_fields_info(&current_table.name) {
        Ok(fields_info) => fields_info,
        Err(error) => {
            return Err(error);
        },
    };
    let ghost views = fields_view(fields@);
    let mut columns: Vec<(ColumnAlias, Expression)> = Vec::new();
    let mut index: usize = 0;
    assert(aliased_expressions_view(columns@) =~= Seq::empty());
    while index < fields.len()
        invariant
            index <= fields.len(),
            views == fields_view(fields@),
            collection_of(env@, current_table@.name) == Ok::<NamedTableView, ErrorView>(
                fields_info@,
            ),
            field_selections(env@, current_table@, fields_info@, views, index as nat) == Ok::<
                Seq<(Seq<char>, ExpressionView)>,
                ErrorView,
            >(aliased_expressions_view(columns@)),
        decreases fields.len() - index,
    {
        let ghost before = aliased_expressions_view(columns@);
        let alias = &fields[index].0;
        let translated = match &fields[index].1 {
            Field::Column { column, fields: nested, arguments } => {
                if arguments.len() > 0 {
                    Err(Error::CapabilityNotSupported(UnsupportedCapabilities::FieldArguments))
                } else if nested.is_some() {
                    Err(Error::CapabilityNotSupported(UnsupportedCapabilities::NestedFields))
                } else {
                    unpack_and_wrap_fields(
                        env,
                        current_table,
                        column,
                        make_column_alias(alias.clone()),
                        &fields_info,
                    )
                }
            },
            Field::Relationship { .. } => Err(
                Error::CapabilityNotSupported(UnsupportedCapabilities::Relationships),
            ),
        };
        match translated {
            Ok(column) => {
                columns.push(column);
                assert(aliased_expressions_view(columns@) =~= before.push(
                    (views[index as int].0, column.1@),
                ));
            },
            Err(error) => {
                proof {
                    lemma_field_selections_error(
                        env@,
                        current_table@,
                        fields_info@,
                        views,
                        (index + 1) as nat,
                        views.len(),
                    );
                }
                return Err(error);
            },
        }
        index += 1;
    }
    let mut select = simple_select(columns);
    select.from = Some(from);
    Ok(select)
}

/// Translates one plain column into an expression under its alias, inside
/// the cast that the representation of its type asks for.
pub fn unpack_and_wrap_fields(
    env: &Env,
    current_table: &TableNameAndReference,
    column: &String,
    alias: ColumnAlias,
    fields_info: &FieldsInfo<'_>,
) -> (result: Result<(ColumnAlias, Expression), Error>)
    ensures
        match result {
            Ok(selected) => selected.0@ == alias@ && column_selection(
                env@,
                current_table@,
                fields_info@,
                column@,
            ) == Ok::<ExpressionView, ErrorView>(selected.1@),
            Err(error) => column_selection(env@, current_table@, fields_info@, column@) == Err::<
                ExpressionView,
                ErrorView,
            >(error@),
        },
{
    let column_info = match fields_info.lookup_column(column) {
        Ok(column_info) => column_info,
        Err(error) => {
            return Err(error);
        },
    };
    // Different kinds of types have different strategy for converting to their
    // type representation.
    match &column_info.type_ {
        // Scalar types can just be wrapped in a cast.
        Type::ScalarType(scalar_type) => {
            let scalar = match env.lookup_scalar_type(scalar_type) {
                Ok(scalar) => scalar,
                Err(error) => {
                    return Err(error);
                },
            };
            let (alias, expression) = make_column(
                current_table.reference.clone(),
                column_info.name.clone(),
                alias,
            );
            Ok((alias, wrap_in_type_representation(expression, scalar.type_representation.as_ref())))
        },
        Type::ArrayType(type_boxed) => match &**type_boxed {
            Type::ArrayType(_) => {
                assert(column_info@.type_ == TypeView::ArrayType(Box::new(type_boxed@)));
                assert(type_boxed@ is ArrayType);
                Err(Error::NestedArraysNotSupported { field_name: column.clone() })
            },
            Type::ScalarType(scalar_type) => {
                assert(column_info@.type_ == TypeView::ArrayType(Box::new(type_boxed@)));
                assert(type_boxed@ == TypeView::ScalarType(scalar_type@));
                let scalar = match env.lookup_scalar_type(scalar_type) {
                    Ok(scalar) => scalar,
                    Err(error) => {
                        return Err(error);
                    },
                };
                let (alias, expression) = make_column(
                    current_table.reference.clone(),
                    column_info.name.clone(),
                    alias,
                );
                Ok(
                    (
                        alias,
                        wrap_array_in_type_representation(
                            expression,
                            scalar.type_representation.as_ref(),
                        ),
                    ),
                )
            },
        },
    }
}

/// The view of an optional representation.
pub open spec fn optional_representation(representation: Option<&TypeRepresentation>) -> Option<
    TypeRepresentationView,
> {
    match representation {
        Some(r) => Some(r@),
        None => None,
    }
}

/// Wraps an array-valued expression in the cast to an array that the
/// representation of the type of its items asks for.
fn wrap_array_in_type_representation(
    expression: Expression,
    column_type_representation: Option<&TypeRepresentation>,
) -> (wrapped: Expression)
    ensures
        wrapped@ == wrapped_array_in_type_representation(
            expression@,
            optional_representation(column_type_representation),
        ),
{
    match column_type_representation {
        None => expression,
        Some(type_rep) => {
            if let Some(cast_type) = get_type_representation_cast_type(type_rep) {
                Expression::Cast {
                    expression: Box::new(expression),
                    // make it an array of cast type
                    type_: ScalarType::ArrayType(cast_type),
                }
            } else {
                expression
            }
        },
    }
}

/// Wraps an expression in the cast that the representation of its type asks
/// for.
fn wrap_in_type_representation(
    expression: Expression,
    column_type_representation: Option<&TypeRepresentation>,
) -> (wrapped: Expression)
    ensures
        wrapped@ == wrapped_in_type_representation(
            expression@,
            optional_representation(column_type_representation),
        ),
{
    match column_type_representation {
        None => expression,
        Some(type_rep) => {
            if let Some(cast_type) = get_type_representation_cast_type(type_rep) {
                Expression::Cast {
                    expression: Box::new(expression),
                    type_: ScalarType::BaseType(cast_type),
                }
            } else {
                expression
            }
        },
    }
}

/// The type that a representation asks a cast to, if it asks for one.
fn get_type_representation_cast_type(type_representation: &TypeRepresentation) -> (cast_type:
    Option<ScalarTypeName>)
    ensures
        match cast_type {
            Some(name) => cast_type_of(type_representation@) == Some(name@),
            None => cast_type_of(type_representation@) is None,
        },
{
    match type_representation {
        // In these situations, we expect to cast the expression according
        // to the type representation.
        TypeRepresentation::Int64AsString | TypeRepresentation::BigDecimalAsString => Some(
            text_type_name(),
        ),
        // In these situations the type representation should be the same as
        // the expression, so we don't cast it.
        TypeRepresentation::Boolean
        | TypeRepresentation::String
        | TypeRepresentation::Float32
        | TypeRepresentation::Float64
        | TypeRepresentation::Int16
        | TypeRepresentation::Int32
        | TypeRepresentation::Int64
        | TypeRepresentation::BigDecimal
        | TypeRepresentation::Timestamp
        | TypeRepresentation::Timestamptz
        | TypeRepresentation::Time
        | TypeRepresentation::Timetz
        | TypeRepresentation::Date
        | TypeRepresentation::UUID
        | TypeRepresentation::Geography
        | TypeRepresentation::Geometry
        | TypeRepresentation::Json
        | TypeRepresentation::Enum(_) => None,
    }
}

/// A column whose scalar type has no representation is selected as a bare
/// reference to the column, which renders as the column's quoted name: no
/// cast is put around it. The same holds of an array of such scalars.
pub proof fn lemma_no_representation_no_cast(
    metadata: MetadataView,
    current_table: TableNameAndReferenceView,
    fields_info: NamedTableView,
    column: Seq<char>,
    out: crate::sql::string::SQLView,
)
    requires
        column_of(fields_info, column) is Ok,
        match column_of(fields_info, column)->Ok_0.type_ {
            TypeView::ScalarType(scalar_type) => lookup(metadata.scalar_types, scalar_type) is Some
                && lookup(metadata.scalar_types, scalar_type)->0.type_representation is None,
            TypeView::ArrayType(inner) => *inner is ScalarType && lookup(
                metadata.scalar_types,
                inner->ScalarType_0,
            ) is Some && lookup(
                metadata.scalar_types,
                inner->ScalarType_0,
            )->0.type_representation is None,
        },
    ensures
        column_selection(metadata, current_table, fields_info, column) == Ok::<
            ExpressionView,
            ErrorView,
        >(column_expression(current_table, column_of(fields_info, column)->Ok_0.name)),
        out.with_expression(
            column_selection(metadata, current_table, fields_info, column)->Ok_0,
        ) == out.with_identifier(column_of(fields_info, column)->Ok_0.name),
{
}

/// Which representations ask for a cast: a column of a scalar type whose
/// values are 64-bit integers or decimals written as strings is selected
/// inside a cast to `text`, and a column of any other representation, such
/// as booleans, is selected as a bare reference.
pub proof fn lemma_representation_decides_cast(
    metadata: MetadataView,
    current_table: TableNameAndReferenceView,
    fields_info: NamedTableView,
    column: Seq<char>,
)
    requires
        column_of(fields_info, column) is Ok,
        column_of(fields_info, column)->Ok_0.type_ is ScalarType,
        lookup(
            metadata.scalar_types,
            column_of(fields_info, column)->Ok_0.type_->ScalarType_0,
        ) is Some,
        lookup(
            metadata.scalar_types,
            column_of(fields_info, column)->Ok_0.type_->ScalarType_0,
        )->0.type_representation is Some,
    ensures
        ({
            let info = column_of(fields_info, column)->Ok_0;
            let representation = lookup(
                metadata.scalar_types,
                info.type_->ScalarType_0,
            )->0.type_representation->0;
            let reference = column_expression(current_table, info.name);
            column_selection(metadata, current_table, fields_info, column) == Ok::<
                ExpressionView,
                ErrorView,
            >(
                if representation is Int64AsString || representation is BigDecimalAsString {
                    ExpressionView::Cast {
                        expression: Box::new(reference),
                        type_: ScalarTypeView::BaseType(ScalarTypeNameView::Unqualified("text"@)),
                    }
                } else {
                    reference
                },
            )
        }),
{
}

} // verus!
