//! Translation of literal values.

use crate::json::{json_list_view, JsonNumber, JsonNumberView, JsonValue, JsonValueView};
use crate::metadata::database::{Type, TypeView};
use crate::metadata::entries::lookup;
use crate::metadata::MetadataView;
use crate::sql::ast::{Expression, Value};
use crate::sql::model::{expression_list_view, ExpressionView, ValueView};
use crate::translation::error::{Error, ErrorView};
use crate::translation::helpers::{result_view, Env, State};
use vstd::prelude::*;

verus! {

/// The scalar type at the bottom of a type.
pub open spec fn scalar_name(expected: TypeView) -> Seq<char>
    decreases expected,
{
    match expected {
        TypeView::ScalarType(name) => name,
        TypeView::ArrayType(inner) => scalar_name(*inner),
    }
}

/// The literal expression for a JSON value that is to have a scalar type:
/// null, booleans, numbers and strings are written as they are, an object is
/// handed over as a JSON parameter, and an array is no scalar.
pub open spec fn scalar_literal(value: JsonValueView, expected: Seq<char>) -> Result<
    ExpressionView,
    ErrorView,
> {
    match value {
        JsonValueView::Null => Ok(ExpressionView::Value(ValueView::Null)),
        JsonValueView::Bool(b) => Ok(ExpressionView::Value(ValueView::Bool(b))),
        JsonValueView::Number(JsonNumberView::Integer(i)) => Ok(
            ExpressionView::Value(ValueView::Int8(i)),
        ),
        JsonValueView::Number(JsonNumberView::Decimal(text)) => Ok(
            ExpressionView::Value(ValueView::Float8(text)),
        ),
        JsonValueView::String(s) => Ok(ExpressionView::Value(ValueView::String(s))),
        JsonValueView::Object(members) => Ok(ExpressionView::Value(ValueView::JsonValue(value))),
        JsonValueView::Array(items) => Err(ErrorView::TypeMismatch(value, expected)),
    }
}

/// The literal expression for a JSON value that is to have the given type.
/// The scalar type at the bottom of the type has to be known. A value for an
/// array type has to be an array, and each of its items a value for the
/// type of the items.
pub open spec fn json_literal(
    metadata: MetadataView,
    value: JsonValueView,
    expected: TypeView,
) -> Result<ExpressionView, ErrorView>
    decreases expected, 1nat,
{
    if lookup(metadata.scalar_types, scalar_name(expected)) is None {
        Err(ErrorView::ScalarTypeNotFound(scalar_name(expected)))
    } else {
        match expected {
            TypeView::ScalarType(name) => scalar_literal(value, name),
            TypeView::ArrayType(inner) => match value {
                JsonValueView::Array(items) => match json_literals(
                    metadata,
                    items,
                    *inner,
                    items.len(),
                ) {
                    Ok(elements) => Ok(ExpressionView::ArrayConstructor(elements)),
                    Err(error) => Err(error),
                },
                _ => Err(ErrorView::TypeMismatch(value, scalar_name(expected))),
            },
        }
    }
}

/// The literal expressions for the first `count` of a list of JSON values
/// that are to have the given type, or the error of the first value that has
/// one.
pub open spec fn json_literals(
    metadata: MetadataView,
    values: Seq<JsonValueView>,
    expected: TypeView,
    count: nat,
) -> Result<Seq<ExpressionView>, ErrorView>
    decreases expected, 2nat, count,
{
    if 0 < count <= values.len() {
        match json_literals(metadata, values, expected, (count - 1) as nat) {
            Err(error) => Err(error),
            Ok(before) => match json_literal(metadata, values[count - 1], expected) {
                Err(error) => Err(error),
                Ok(expression) => Ok(before.push(expression)),
            },
        }
    } else {
        Ok(Seq::empty())
    }
}

/// The name of the scalar type at the bottom of a type.
fn scalar_name_of(expected: &Type) -> (name: &String)
    ensures
        name@ == scalar_name(expected@),
    decreases expected,
{
    match expected {
        Type::ScalarType(name) => name,
        Type::ArrayType(inner) => scalar_name_of(inner),
    }
}

/// Translates a list of JSON values that are to have the given type.
pub fn translate_json_values(
    env: &Env,
    state: &mut State,
    values: &Vec<JsonValue>,
    expected: &Type,
) -> (result: Result<Vec<Expression>, Error>)
    ensures
        match result {
            Ok(expressions) => Ok(expression_list_view(expressions@)),
            Err(error) => Err(error@),
        } == json_literals(env@, json_list_view(values@), expected@, values@.len()),
        final(state)@ == old(state)@,
    decreases expected, 2nat,
{
    let ghost views = json_list_view(values@);
    let mut expressions: Vec<Expression> = Vec::new();
    let mut index: usize = 0;
    assert(expression_list_view(expressions@) =~= Seq::empty());
    while index < values.len()
        invariant
            index <= values.len(),
            views == json_list_view(values@),
            state@ == old(state)@,
            json_literals(env@, views, expected@, index as nat) == Ok::<
                Seq<ExpressionView>,
                ErrorView,
            >(expression_list_view(expressions@)),
        decreases values.len() - index,
    {
        let ghost before = expression_list_view(expressions@);
        match translate_json_value(env, state, &values[index], expected) {
            Ok(expression) => {
                expressions.push(expression);
                assert(expression_list_view(expressions@) =~= before.push(expression@));
            },
            Err(error) => {
                proof {
                    lemma_json_literals_error(
                        env@,
                        views,
                        expected@,
                        (index + 1) as nat,
                        values@.len(),
                    );
                }
                return Err(error);
            },
        }
        index += 1;
    }
    Ok(expressions)
}

/// Once a value of a list has an error, the list has that error however far
/// it is read.
pub proof fn lemma_json_literals_error(
    metadata: MetadataView,
    values: Seq<JsonValueView>,
    expected: TypeView,
    count: nat,
    more: nat,
)
    requires
        json_literals(metadata, values, expected, count) is Err,
        count <= more <= values.len(),
    ensures
        json_literals(metadata, values, expected, more) == json_literals(
            metadata,
            values,
            expected,
            count,
        ),
    decreases more,
{
    if count < more {
        lemma_json_literals_error(metadata, values, expected, count, (more - 1) as nat);
    }
}

/// Translates a JSON value that is to have the given type into a literal
/// expression.
pub fn translate_json_value(
    env: &Env,
    state: &mut State,
    value: &JsonValue,
    expected: &Type,
) -> (result: Result<Expression, Error>)
    ensures
        result_view(result) == json_literal(env@, value@, expected@),
        final(state)@ == old(state)@,
    decreases expected, 1nat,
{
    let name = scalar_name_of(expected);
    match env.lookup_scalar_type(name) {
        Err(error) => {
            return Err(error);
        },
        Ok(_) => {},
    }
    match expected {
        Type::ScalarType(name) => match value {
            JsonValue::Null => Ok(Expression::Value(Value::Null)),
            JsonValue::Bool(b) => Ok(Expression::Value(Value::Bool(*b))),
            JsonValue::Number(JsonNumber::Integer(i)) => Ok(Expression::Value(Value::Int8(*i))),
            JsonValue::Number(JsonNumber::Decimal(text)) => Ok(
                Expression::Value(Value::Float8(text.clone())),
            ),
            JsonValue::String(s) => Ok(Expression::Value(Value::String(s.clone()))),
            JsonValue::Object(_) => Ok(Expression::Value(Value::JsonValue(value.clone()))),
            JsonValue::Array(_) => Err(Error::TypeMismatch(value.clone(), name.clone())),
        },
        Type::ArrayType(inner) => match value {
            JsonValue::Array(items) => {
                match translate_json_values(env, state, items, inner) {
                    Ok(elements) => Ok(Expression::ArrayConstructor(elements)),
                    Err(error) => Err(error),
                }
            },
            _ => Err(Error::TypeMismatch(value.clone(), name.clone())),
        },
    }
}

} // verus!
