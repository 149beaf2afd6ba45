//! The text of a path of relationships, by which sort keys are told apart:
//! paths that are equal have the same text. Every name and string is
//! written behind its length, and every node behind a letter for its kind.

use crate::json::{JsonNumber, JsonValue};
use crate::models::{
    Argument, ComparisonTarget, ComparisonValue, ExistsInCollection, Expression, PathElement,
    RelationshipArgument, UnaryComparisonOperator,
};
use crate::text::{i64_to_string, int_text, nat_text, u64_to_string};
use vstd::prelude::*;
use vstd::string::StrSliceExecFns;

verus! {

/// Text with a string at its end: the number of its characters, a colon and
/// the string.
pub open spec fn with_string(out: Seq<char>, s: Seq<char>) -> Seq<char> {
    out + nat_text(s.len()) + ":"@ + s
}

/// Text with the number of the items of a list at its end, between
/// brackets.
pub open spec fn with_count(out: Seq<char>, count: nat) -> Seq<char> {
    out + "["@ + nat_text(count) + "]"@
}

/// Text with a JSON value at its end.
pub open spec fn with_json(out: Seq<char>, value: JsonValue) -> Seq<char>
    decreases value, 0nat,
{
    match value {
        JsonValue::Null => out + "n"@,
        JsonValue::Bool(b) => if b {
            out + "t"@
        } else {
            out + "f"@
        },
        JsonValue::Number(JsonNumber::Integer(i)) => out + "i"@ + int_text(i as int) + ";"@,
        JsonValue::Number(JsonNumber::Decimal(text)) => with_string(out + "d"@, text@),
        JsonValue::String(s) => with_string(out + "s"@, s@),
        JsonValue::Array(items) => with_json_items(
            with_count(out + "a"@, items@.len()),
            items@,
            items@.len(),
        ),
        JsonValue::Object(members) => with_json_members(
            with_count(out + "o"@, members@.len()),
            members@,
            members@.len(),
        ),
    }
}

/// Text with the first `count` of a list of JSON values at its end.
pub open spec fn with_json_items(out: Seq<char>, items: Seq<JsonValue>, count: nat) -> Seq<char>
    decreases items, count,
{
    if 0 < count <= items.len() {
        with_json(with_json_items(out, items, (count - 1) as nat), items[count - 1])
    } else {
        out
    }
}

/// Text with the first `count` members of a JSON object at its end.
pub open spec fn with_json_members(
    out: Seq<char>,
    members: Seq<(String, JsonValue)>,
    count: nat,
) -> Seq<char>
    decreases members, count,
{
    if 0 < count <= members.len() {
        with_json(
            with_string(
                with_json_members(out, members, (count - 1) as nat),
                members[count - 1].0@,
            ),
            members[count - 1].1,
        )
    } else {
        out
    }
}

/// Text with the first `count` of a list of names at its end.
pub open spec fn with_names(out: Seq<char>, names: Seq<String>, count: nat) -> Seq<char>
    decreases count,
{
    if 0 < count <= names.len() {
        with_string(with_names(out, names, (count - 1) as nat), names[count - 1]@)
    } else {
        out
    }
}

/// Text with an optional path of nested fields at its end.
pub open spec fn with_field_path(out: Seq<char>, field_path: Option<Vec<String>>) -> Seq<char> {
    match field_path {
        None => out + "-"@,
        Some(names) => with_names(with_count(out + "+"@, names@.len()), names@, names@.len()),
    }
}

/// Text with an argument at its end.
pub open spec fn with_argument(out: Seq<char>, argument: Argument) -> Seq<char> {
    match argument {
        Argument::Variable { name } => with_string(out + "V"@, name@),
        Argument::Literal { value } => with_json(out + "L"@, value),
    }
}

/// Text with the first `count` of a list of named arguments at its end.
pub open spec fn with_arguments(
    out: Seq<char>,
    arguments: Seq<(String, Argument)>,
    count: nat,
) -> Seq<char>
    decreases count,
{
    if 0 < count <= arguments.len() {
        with_argument(
            with_string(
                with_arguments(out, arguments, (count - 1) as nat),
                arguments[count - 1].0@,
            ),
            arguments[count - 1].1,
        )
    } else {
        out
    }
}

/// Text with an argument of a relationship at its end.
pub open spec fn with_relationship_argument(
    out: Seq<char>,
    argument: RelationshipArgument,
) -> Seq<char> {
    match argument {
        RelationshipArgument::Variable { name } => with_string(out + "V"@, name@),
        RelationshipArgument::Literal { value } => with_json(out + "L"@, value),
        RelationshipArgument::Column { name } => with_string(out + "C"@, name@),
    }
}

/// Text with the first `count` of a list of named arguments of a
/// relationship at its end.
pub open spec fn with_relationship_arguments(
    out: Seq<char>,
    arguments: Seq<(String, RelationshipArgument)>,
    count: nat,
) -> Seq<char>
    decreases count,
{
    if 0 < count <= arguments.len() {
        with_relationship_argument(
            with_string(
                with_relationship_arguments(out, arguments, (count - 1) as nat),
                arguments[count - 1].0@,
            ),
            arguments[count - 1].1,
        )
    } else {
        out
    }
}

/// Text with a comparison target at its end.
pub open spec fn with_target(out: Seq<char>, target: ComparisonTarget) -> Seq<char>
    decreases target, 0nat,
{
    match target {
        ComparisonTarget::Column { name, path, field_path } => with_field_path(
            with_path(with_count(with_string(out + "c"@, name@), path@.len()), path@, path@.len()),
            field_path,
        ),
        ComparisonTarget::RootCollectionColumn { name, field_path } => with_field_path(
            with_string(out + "r"@, name@),
            field_path,
        ),
    }
}

/// Text with a comparison value at its end.
pub open spec fn with_comparison_value(out: Seq<char>, value: ComparisonValue) -> Seq<char>
    decreases value, 0nat,
{
    match value {
        ComparisonValue::Column { column } => with_target(out + "C"@, column),
        ComparisonValue::Scalar { value } => with_json(out + "S"@, value),
        ComparisonValue::Variable { name } => with_string(out + "V"@, name@),
    }
}

/// Text with the collection of an `EXISTS` at its end.
pub open spec fn with_exists_in_collection(
    out: Seq<char>,
    in_collection: ExistsInCollection,
) -> Seq<char> {
    match in_collection {
        ExistsInCollection::Related { relationship, arguments } => with_relationship_arguments(
            with_count(with_string(out + "R"@, relationship@), arguments@.len()),
            arguments@,
            arguments@.len(),
        ),
        ExistsInCollection::Unrelated { collection, arguments } => with_relationship_arguments(
            with_count(with_string(out + "U"@, collection@), arguments@.len()),
            arguments@,
            arguments@.len(),
        ),
        ExistsInCollection::NestedCollection {
            column_name,
            arguments,
            field_path,
        } => with_names(
            with_count(
                with_arguments(
                    with_count(with_string(out + "N"@, column_name@), arguments@.len()),
                    arguments@,
                    arguments@.len(),
                ),
                field_path@.len(),
            ),
            field_path@,
            field_path@.len(),
        ),
    }
}

/// Text with an optional predicate at its end.
pub open spec fn with_optional_predicate(
    out: Seq<char>,
    predicate: Option<Box<Expression>>,
) -> Seq<char>
    decreases predicate, 0nat,
{
    match predicate {
        None => out + "-"@,
        Some(predicate) => with_predicate(out + "+"@, *predicate),
    }
}

/// Text with a predicate at its end.
pub open spec fn with_predicate(out: Seq<char>, predicate: Expression) -> Seq<char>
    decreases predicate, 0nat,
{
    match predicate {
        Expression::And { expressions } => with_predicates(
            with_count(out + "A"@, expressions@.len()),
            expressions@,
            expressions@.len(),
        ),
        Expression::Or { expressions } => with_predicates(
            with_count(out + "O"@, expressions@.len()),
            expressions@,
            expressions@.len(),
        ),
        Expression::Not { expression } => with_predicate(out + "N"@, *expression),
        Expression::UnaryComparisonOperator { column, operator } => with_target(
            out + "U"@,
            column,
        ),
        Expression::BinaryComparisonOperator { column, operator, value } => with_comparison_value(
            with_string(with_target(out + "B"@, column), operator@),
            value,
        ),
        Expression::Exists { in_collection, predicate } => with_optional_predicate(
            with_exists_in_collection(out + "E"@, in_collection),
            predicate,
        ),
    }
}

/// Text with the first `count` of a list of predicates at its end.
pub open spec fn with_predicates(out: Seq<char>, predicates: Seq<Expression>, count: nat) -> Seq<
    char,
>
    decreases predicates, count,
{
    if 0 < count <= predicates.len() {
        with_predicate(with_predicates(out, predicates, (count - 1) as nat), predicates[count - 1])
    } else {
        out
    }
}

/// Text with one hop along a relationship at its end: the relationship, its
/// arguments and its predicate.
pub open spec fn with_path_element(out: Seq<char>, element: PathElement) -> Seq<char>
    decreases element, 0nat,
{
    with_optional_predicate(
        with_relationship_arguments(
            with_count(with_string(out + "H"@, element.relationship@), element.arguments@.len()),
            element.arguments@,
            element.arguments@.len(),
        ),
        element.predicate,
    )
}

/// Text with the first `count` hops of a path at its end.
pub open spec fn with_path(out: Seq<char>, path: Seq<PathElement>, count: nat) -> Seq<char>
    decreases path, count,
{
    if 0 < count <= path.len() {
        with_path_element(with_path(out, path, (count - 1) as nat), path[count - 1])
    } else {
        out
    }
}

/// The text of a path: the number of its hops and the hops.
pub open spec fn path_text(path: Seq<PathElement>) -> Seq<char> {
    with_path(with_count(Seq::empty(), path.len()), path, path.len())
}

/// Writes a string behind its length.
fn write_string(out: &mut String, s: &String)
    ensures
        final(out)@ == with_string(old(out)@, s@),
{
    let length: String = u64_to_string(s.as_str().unicode_len() as u64);
    out.append(length.as_str());
    out.append(":");
    out.append(s.as_str());
}

/// Writes the number of the items of a list.
fn write_count(out: &mut String, count: usize)
    ensures
        final(out)@ == with_count(old(out)@, count as nat),
{
    let digits: String = u64_to_string(count as u64);
    out.append("[");
    out.append(digits.as_str());
    out.append("]");
}

/// Writes a JSON value.
fn write_json(out: &mut String, value: &JsonValue)
    ensures
        final(out)@ == with_json(old(out)@, *value),
    decreases value,
{
    match value {
        JsonValue::Null => out.append("n"),
        JsonValue::Bool(b) => if *b {
            out.append("t")
        } else {
            out.append("f")
        },
        JsonValue::Number(JsonNumber::Integer(i)) => {
            let digits: String = i64_to_string(*i);
            out.append("i");
            out.append(digits.as_str());
            out.append(";");
        },
        JsonValue::Number(JsonNumber::Decimal(text)) => {
            out.append("d");
            write_string(out, text);
        },
        JsonValue::String(s) => {
            out.append("s");
            write_string(out, s);
        },
        JsonValue::Array(items) => {
            out.append("a");
            write_count(out, items.len());
            let ghost start = out@;
            let mut index: usize = 0;
            while index < items.len()
                invariant
                    index <= items.len(),
                    value is Array,
                    *items == value->Array_0,
                    out@ == with_json_items(start, items@, index as nat),
                decreases items.len() - index,
            {
                write_json(out, &items[index]);
                index += 1;
            }
        },
        JsonValue::Object(members) => {
            out.append("o");
            write_count(out, members.len());
            let ghost start = out@;
            let mut index: usize = 0;
            while index < members.len()
                invariant
                    index <= members.len(),
                    value is Object,
                    *members == value->Object_0,
                    out@ == with_json_members(start, members@, index as nat),
                decreases members.len() - index,
            {
                write_string(out, &members[index].0);
                write_json(out, &members[index].1);
                index += 1;
            }
        },
    }
}

/// Writes a list of names.
fn write_names(out: &mut String, names: &Vec<String>)
    ensures
        final(out)@ == with_names(old(out)@, names@, names@.len()),
{
    let ghost start = out@;
    let mut index: usize = 0;
    while index < names.len()
        invariant
            index <= names.len(),
            out@ == with_names(start, names@, index as nat),
        decreases names.len() - index,
    {
        write_string(out, &names[index]);
        index += 1;
    }
}

/// Writes an optional path of nested fields.
fn write_field_path(out: &mut String, field_path: &Option<Vec<String>>)
    ensures
        final(out)@ == with_field_path(old(out)@, *field_path),
{
    match field_path {
        None => out.append("-"),
        Some(names) => {
            out.append("+");
            write_count(out, names.len());
            write_names(out, names);
        },
    }
}

/// Writes a list of named arguments.
fn write_arguments(out: &mut String, arguments: &Vec<(String, Argument)>)
    ensures
        final(out)@ == with_arguments(old(out)@, arguments@, arguments@.len()),
{
    let ghost start = out@;
    let mut index: usize = 0;
    while index < arguments.len()
        invariant
            index <= arguments.len(),
            out@ == with_arguments(start, arguments@, index as nat),
        decreases arguments.len() - index,
    {
        write_string(out, &arguments[index].0);
        match &arguments[index].1 {
            Argument::Variable { name } => {
                out.append("V");
                write_string(out, name);
            },
            Argument::Literal { value } => {
                out.append("L");
                write_json(out, value);
            },
        }
        index += 1;
    }
}

/// Writes a list of named arguments of a relationship.
fn write_relationship_arguments(out: &mut String, arguments: &Vec<(String, RelationshipArgument)>)
    ensures
        final(out)@ == with_relationship_arguments(old(out)@, arguments@, arguments@.len()),
{
    let ghost start = out@;
    let mut index: usize = 0;
    while index < arguments.len()
        invariant
            index <= arguments.len(),
            out@ == with_relationship_arguments(start, arguments@, index as nat),
        decreases arguments.len() - index,
    {
        write_string(out, &arguments[index].0);
        match &arguments[index].1 {
            RelationshipArgument::Variable { name } => {
                out.append("V");
                write_string(out, name);
            },
            RelationshipArgument::Literal { value } => {
                out.append("L");
                write_json(out, value);
            },
            RelationshipArgument::Column { name } => {
                out.append("C");
                write_string(out, name);
            },
        }
        index += 1;
    }
}

/// Writes a comparison target.
fn write_target(out: &mut String, target: &ComparisonTarget)
    ensures
        final(out)@ == with_target(old(out)@, *target),
    decreases target, 0nat,
{
    match target {
        ComparisonTarget::Column { name, path, field_path } => {
            out.append("c");
            write_string(out, name);
            write_count(out, path.len());
            write_hops(out, path);
            write_field_path(out, field_path);
        },
        ComparisonTarget::RootCollectionColumn { name, field_path } => {
            out.append("r");
            write_string(out, name);
            write_field_path(out, field_path);
        },
    }
}

/// Writes an optional predicate.
fn write_optional_predicate(out: &mut String, predicate: &Option<Box<Expression>>)
    ensures
        final(out)@ == with_optional_predicate(old(out)@, *predicate),
    decreases predicate, 0nat,
{
    match predicate {
        None => out.append("-"),
        Some(predicate) => {
            out.append("+");
            write_predicate(out, predicate);
        },
    }
}

/// Writes the collection of an `EXISTS`.
fn write_exists_in_collection(out: &mut String, in_collection: &ExistsInCollection)
    ensures
        final(out)@ == with_exists_in_collection(old(out)@, *in_collection),
{
    match in_collection {
        ExistsInCollection::Related { relationship, arguments } => {
            out.append("R");
            write_string(out, relationship);
            write_count(out, arguments.len());
            write_relationship_arguments(out, arguments);
        },
        ExistsInCollection::Unrelated { collection, arguments } => {
            out.append("U");
            write_string(out, collection);
            write_count(out, arguments.len());
            write_relationship_arguments(out, arguments);
        },
        ExistsInCollection::NestedCollection { column_name, arguments, field_path } => {
            out.append("N");
            write_string(out, column_name);
            write_count(out, arguments.len());
            write_arguments(out, arguments);
            write_count(out, field_path.len());
            write_names(out, field_path);
        },
    }
}

/// Writes a comparison value.
fn write_comparison_value(out: &mut String, value: &ComparisonValue)
    ensures
        final(out)@ == with_comparison_value(old(out)@, *value),
    decreases value, 0nat,
{
    match value {
        ComparisonValue::Column { column } => {
            out.append("C");
            write_target(out, column);
        },
        ComparisonValue::Scalar { value } => {
            out.append("S");
            write_json(out, value);
        },
        ComparisonValue::Variable { name } => {
            out.append("V");
            write_string(out, name);
        },
    }
}

/// Writes one hop along a relationship.
fn write_path_element(out: &mut String, element: &PathElement)
    ensures
        final(out)@ == with_path_element(old(out)@, *element),
    decreases element, 0nat,
{
    out.append("H");
    write_string(out, &element.relationship);
    write_count(out, element.arguments.len());
    write_relationship_arguments(out, &element.arguments);
    write_optional_predicate(out, &element.predicate);
}

/// Writes a predicate.
fn write_predicate(out: &mut String, predicate: &Expression)
    ensures
        final(out)@ == with_predicate(old(out)@, *predicate),
    decreases predicate, 0nat,
{
    match predicate {
        Expression::And { expressions } => {
            out.append("A");
            write_count(out, expressions.len());
            write_predicates(out, expressions);
        },
        Expression::Or { expressions } => {
            out.append("O");
            write_count(out, expressions.len());
            write_predicates(out, expressions);
        },
        Expression::Not { expression } => {
            out.append("N");
            write_predicate(out, expression);
        },
        Expression::UnaryComparisonOperator { column, operator } => {
            match operator {
                UnaryComparisonOperator::IsNull => out.append("U"),
            }
            write_target(out, column);
        },
        Expression::BinaryComparisonOperator { column, operator, value } => {
            out.append("B");
            write_target(out, column);
            write_string(out, operator);
            write_comparison_value(out, value);
        },
        Expression::Exists { in_collection, predicate } => {
            out.append("E");
            write_exists_in_collection(out, in_collection);
            write_optional_predicate(out, predicate);
        },
    }
}

/// Writes a list of predicates.
fn write_predicates(out: &mut String, predicates: &Vec<Expression>)
    ensures
        final(out)@ == with_predicates(old(out)@, predicates@, predicates@.len()),
    decreases predicates, 0nat,
{
    let ghost start = out@;
    let mut index: usize = 0;
    while index < predicates.len()
        invariant
            index <= predicates.len(),
            out@ == with_predicates(start, predicates@, index as nat),
        decreases predicates.len() - index,
    {
        write_predicate(out, &predicates[index]);
        index += 1;
    }
}

/// Writes the hops of a path.
fn write_hops(out: &mut String, path: &Vec<PathElement>)
    ensures
        final(out)@ == with_path(old(out)@, path@, path@.len()),
    decreases path, 0nat,
{
    let ghost start = out@;
    let mut index: usize = 0;
    while index < path.len()
        invariant
            index <= path.len(),
            out@ == with_path(start, path@, index as nat),
        decreases path.len() - index,
    {
        write_path_element(out, &path[index]);
        index += 1;
    }
}

/// Writes the text of a path.
pub fn write_path(path: &Vec<PathElement>) -> (text: String)
    ensures
        text@ == path_text(path@),
{
    let mut text = String::new();
    write_count(&mut text, path.len());
    write_hops(&mut text, path);
    text
}

} // verus!
