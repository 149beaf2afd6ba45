//! JSON values as they occur in query requests: literals of comparisons and
//! arguments.

use vstd::prelude::*;

verus! {

/// A JSON number. One that is not an integer of 64 bits is carried as its
/// decimal text.
#[derive(Debug)]
pub enum JsonNumber {
    Integer(i64),
    Decimal(String),
}

/// A JSON value. An object keeps its members in the order they were given.
#[derive(Debug)]
pub enum JsonValue {
    Null,
    Bool(bool),
    Number(JsonNumber),
    String(String),
    Array(Vec<JsonValue>),
    Object(Vec<(String, JsonValue)>),
}

pub enum JsonNumberView {
    Integer(i64),
    Decimal(Seq<char>),
}

pub enum JsonValueView {
    Null,
    Bool(bool),
    Number(JsonNumberView),
    String(Seq<char>),
    Array(Seq<JsonValueView>),
    Object(Seq<(Seq<char>, JsonValueView)>),
}

impl View for JsonNumber {
    type V = JsonNumberView;

    open spec fn view(&self) -> JsonNumberView {
        match self {
            JsonNumber::Integer(i) => JsonNumberView::Integer(*i),
            JsonNumber::Decimal(text) => JsonNumberView::Decimal(text@),
        }
    }
}

/// The mathematical value of a JSON value.
pub open spec fn json_view(value: JsonValue) -> JsonValueView
    decreases value,
{
    match value {
        JsonValue::Null => JsonValueView::Null,
        JsonValue::Bool(b) => JsonValueView::Bool(b),
        JsonValue::Number(n) => JsonValueView::Number(n@),
        JsonValue::String(s) => JsonValueView::String(s@),
        JsonValue::Array(items) => JsonValueView::Array(json_list_view(items@)),
        JsonValue::Object(members) => JsonValueView::Object(json_members_view(members@)),
    }
}

/// The values of a list of JSON values, in order.
pub open spec fn json_list_view(items: Seq<JsonValue>) -> Seq<JsonValueView>
    decreases items,
{
    Seq::new(
        items.len(),
        |i: int|
            if 0 <= i < items.len() {
                json_view(items[i])
            } else {
                JsonValueView::Null
            },
    )
}

/// The members of a JSON object, in order.
pub open spec fn json_members_view(members: Seq<(String, JsonValue)>) -> Seq<
    (Seq<char>, JsonValueView),
>
    decreases members,
{
    Seq::new(
        members.len(),
        |i: int|
            if 0 <= i < members.len() {
                (members[i].0@, json_view(members[i].1))
            } else {
                (Seq::empty(), JsonValueView::Null)
            },
    )
}

impl View for JsonValue {
    type V = JsonValueView;

    open spec fn view(&self) -> JsonValueView {
        json_view(*self)
    }
}

impl Clone for JsonNumber {
    fn clone(&self) -> (copy: Self)
        ensures
            copy@ == self@,
    {
        match self {
            JsonNumber::Integer(i) => JsonNumber::Integer(*i),
            JsonNumber::Decimal(text) => JsonNumber::Decimal(text.clone()),
        }
    }
}

impl Clone for JsonValue {
    fn clone(&self) -> (copy: Self)
        ensures
            copy@ == self@,
    {
        copy_json(self)
    }
}

/// A copy of a JSON value, with the same mathematical value.
pub fn copy_json(value: &JsonValue) -> (copy: JsonValue)
    ensures
        copy@ == value@,
    decreases value,
{
    match value {
        JsonValue::Null => JsonValue::Null,
        JsonValue::Bool(b) => JsonValue::Bool(*b),
        JsonValue::Number(n) => JsonValue::Number(n.clone()),
        JsonValue::String(s) => JsonValue::String(s.clone()),
        JsonValue::Array(items) => {
            let mut copies: Vec<JsonValue> = Vec::new();
            let mut i: usize = 0;
            while i < items.len()
                invariant
                    0 <= i <= items.len(),
                    value is Array,
                    *items == value->Array_0,
                    copies.len() == i,
                    forall|j: int| 0 <= j < i ==> copies[j]@ == items[j]@,
                decreases items.len() - i,
            {
                copies.push(copy_json(&items[i]));
                i += 1;
            }
            assert(json_list_view(copies@) =~= json_list_view(items@));
            JsonValue::Array(copies)
        },
        JsonValue::Object(members) => {
            let mut copies: Vec<(String, JsonValue)> = Vec::new();
            let mut i: usize = 0;
            while i < members.len()
                invariant
                    0 <= i <= members.len(),
                    value is Object,
                    *members == value->Object_0,
                    copies.len() == i,
                    forall|j: int|
                        0 <= j < i ==> copies[j].0@ == members[j].0@ && copies[j].1@
                            == members[j].1@,
                decreases members.len() - i,
            {
                copies.push((members[i].0.clone(), copy_json(&members[i].1)));
                i += 1;
            }
            assert(json_members_view(copies@) =~= json_members_view(members@));
            JsonValue::Object(copies)
        },
    }
}

} // verus!
