//! What is done with the rows that the database returns: the value of each
//! attribute is written as text, and the rows are put into the shape of a
//! response.

use crate::json::{json_list_view, json_members_view, JsonValue, JsonValueView};
use vstd::prelude::*;

verus! {

/// The base64 text of a sequence of bytes, in the standard alphabet and with
/// padding.
pub uninterp spec fn base64_standard(bytes: Seq<u8>) -> Seq<char>;

/// `Engine::encode` of `base64::engine::general_purpose::STANDARD`: the
/// base64 text of the bytes.
#[verifier::external_body]
fn encode_base64(bytes: &Vec<u8>) -> (text: String)
    ensures
        text@ == base64_standard(bytes@),
{
    base64::Engine::encode(&base64::engine::general_purpose::STANDARD, bytes)
}

/// The value of an attribute of a row, by its kind. A member of a map or of
/// a list is held as its printed form.
#[derive(Debug)]
pub enum AttributeValue {
    /// A string.
    S(String),
    /// A number, in decimal.
    N(String),
    Bool(bool),
    Null,
    /// Bytes.
    B(Vec<u8>),
    /// A set of strings.
    Ss(Vec<String>),
    /// A set of numbers.
    Ns(Vec<String>),
    /// A set of byte strings.
    Bs(Vec<Vec<u8>>),
    /// A map, by key.
    M(Vec<(String, String)>),
    /// A list.
    L(Vec<String>),
    /// A value of a kind that is not known.
    Unknown,
}

pub enum AttributeValueView {
    S(Seq<char>),
    N(Seq<char>),
    Bool(bool),
    Null,
    B(Seq<u8>),
    Ss(Seq<Seq<char>>),
    Ns(Seq<Seq<char>>),
    Bs(Seq<Seq<u8>>),
    M(Seq<(Seq<char>, Seq<char>)>),
    L(Seq<Seq<char>>),
    Unknown,
}

impl View for AttributeValue {
    type V = AttributeValueView;

    open spec fn view(&self) -> AttributeValueView {
        match self {
            AttributeValue::S(s) => AttributeValueView::S(s@),
            AttributeValue::N(n) => AttributeValueView::N(n@),
            AttributeValue::Bool(b) => AttributeValueView::Bool(*b),
            AttributeValue::Null => AttributeValueView::Null,
            AttributeValue::B(bytes) => AttributeValueView::B(bytes@),
            AttributeValue::Ss(items) => AttributeValueView::Ss(items@.map_values(|s: String| s@)),
            AttributeValue::Ns(items) => AttributeValueView::Ns(items@.map_values(|s: String| s@)),
            AttributeValue::Bs(items) => AttributeValueView::Bs(
                items@.map_values(|b: Vec<u8>| b@),
            ),
            AttributeValue::M(members) => AttributeValueView::M(
                members@.map_values(|m: (String, String)| (m.0@, m.1@)),
            ),
            AttributeValue::L(items) => AttributeValueView::L(items@.map_values(|s: String| s@)),
        AttributeValue::Unknown => AttributeValueView::Unknown,
        }
    }
}

/// The first `count` texts with a comma and a space between each two.
pub open spec fn comma_separated(texts: Seq<Seq<char>>, count: nat) -> Seq<char>
    decreases count,
{
    if 0 < count <= texts.len() {
        if count == 1 {
            texts[0]
        } else {
            comma_separated(texts, (count - 1) as nat) + ", "@ + texts[count - 1]
        }
    } else {
        Seq::empty()
    }
}

/// The first `count` texts, each followed by a comma and a space.
pub open spec fn comma_terminated(texts: Seq<Seq<char>>, count: nat) -> Seq<char>
    decreases count,
{
    if 0 < count <= texts.len() {
        comma_terminated(texts, (count - 1) as nat) + texts[count - 1] + ", "@
    } else {
        Seq::empty()
    }
}

/// The text of an attribute value, where it has one: a string and a number
/// as they are, a boolean as `true` or `false`, null as `null`, bytes in
/// base64, a set with commas between its members, a map between braces with
/// `key: value, ` for each member, and a list between brackets with
/// `value, ` for each member. A value of a kind that is not known has no
/// text.
pub open spec fn decoded(value: AttributeValueView) -> Option<Seq<char>> {
    match value {
        AttributeValueView::S(s) => Some(s),
        AttributeValueView::N(n) => Some(n),
        AttributeValueView::Bool(b) => Some(
            if b {
                "true"@
            } else {
                "false"@
            },
        ),
        AttributeValueView::Null => Some("null"@),
        AttributeValueView::B(bytes) => Some(base64_standard(bytes)),
        AttributeValueView::Ss(items) => Some(comma_separated(items, items.len())),
        AttributeValueView::Ns(items) => Some(comma_separated(items, items.len())),
        AttributeValueView::Bs(items) => Some(
            comma_separated(items.map_values(|b: Seq<u8>| base64_standard(b)), items.len()),
        ),
        AttributeValueView::M(members) => Some(
            "{"@ + comma_terminated(
                members.map_values(|m: (Seq<char>, Seq<char>)| m.0 + ": "@ + m.1),
                members.len(),
            ) + "}"@,
        ),
        AttributeValueView::L(items) => Some("["@ + comma_terminated(items, items.len()) + "]"@),
        AttributeValueView::Unknown => None,
    }
}

/// The attributes of a row that have a text, each under its name, in the
/// order of the row: those among the first `count`.
pub open spec fn decoded_row(item: Seq<(Seq<char>, AttributeValueView)>, count: nat) -> Seq<
    (Seq<char>, Seq<char>),
>
    decreases count,
{
    if 0 < count <= item.len() {
        let before = decoded_row(item, (count - 1) as nat);
        match decoded(item[count - 1].1) {
            Some(text) => before.push((item[count - 1].0, text)),
            None => before,
        }
    } else {
        Seq::empty()
    }
}

/// The view of a row as the database returns it.
pub open spec fn item_view(item: Seq<(String, AttributeValue)>) -> Seq<
    (Seq<char>, AttributeValueView),
> {
    item.map_values(|a: (String, AttributeValue)| (a.0@, a.1@))
}

/// The view of a row of texts.
pub open spec fn texts_view(row: Seq<(String, String)>) -> Seq<(Seq<char>, Seq<char>)> {
    row.map_values(|a: (String, String)| (a.0@, a.1@))
}

/// The JSON object of a row of texts: each attribute a string.
pub open spec fn row_object(row: Seq<(Seq<char>, Seq<char>)>) -> JsonValueView {
    JsonValueView::Object(
        row.map_values(|a: (Seq<char>, Seq<char>)| (a.0, JsonValueView::String(a.1))),
    )
}

/// The response for the rows of a query: an array that holds one object,
/// whose member `rows` is the array of the rows.
pub open spec fn response_of(rows: Seq<Seq<(Seq<char>, Seq<char>)>>) -> JsonValueView {
    JsonValueView::Array(
        seq![
            JsonValueView::Object(
                seq![
                    (
                        "rows"@,
                        JsonValueView::Array(
                            rows.map_values(|r: Seq<(Seq<char>, Seq<char>)>| row_object(r)),
                        ),
                    ),
                ],
            ),
        ],
    )
}

/// The limit of a statement as a signed number of 32 bits, as the database
/// takes it: a limit above the largest such number wraps around.
pub open spec fn wrapped_limit(limit: u32) -> i32 {
    if limit <= i32::MAX {
        limit as i32
    } else {
        (limit - 0x1_0000_0000) as i32
    }
}

/// The limit of a statement as the database takes it.
pub fn statement_limit(limit: Option<u32>) -> (wrapped: Option<i32>)
    ensures
        match limit {
            Some(limit) => wrapped == Some(wrapped_limit(limit)),
            None => wrapped is None,
        },
{
    match limit {
        Some(limit) => {
            if limit <= 2147483647 {
                Some(limit as i32)
            } else {
                let wide: i64 = (limit as i64) - 4294967296;
                Some(wide as i32)
            }
        },
        None => None,
    }
}

/// Writes texts one after the other, with a comma and a space between each
/// two.
fn join_texts(texts: &Vec<String>) -> (joined: String)
    ensures
        joined@ == comma_separated(texts@.map_values(|s: String| s@), texts@.len()),
{
    let ghost views = texts@.map_values(|s: String| s@);
    let mut joined = String::new();
    let mut index: usize = 0;
    while index < texts.len()
        invariant
            index <= texts.len(),
            views == texts@.map_values(|s: String| s@),
            joined@ == comma_separated(views, index as nat),
        decreases texts.len() - index,
    {
        if index > 0 {
            joined.append(", ");
        }
        joined.append(texts[index].as_str());
        assert(joined@ =~= comma_separated(views, (index + 1) as nat));
        index += 1;
    }
    joined
}

/// Writes texts one after the other, each followed by a comma and a space.
fn terminate_texts(texts: &Vec<String>) -> (joined: String)
    ensures
        joined@ == comma_terminated(texts@.map_values(|s: String| s@), texts@.len()),
{
    let ghost views = texts@.map_values(|s: String| s@);
    let mut joined = String::new();
    let mut index: usize = 0;
    while index < texts.len()
        invariant
            index <= texts.len(),
            views == texts@.map_values(|s: String| s@),
            joined@ == comma_terminated(views, index as nat),
        decreases texts.len() - index,
    {
        joined.append(texts[index].as_str());
        joined.append(", ");
        assert(joined@ =~= comma_terminated(views, (index + 1) as nat));
        index += 1;
    }
    joined
}

/// Writes the value of an attribute as text, where it has one.
pub fn decode_value(value: &AttributeValue) -> (text: Option<String>)
    ensures
        crate::metadata::database::optional_text(text) == decoded(value@),
{
    match value {
        AttributeValue::S(s) => Some(s.clone()),
        AttributeValue::N(n) => Some(n.clone()),
        AttributeValue::Bool(b) => Some(
            if *b {
                String::from_str("true")
            } else {
                String::from_str("false")
            },
        ),
        AttributeValue::Null => Some(String::from_str("null")),
        AttributeValue::B(bytes) => Some(encode_base64(bytes)),
        AttributeValue::Ss(items) => Some(join_texts(items)),
        AttributeValue::Ns(items) => Some(join_texts(items)),
        AttributeValue::Bs(items) => {
            let mut encoded: Vec<String> = Vec::new();
            let mut index: usize = 0;
            while index < items.len()
                invariant
                    index <= items.len(),
                    encoded@.len() == index,
                    forall|i: int|
                        0 <= i < index ==> (#[trigger] encoded@[i])@ == base64_standard(items@[i]@),
                decreases items.len() - index,
            {
                encoded.push(encode_base64(&items[index]));
                index += 1;
            }
            assert(encoded@.map_values(|s: String| s@) =~= items@.map_values(|b: Vec<u8>| b@).map_values(
                |b: Seq<u8>| base64_standard(b),
            ));
            Some(join_texts(&encoded))
        },
        AttributeValue::M(members) => {
            let mut entries: Vec<String> = Vec::new();
            let mut index: usize = 0;
            while index < members.len()
                invariant
                    index <= members.len(),
                    entries@.len() == index,
                    forall|i: int|
                        0 <= i < index ==> (#[trigger] entries@[i])@ == members@[i].0@ + ": "@
                            + members@[i].1@,
                decreases members.len() - index,
            {
                entries.push(
                    members[index].0.clone().concat(": ").concat(members[index].1.as_str()),
                );
                index += 1;
            }
            assert(entries@.map_values(|s: String| s@) =~= members@.map_values(
                |m: (String, String)| (m.0@, m.1@),
            ).map_values(|m: (Seq<char>, Seq<char>)| m.0 + ": "@ + m.1));
            let inner = terminate_texts(&entries);
            Some(String::from_str("{").concat(inner.as_str()).concat("}"))
        },
        AttributeValue::L(items) => {
            let inner = terminate_texts(items);
            Some(String::from_str("[").concat(inner.as_str()).concat("]"))
        },
        AttributeValue::Unknown => None,
    }
}

/// Writes the attributes of a row as texts. An attribute of a kind that is
/// not known is left out.
pub fn decode_row(item: &Vec<(String, AttributeValue)>) -> (row: Vec<(String, String)>)
    ensures
        texts_view(row@) == decoded_row(item_view(item@), item@.len()),
{
    let ghost views = item_view(item@);
    let mut row: Vec<(String, String)> = Vec::new();
    let mut index: usize = 0;
    assert(texts_view(row@) =~= Seq::empty());
    while index < item.len()
        invariant
            index <= item.len(),
            views == item_view(item@),
            texts_view(row@) == decoded_row(views, index as nat),
        decreases item.len() - index,
    {
        let ghost before = texts_view(row@);
        match decode_value(&item[index].1) {
            Some(text) => {
                row.push((item[index].0.clone(), text));
                assert(texts_view(row@) =~= before.push((views[index as int].0, text@)));
            },
            None => {},
        }
        index += 1;
    }
    row
}

/// Puts the rows of a query into the shape of a response.
pub fn rows_response(rows: &Vec<Vec<(String, String)>>) -> (response: JsonValue)
    ensures
        response@ == response_of(rows@.map_values(|r: Vec<(String, String)>| texts_view(r@))),
{
    let ghost views = rows@.map_values(|r: Vec<(String, String)>| texts_view(r@));
    let mut objects: Vec<JsonValue> = Vec::new();
    let mut index: usize = 0;
    while index < rows.len()
        invariant
            index <= rows.len(),
            views == rows@.map_values(|r: Vec<(String, String)>| texts_view(r@)),
            objects@.len() == index,
            forall|i: int| 0 <= i < index ==> (#[trigger] objects@[i])@ == row_object(views[i]),
        decreases rows.len() - index,
    {
        let row = &rows[index];
        let mut members: Vec<(String, JsonValue)> = Vec::new();
        let mut position: usize = 0;
        while position < row.len()
            invariant
                position <= row.len(),
                members@.len() == position,
                forall|i: int|
                    0 <= i < position ==> (#[trigger] members@[i]).0@ == row@[i].0@
                        && members@[i].1@ == JsonValueView::String(row@[i].1@),
            decreases row.len() - position,
        {
            members.push((row[position].0.clone(), JsonValue::String(row[position].1.clone())));
            position += 1;
        }
        let object = JsonValue::Object(members);
        assert(json_members_view(members@) =~= texts_view(row@).map_values(
            |a: (Seq<char>, Seq<char>)| (a.0, JsonValueView::String(a.1)),
        ));
        objects.push(object);
        index += 1;
    }
    let list = JsonValue::Array(objects);
    assert(json_list_view(objects@) =~= views.map_values(
        |r: Seq<(Seq<char>, Seq<char>)>| row_object(r),
    ));
    let mut members: Vec<(String, JsonValue)> = Vec::new();
    members.push((String::from_str("rows"), list));
    assert(json_members_view(members@) =~= seq![("rows"@, list@)]);
    let row_value = JsonValue::Object(members);
    let mut values: Vec<JsonValue> = Vec::new();
    values.push(row_value);
    assert(json_list_view(values@) =~= seq![row_value@]);
    JsonValue::Array(values)
}

} // verus!
