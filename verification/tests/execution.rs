use ndc_dynamodb::execution::{
    decode_row, decode_value, rows_response, statement_limit, AttributeValue,
};
use ndc_dynamodb::json::JsonValue;

#[test]
fn values_are_written_as_text() {
    assert_eq!(decode_value(&AttributeValue::S("it".to_string())), Some("it".to_string()));
    assert_eq!(decode_value(&AttributeValue::N("12.5".to_string())), Some("12.5".to_string()));
    assert_eq!(decode_value(&AttributeValue::Bool(true)), Some("true".to_string()));
    assert_eq!(decode_value(&AttributeValue::Bool(false)), Some("false".to_string()));
    assert_eq!(decode_value(&AttributeValue::Null), Some("null".to_string()));
    assert_eq!(decode_value(&AttributeValue::Unknown), None);
}

#[test]
fn bytes_are_written_in_base64() {
    assert_eq!(decode_value(&AttributeValue::B(b"hi".to_vec())), Some("aGk=".to_string()));
    assert_eq!(decode_value(&AttributeValue::B(vec![])), Some("".to_string()));
    assert_eq!(
        decode_value(&AttributeValue::B(vec![0xfb, 0xff, 0xfe])),
        Some("+//+".to_string())
    );
    assert_eq!(
        decode_value(&AttributeValue::Bs(vec![b"hi".to_vec(), b"hello".to_vec()])),
        Some("aGk=, aGVsbG8=".to_string())
    );
    assert_eq!(decode_value(&AttributeValue::Bs(vec![])), Some("".to_string()));
}

#[test]
fn sets_are_separated_by_commas() {
    let set = vec!["a".to_string(), "b".to_string(), "c".to_string()];
    assert_eq!(decode_value(&AttributeValue::Ss(set.clone())), Some("a, b, c".to_string()));
    assert_eq!(decode_value(&AttributeValue::Ns(set)), Some("a, b, c".to_string()));
    assert_eq!(decode_value(&AttributeValue::Ss(vec!["a".to_string()])), Some("a".to_string()));
    assert_eq!(decode_value(&AttributeValue::Ns(vec![])), Some("".to_string()));
}

#[test]
fn maps_and_lists_are_written_with_their_members() {
    assert_eq!(
        decode_value(&AttributeValue::M(vec![
            ("a".to_string(), "S(\"x\")".to_string()),
            ("b".to_string(), "N(\"1\")".to_string()),
        ])),
        Some("{a: S(\"x\"), b: N(\"1\"), }".to_string())
    );
    assert_eq!(decode_value(&AttributeValue::M(vec![])), Some("{}".to_string()));
    assert_eq!(
        decode_value(&AttributeValue::L(vec!["S(\"x\")".to_string(), "Null(true)".to_string()])),
        Some("[S(\"x\"), Null(true), ]".to_string())
    );
    assert_eq!(decode_value(&AttributeValue::L(vec![])), Some("[]".to_string()));
}

#[test]
fn rows_leave_unknown_values_out() {
    let row = decode_row(&vec![
        ("id".to_string(), AttributeValue::S("1".to_string())),
        ("odd".to_string(), AttributeValue::Unknown),
        ("paid".to_string(), AttributeValue::Bool(false)),
    ]);
    assert_eq!(
        row,
        [("id".to_string(), "1".to_string()), ("paid".to_string(), "false".to_string())]
    );
    assert!(decode_row(&vec![]).is_empty());
}

#[test]
fn rows_are_put_into_a_response() {
    let response = rows_response(&vec![
        vec![("id".to_string(), "1".to_string()), ("name".to_string(), "Ann".to_string())],
        vec![],
    ]);
    let JsonValue::Array(outer) = response else { panic!("the response is an array") };
    assert_eq!(outer.len(), 1);
    let JsonValue::Object(members) = &outer[0] else { panic!("the array holds an object") };
    assert_eq!(members.len(), 1);
    assert_eq!(members[0].0, "rows");
    let JsonValue::Array(rows) = &members[0].1 else { panic!("the rows are an array") };
    assert_eq!(rows.len(), 2);
    let JsonValue::Object(first) = &rows[0] else { panic!("a row is an object") };
    assert_eq!(first.len(), 2);
    assert_eq!(first[0].0, "id");
    assert!(matches!(&first[0].1, JsonValue::String(text) if text == "1"));
    assert_eq!(first[1].0, "name");
    assert!(matches!(&first[1].1, JsonValue::String(text) if text == "Ann"));
    assert!(matches!(&rows[1], JsonValue::Object(members) if members.is_empty()));
    let JsonValue::Array(outer) = rows_response(&vec![]) else { panic!("the response is an array") };
    let JsonValue::Object(members) = &outer[0] else { panic!("the array holds an object") };
    assert!(matches!(&members[0].1, JsonValue::Array(rows) if rows.is_empty()));
}

#[test]
fn limits_wrap_around() {
    assert_eq!(statement_limit(None), None);
    assert_eq!(statement_limit(Some(0)), Some(0));
    assert_eq!(statement_limit(Some(10)), Some(10));
    assert_eq!(statement_limit(Some(2147483647)), Some(2147483647));
    assert_eq!(statement_limit(Some(2147483648)), Some(-2147483648));
    assert_eq!(statement_limit(Some(4294967295)), Some(-1));
}
