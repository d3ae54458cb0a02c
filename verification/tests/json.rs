use openidconnect::json::{parse, to_bytes, JsonError, JsonValue};

#[test]
fn parse_reads_members_in_key_order() {
    let doc = parse(b"{\"b\": [1, -2, 1.5, \"x\", null, true], \"a\": {}}").unwrap();
    match doc {
        JsonValue::Object(members) => {
            assert_eq!(members.len(), 2);
            assert_eq!(members[0].0, "a");
            assert_eq!(members[1].0, "b");
            match &members[1].1 {
                JsonValue::Array(items) => {
                    assert!(matches!(items[0], JsonValue::Unsigned(1)));
                    assert!(matches!(items[1], JsonValue::Negative(-2)));
                    assert!(matches!(&items[2], JsonValue::Real(t) if t == "1.5"));
                    assert!(matches!(&items[3], JsonValue::Text(t) if t == "x"));
                    assert!(matches!(items[4], JsonValue::Null));
                    assert!(matches!(items[5], JsonValue::Bool(true)));
                }
                _ => panic!("not an array"),
            }
        }
        _ => panic!("not an object"),
    }
}

#[test]
fn parse_rejects_what_is_no_json() {
    assert!(matches!(parse(b"{\"a\": "), Err(JsonError::Syntax(_))));
    assert!(matches!(parse(b""), Err(JsonError::Syntax(_))));
}

#[test]
fn to_bytes_writes_compact_text() {
    let doc = JsonValue::Object(vec![
        ("n".to_string(), JsonValue::Unsigned(7)),
        ("m".to_string(), JsonValue::Negative(-7)),
        ("r".to_string(), JsonValue::Real("2.5".to_string())),
        ("t".to_string(), JsonValue::Array(vec![JsonValue::Text("a\"b".to_string()), JsonValue::Null])),
    ]);
    let bytes = to_bytes(&doc).unwrap();
    assert_eq!(
        String::from_utf8(bytes).unwrap(),
        "{\"m\":-7,\"n\":7,\"r\":2.5,\"t\":[\"a\\\"b\",null]}"
    );
}

#[test]
fn to_bytes_refuses_a_number_that_is_none() {
    let doc = JsonValue::Array(vec![JsonValue::Real("abc".to_string())]);
    assert!(matches!(to_bytes(&doc), Err(JsonError::Number(_))));
}
