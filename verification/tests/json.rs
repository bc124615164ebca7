use claude_mem_worker::json::{parse_json, JsonValue};

#[test]
fn members_and_strings_are_read_from_objects() {
    let v = parse_json(r#"{"a":"x","n":42,"arr":[1,2]}"#).unwrap();
    assert_eq!(v.get("a").and_then(|x| x.as_str()).map(String::as_str), Some("x"));
    assert_eq!(v.get("n").and_then(|x| x.as_i64()), Some(42));
    assert_eq!(v.get("arr").and_then(|x| x.as_array()).map(|a| a.len()), Some(2));
    assert!(v.get("missing").is_none());
    assert!(parse_json("not json").is_err());
    assert!(matches!(parse_json("null").unwrap(), JsonValue::Null));
}
