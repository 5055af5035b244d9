use discord_tui::json::{parse_json, JsonNumber, JsonValue};

fn text(s: &str) -> JsonValue {
    JsonValue::Text(s.to_string())
}

fn uint(n: u64) -> JsonValue {
    JsonValue::Number(JsonNumber::PosInt(n))
}

fn object(entries: Vec<(&str, JsonValue)>) -> JsonValue {
    JsonValue::Object(entries.into_iter().map(|(k, v)| (k.to_string(), v)).collect())
}

#[test]
fn get_finds_the_value_under_a_key() {
    let v = object(vec![("a", uint(1)), ("b", text("x")), ("c", JsonValue::Null)]);
    assert_eq!(v.get("b"), Some(&text("x")));
    assert_eq!(v.get("c"), Some(&JsonValue::Null));
    assert_eq!(v.get("a"), Some(&uint(1)));
}

#[test]
fn get_of_a_missing_key_is_none() {
    let v = object(vec![("a", uint(1))]);
    assert_eq!(v.get("b"), None);
    assert_eq!(object(vec![]).get("a"), None);
}

#[test]
fn get_of_a_non_object_is_none() {
    assert_eq!(uint(3).get("a"), None);
    assert_eq!(text("a").get("a"), None);
    assert_eq!(JsonValue::Array(vec![uint(1)]).get("a"), None);
    assert_eq!(JsonValue::Null.get("a"), None);
}

#[test]
fn get_takes_the_first_entry_of_a_key() {
    let v = object(vec![("k", uint(1)), ("k", uint(2))]);
    assert_eq!(v.get("k"), Some(&uint(1)));
}

#[test]
fn as_u64_reads_only_non_negative_integers() {
    assert_eq!(uint(42).as_u64(), Some(42));
    assert_eq!(uint(u64::MAX).as_u64(), Some(u64::MAX));
    assert_eq!(JsonValue::Number(JsonNumber::NegInt(-1)).as_u64(), None);
    assert_eq!(JsonValue::Number(JsonNumber::Float(serde_json::Number::from_f64(1.5).unwrap())).as_u64(), None);
    assert_eq!(text("42").as_u64(), None);
    assert_eq!(JsonValue::Bool(true).as_u64(), None);
}

#[test]
fn object_builders_keep_the_order_given() {
    assert_eq!(JsonValue::empty_object(), object(vec![]));
    assert_eq!(JsonValue::object1("a", uint(1)), object(vec![("a", uint(1))]));
    assert_eq!(
        JsonValue::object2("a", uint(1), "b", uint(2)),
        object(vec![("a", uint(1)), ("b", uint(2))])
    );
    assert_eq!(
        JsonValue::object3("a", uint(1), "b", uint(2), "c", uint(3)),
        object(vec![("a", uint(1)), ("b", uint(2)), ("c", uint(3))])
    );
}

#[test]
fn parse_json_reads_text() {
    let v = parse_json(r#"{"op":11,"d":null}"#).unwrap();
    assert_eq!(v, object(vec![("d", JsonValue::Null), ("op", uint(11))]));
    assert_eq!(
        parse_json(r#"[true, -3, 2.5, "x", {}]"#).unwrap(),
        JsonValue::Array(vec![
            JsonValue::Bool(true),
            JsonValue::Number(JsonNumber::NegInt(-3)),
            JsonValue::Number(JsonNumber::Float(serde_json::Number::from_f64(2.5).unwrap())),
            text("x"),
            object(vec![]),
        ])
    );
}

#[test]
fn parse_json_keeps_the_last_of_repeated_keys_and_sorts_keys() {
    assert_eq!(
        parse_json(r#"{"b":1,"a":2,"b":3}"#).unwrap(),
        object(vec![("a", uint(2)), ("b", uint(3))])
    );
}

#[test]
fn parse_json_rejects_non_json() {
    assert!(parse_json("not json").is_err());
    assert!(parse_json("{\"op\":").is_err());
    assert!(parse_json("").is_err());
}

#[test]
fn to_text_writes_compact_json() {
    let v = object(vec![("op", uint(1)), ("d", JsonValue::Null)]);
    assert_eq!(v.to_text(), r#"{"d":null,"op":1}"#);
    assert_eq!(
        JsonValue::Array(vec![JsonValue::Number(JsonNumber::Float(serde_json::Number::from_f64(2.5).unwrap())), text("a\"b")])
            .to_text(),
        r#"[2.5,"a\"b"]"#
    );
}

#[test]
fn to_pretty_text_indents() {
    let v = object(vec![("op", uint(11))]);
    assert_eq!(v.to_pretty_text(), "{\n  \"op\": 11\n}");
}

#[test]
fn text_round_trip() {
    for t in [r#"{"d":{"heartbeat_interval":41250},"op":10}"#, r#"[1,-2,3.25,null,false,"s"]"#] {
        assert_eq!(parse_json(t).unwrap().to_text(), t);
    }
}
