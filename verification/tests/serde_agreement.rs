use discord_tui::event::{ConnectionProperties, Duration, Event};
use discord_tui::json::{JsonNumber, JsonValue};
use serde_json::Value;

fn to_serde(v: &JsonValue) -> Value {
    match v {
        JsonValue::Null => Value::Null,
        JsonValue::Bool(b) => Value::Bool(*b),
        JsonValue::Number(JsonNumber::PosInt(u)) => Value::from(*u),
        JsonValue::Number(JsonNumber::NegInt(i)) => Value::from(*i),
        JsonValue::Number(JsonNumber::Float(f)) => Value::Number(f.clone()),
        JsonValue::Text(s) => Value::String(s.clone()),
        JsonValue::Array(a) => Value::Array(a.iter().map(to_serde).collect()),
        JsonValue::Object(m) => {
            Value::Object(m.iter().map(|(k, v)| (k.clone(), to_serde(v))).collect::<serde_json::Map<_, _>>())
        }
    }
}

fn keys(v: &JsonValue) -> Vec<String> {
    match v {
        JsonValue::Object(m) => m.iter().map(|(k, _)| k.clone()).collect(),
        _ => vec![],
    }
}

#[test]
fn duration_json_matches_serde() {
    let ours = Duration::from_millis(41250).to_json();
    let theirs = serde_json::to_value(std::time::Duration::from_millis(41250)).unwrap();
    assert_eq!(to_serde(&ours), theirs);
    let serde_keys: Vec<String> = theirs.as_object().unwrap().keys().cloned().collect();
    assert_eq!(keys(&ours), serde_keys);
}

#[test]
fn encoded_events_list_keys_as_serde_maps_do() {
    let events = vec![
        Event::heartbeat(Some(3)),
        Event::identify("tok".to_string(), ConnectionProperties::default(), 50),
        Event::hello(Duration::from_millis(1)),
        Event::HeartbeatACK,
    ];
    for e in events {
        let ours = e.to_json();
        let theirs = to_serde(&ours);
        let serde_keys: Vec<String> = theirs.as_object().unwrap().keys().cloned().collect();
        assert_eq!(keys(&ours), serde_keys);
    }
}

#[test]
fn identify_text_on_the_wire() {
    let e = Event::identify("tok".to_string(), ConnectionProperties::default(), 50);
    assert_eq!(
        to_serde(&e.to_json()).to_string(),
        r#"{"d":{"large_threshold":50,"properties":{"browser":"chrome","device":"pc","os":"linux"},"token":"tok"},"op":2}"#
    );
}

#[test]
fn heartbeat_text_on_the_wire() {
    assert_eq!(to_serde(&Event::heartbeat(None).to_json()).to_string(), r#"{"d":null,"op":1}"#);
}
