use discord_tui::event::{
    ConnectionProperties, Duration, Event, Heartbeat, Hello, Identify, TryFromJSONError,
};
use discord_tui::json::{parse_json, JsonNumber, JsonValue};

fn text(s: &str) -> JsonValue {
    JsonValue::Text(s.to_string())
}

fn uint(n: u64) -> JsonValue {
    JsonValue::Number(JsonNumber::PosInt(n))
}

fn object(entries: Vec<(&str, JsonValue)>) -> JsonValue {
    JsonValue::Object(entries.into_iter().map(|(k, v)| (k.to_string(), v)).collect())
}

fn hello_payload(millis: u64) -> JsonValue {
    object(vec![
        ("d", object(vec![("heartbeat_interval", uint(millis))])),
        ("op", uint(10)),
    ])
}

#[test]
fn duration_from_millis_splits_seconds_and_nanos() {
    assert_eq!(Duration::from_millis(41250), Duration { secs: 41, nanos: 250_000_000 });
    assert_eq!(Duration::from_millis(0), Duration { secs: 0, nanos: 0 });
    assert_eq!(Duration::from_millis(999), Duration { secs: 0, nanos: 999_000_000 });
    assert_eq!(
        Duration::from_millis(u64::MAX),
        Duration { secs: u64::MAX / 1000, nanos: 615_000_000 }
    );
}

#[test]
fn duration_millis_round_trip() {
    for ms in [0u64, 1, 999, 1000, 41250, 45000, u64::MAX] {
        assert_eq!(Duration::from_millis(ms).as_millis(), ms as u128);
    }
    assert_eq!(Duration { secs: 2, nanos: 1_999_999 }.as_millis(), 2001);
}

#[test]
fn duration_agrees_with_std() {
    for ms in [0u64, 7, 41250, 123_456_789] {
        let d = Duration::from_millis(ms);
        let s = std::time::Duration::from_millis(ms);
        assert_eq!(d.secs, s.as_secs());
        assert_eq!(d.nanos, s.subsec_nanos());
    }
}

#[test]
fn default_connection_properties() {
    let p = ConnectionProperties::default();
    assert_eq!(p.os, "linux");
    assert_eq!(p.browser, "chrome");
    assert_eq!(p.device, "pc");
}

#[test]
fn connection_properties_as_json() {
    let p = ConnectionProperties {
        os: "os".to_string(),
        browser: "br".to_string(),
        device: "dev".to_string(),
    };
    assert_eq!(
        p.into_json(),
        object(vec![("browser", text("br")), ("device", text("dev")), ("os", text("os"))])
    );
}

#[test]
fn constructors_build_their_variants() {
    let d = Duration::from_millis(5);
    assert_eq!(Event::hello(d), Event::Hello(Hello { heartbeat_interval: d }));
    assert_eq!(
        Event::heartbeat(Some(3)),
        Event::Heartbeat(Heartbeat { last_sequence_number: Some(3) })
    );
    match Event::identify("tok".to_string(), ConnectionProperties::default(), 50) {
        Event::Identify(Identify { token, properties, large_threshold }) => {
            assert_eq!(token, "tok");
            assert_eq!(properties, ConnectionProperties::default());
            assert_eq!(large_threshold, 50);
        }
        other => panic!("not an identify: {:?}", other),
    }
}

#[test]
fn op_codes() {
    assert_eq!(Event::heartbeat(None).op(), 1);
    assert_eq!(Event::identify(String::new(), ConnectionProperties::default(), 0).op(), 2);
    assert_eq!(Event::hello(Duration::from_millis(1)).op(), 10);
    assert_eq!(Event::HeartbeatACK.op(), 11);
}

#[test]
fn heartbeat_as_json() {
    assert_eq!(
        Event::heartbeat(None).to_json(),
        object(vec![("d", JsonValue::Null), ("op", uint(1))])
    );
    assert_eq!(
        Event::heartbeat(Some(251)).to_json(),
        object(vec![("d", uint(251)), ("op", uint(1))])
    );
}

#[test]
fn identify_as_json() {
    let e = Event::identify("my token".to_string(), ConnectionProperties::default(), 50);
    assert_eq!(
        e.to_json(),
        object(vec![
            (
                "d",
                object(vec![
                    ("large_threshold", uint(50)),
                    (
                        "properties",
                        object(vec![
                            ("browser", text("chrome")),
                            ("device", text("pc")),
                            ("os", text("linux")),
                        ])
                    ),
                    ("token", text("my token")),
                ])
            ),
            ("op", uint(2)),
        ])
    );
}

#[test]
fn hello_as_json() {
    let e = Event::hello(Duration::from_millis(41250));
    assert_eq!(
        e.to_json(),
        object(vec![
            (
                "d",
                object(vec![(
                    "heartbeat_interval",
                    object(vec![("nanos", uint(250_000_000)), ("secs", uint(41))])
                )])
            ),
            ("op", uint(10)),
        ])
    );
}

#[test]
fn heartbeat_ack_as_json() {
    assert_eq!(Event::HeartbeatACK.to_json(), object(vec![("op", uint(11))]));
}

#[test]
fn decode_hello() {
    assert_eq!(
        Event::try_from(hello_payload(41250)),
        Ok(Event::Hello(Hello { heartbeat_interval: Duration::from_millis(41250) }))
    );
}

#[test]
fn decode_hello_with_extra_fields() {
    let v = object(vec![
        ("t", JsonValue::Null),
        ("s", JsonValue::Null),
        ("op", uint(10)),
        (
            "d",
            object(vec![
                ("heartbeat_interval", uint(45000)),
                ("_trace", JsonValue::Array(vec![text("gateway")])),
            ]),
        ),
    ]);
    assert_eq!(Event::try_from(v), Ok(Event::hello(Duration::from_millis(45000))));
}

#[test]
fn decode_heartbeat_ack() {
    assert_eq!(Event::try_from(object(vec![("op", uint(11))])), Ok(Event::HeartbeatACK));
    assert_eq!(
        Event::try_from(object(vec![("d", JsonValue::Null), ("op", uint(11))])),
        Ok(Event::HeartbeatACK)
    );
}

#[test]
fn decode_not_an_object() {
    assert_eq!(Event::try_from(uint(11)), Err(TryFromJSONError::NotAnObject));
    assert_eq!(Event::try_from(JsonValue::Null), Err(TryFromJSONError::NotAnObject));
    assert_eq!(
        Event::try_from(JsonValue::Array(vec![object(vec![("op", uint(11))])])),
        Err(TryFromJSONError::NotAnObject)
    );
}

#[test]
fn decode_without_op_code() {
    assert_eq!(
        Event::try_from(object(vec![("d", JsonValue::Null)])),
        Err(TryFromJSONError::NoOpCode)
    );
}

#[test]
fn decode_op_code_of_the_wrong_kind() {
    assert_eq!(
        Event::try_from(object(vec![("op", text("11"))])),
        Err(TryFromJSONError::WrongOpCodeKind)
    );
    assert_eq!(
        Event::try_from(object(vec![("op", JsonValue::Number(JsonNumber::NegInt(-11)))])),
        Err(TryFromJSONError::WrongOpCodeKind)
    );
    assert_eq!(
        Event::try_from(object(vec![("op", JsonValue::Number(JsonNumber::Float(serde_json::Number::from_f64(11.0).unwrap())))])),
        Err(TryFromJSONError::WrongOpCodeKind)
    );
}

#[test]
fn decode_unsound_heartbeat_interval() {
    assert_eq!(
        Event::try_from(object(vec![("op", uint(10))])),
        Err(TryFromJSONError::UnsoundHeartbeatInterval)
    );
    assert_eq!(
        Event::try_from(object(vec![("d", uint(5)), ("op", uint(10))])),
        Err(TryFromJSONError::UnsoundHeartbeatInterval)
    );
    assert_eq!(
        Event::try_from(object(vec![
            ("d", object(vec![("heartbeat_interval", text("41250"))])),
            ("op", uint(10)),
        ])),
        Err(TryFromJSONError::UnsoundHeartbeatInterval)
    );
}

#[test]
fn decode_unsupported_op_codes() {
    for op in [1u64, 2, 3, 7, 9, 12, u64::MAX] {
        assert_eq!(
            Event::try_from(object(vec![("op", uint(op))])),
            Err(TryFromJSONError::UnsupportedOpCode(op))
        );
    }
}

#[test]
fn dispatch_payloads_are_recognised() {
    assert!(Event::is_dispatch(&object(vec![("op", uint(0)), ("t", text("READY"))])));
    assert!(!Event::is_dispatch(&object(vec![("op", uint(11))])));
    assert!(!Event::is_dispatch(&object(vec![("op", text("0"))])));
    assert!(!Event::is_dispatch(&uint(0)));
    assert!(!Event::is_dispatch(&object(vec![])));
}

#[test]
fn reading_back_encoded_events() {
    assert_eq!(Event::try_from(Event::HeartbeatACK.to_json()), Ok(Event::HeartbeatACK));
    assert_eq!(
        Event::try_from(Event::hello(Duration::from_millis(41250)).to_json()),
        Err(TryFromJSONError::UnsoundHeartbeatInterval)
    );
    assert_eq!(
        Event::try_from(Event::heartbeat(Some(4)).to_json()),
        Err(TryFromJSONError::UnsupportedOpCode(1))
    );
    assert_eq!(
        Event::try_from(Event::identify("t".to_string(), ConnectionProperties::default(), 50).to_json()),
        Err(TryFromJSONError::UnsupportedOpCode(2))
    );
}

#[test]
fn every_encoding_names_its_op_code() {
    let events = vec![
        Event::heartbeat(None),
        Event::heartbeat(Some(9)),
        Event::identify("t".to_string(), ConnectionProperties::default(), 50),
        Event::hello(Duration::from_millis(3)),
        Event::HeartbeatACK,
    ];
    for e in events {
        let op = e.op();
        assert_eq!(e.to_json().get("op"), Some(&uint(op)));
    }
}

#[test]
fn error_messages() {
    assert_eq!(TryFromJSONError::NotAnObject.message(), "The received JSON value is not an object.");
    assert_eq!(TryFromJSONError::NoOpCode.message(), "No op code available to decode object.");
    assert_eq!(TryFromJSONError::WrongOpCodeKind.message(), "The op code is not a number.");
    assert_eq!(
        TryFromJSONError::UnsoundHeartbeatInterval.message(),
        "The received heartbeat is unsound"
    );
    assert_eq!(
        TryFromJSONError::UnsupportedOpCode(42).message(),
        "The op code 42 is not supported"
    );
    assert_eq!(
        TryFromJSONError::UnsupportedOpCode(0).message(),
        "The op code 0 is not supported"
    );
    assert_eq!(
        TryFromJSONError::UnsupportedOpCode(u64::MAX).message(),
        "The op code 18446744073709551615 is not supported"
    );
}

#[test]
fn decode_reads_in_place() {
    let v = hello_payload(7);
    assert_eq!(Event::decode(&v), Ok(Event::hello(Duration::from_millis(7))));
    assert_eq!(Event::decode(&uint(7)), Err(TryFromJSONError::NotAnObject));
}

#[test]
fn events_as_text_on_the_wire() {
    assert_eq!(Event::heartbeat(None).to_text(), r#"{"d":null,"op":1}"#);
    assert_eq!(Event::heartbeat(Some(42)).to_text(), r#"{"d":42,"op":1}"#);
    assert_eq!(Event::HeartbeatACK.to_text(), r#"{"op":11}"#);
    assert_eq!(
        Event::hello(Duration::from_millis(41250)).to_text(),
        r#"{"d":{"heartbeat_interval":{"nanos":250000000,"secs":41}},"op":10}"#
    );
    assert_eq!(
        Event::identify("tok".to_string(), ConnectionProperties::default(), 50).to_text(),
        r#"{"d":{"large_threshold":50,"properties":{"browser":"chrome","device":"pc","os":"linux"},"token":"tok"},"op":2}"#
    );
}

#[test]
fn written_text_reads_back_as_the_payload() {
    let events = vec![
        Event::heartbeat(None),
        Event::heartbeat(Some(77)),
        Event::identify("tö\"k\n".to_string(), ConnectionProperties::default(), 50),
        Event::hello(Duration::from_millis(41250)),
        Event::HeartbeatACK,
    ];
    for e in events {
        let expected = match &e {
            Event::Heartbeat(h) => Event::heartbeat(h.last_sequence_number).to_json(),
            Event::Identify(id) => Event::identify(
                id.token.clone(),
                ConnectionProperties::default(),
                id.large_threshold,
            )
            .to_json(),
            Event::Hello(h) => Event::hello(h.heartbeat_interval).to_json(),
            _ => Event::HeartbeatACK.to_json(),
        };
        assert_eq!(parse_json(&e.to_text()).unwrap(), expected);
    }
}
