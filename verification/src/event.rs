//! Gateway events: the payloads that the client and the Discord gateway
//! exchange, how each is written as JSON, and how a received JSON payload
//! is read back as an event.
//!
//! Op codes: 0 dispatch (such as the ready event), 1 heartbeat, 2 identify,
//! 10 hello (the gateway gives the heartbeat interval), 11 heartbeat
//! acknowledged.

use vstd::prelude::*;
use crate::json::{
    json_as_u64, json_depth, json_get, json_of_text, json_text, json_wf_with,
    lemma_obj1_wf_depth, lemma_obj2_wf_depth, lemma_obj3_wf_depth, lemma_scalar_wf_depth,
    max_read_depth, text_lt, entries_wf_with, entries_depth, lemma_get_obj1, lemma_get_obj2, lemma_get_obj3, num, obj1, obj2, obj3, Json, JsonNumber,
    JsonValue,
};
use crate::text::decimal_text;
use crate::text::decimal;

verus! {

#[verifier::external_type_specification]
#[verifier::external_body]
pub struct ExUrl(url::Url);

/// A span of time, as seconds and the nanoseconds past them.
#[derive(Debug, Clone, Copy, PartialEq, Eq)]
pub struct Duration {
    pub secs: u64,
    pub nanos: u32,
}

/// The span of `millis` milliseconds.
pub open spec fn duration_from_millis(millis: u64) -> Duration {
    Duration { secs: millis / 1000, nanos: ((millis % 1000) * 1_000_000) as u32 }
}

/// Whether a span is well-formed: its nanoseconds make less than a second,
/// as in a `std::time::Duration`.
pub open spec fn duration_wf(d: Duration) -> bool {
    d.nanos < 1_000_000_000
}

/// The length of a span in whole milliseconds.
pub open spec fn duration_millis(d: Duration) -> int {
    d.secs * 1000 + d.nanos / 1_000_000
}

/// A span as a JSON object, the form that `serde` gives a duration:
/// its fields `secs` and `nanos`, listed by key.
pub open spec fn duration_json(d: Duration) -> Json {
    obj2("nanos"@, num(d.nanos as u64), "secs"@, num(d.secs))
}

impl Duration {
    /// The span of `millis` milliseconds.
    pub fn from_millis(millis: u64) -> (d: Duration)
        ensures
            d == duration_from_millis(millis),
            duration_wf(d),
    {
        Duration { secs: millis / 1000, nanos: ((millis % 1000) * 1_000_000) as u32 }
    }

    /// The length of the span in whole milliseconds.
    pub fn as_millis(&self) -> (r: u128)
        ensures
            r == duration_millis(*self),
    {
        (self.secs as u128) * 1000 + (self.nanos / 1_000_000) as u128
    }

    /// The span as a JSON object of its fields.
    pub fn to_json(&self) -> (r: JsonValue)
        ensures
            r@ == duration_json(*self),
    {
        JsonValue::object2(
            "nanos",
            JsonValue::Number(JsonNumber::PosInt(self.nanos as u64)),
            "secs",
            JsonValue::Number(JsonNumber::PosInt(self.secs)),
        )
    }
}

/// A gateway event.
#[derive(Debug, PartialEq, Eq)]
pub enum Event {
    /// Op code 0.
    Ready(Ready),
    /// Op code 1.
    Heartbeat(Heartbeat),
    /// Op code 2.
    Identify(Identify),
    /// Op code 10.
    Hello(Hello),
    /// Op code 11.
    HeartbeatACK,
}

/// The session that the gateway opens once the client has identified.
#[derive(Debug, PartialEq, Eq)]
pub struct Ready {
    v: u8,
    user: User,
    guilds: Vec<UnavailableGuild>,
    session_id: String,
    resume_gateway_url: url::Url,
}

/// A heartbeat, with the last sequence number the client has seen.
#[derive(Debug, Clone, Copy, PartialEq, Eq)]
pub struct Heartbeat {
    pub last_sequence_number: Option<u64>,
}

/// The client's identification: its token, its connection properties and
/// the member count above which a guild counts as large.
#[derive(Debug, PartialEq, Eq)]
pub struct Identify {
    pub token: String,
    pub properties: ConnectionProperties,
    pub large_threshold: u8,
}

/// The gateway's greeting, with the interval at which the client must send
/// heartbeats.
#[derive(Debug, Clone, Copy, PartialEq, Eq)]
pub struct Hello {
    pub heartbeat_interval: Duration,
}

/// A user account.
#[derive(Debug, PartialEq, Eq)]
pub struct User {
    id: String,
    username: String,
    discriminator: String,
    bot: bool,
}

/// A guild that is not available yet.
#[derive(Debug, PartialEq, Eq)]
pub struct UnavailableGuild {
    id: String,
    unavailable: bool,
}

/// What the client says of the machine it runs on.
#[derive(Debug, PartialEq, Eq)]
pub struct ConnectionProperties {
    pub os: String,
    pub browser: String,
    pub device: String,
}

/// Why a JSON payload is not a gateway event that this client reads.
#[derive(Debug, Clone, Copy, PartialEq, Eq)]
pub enum TryFromJSONError {
    NotAnObject,
    NoOpCode,
    WrongOpCodeKind,
    UnsoundHeartbeatInterval,
    UnsupportedOpCode(u64),
}

/// The op code that identifies an event's kind on the wire.
pub open spec fn op_code(e: Event) -> u64 {
    match e {
        Event::Ready(_) => 0,
        Event::Heartbeat(_) => 1,
        Event::Identify(_) => 2,
        Event::Hello(_) => 10,
        Event::HeartbeatACK => 11,
    }
}

/// Connection properties as a JSON object, listed by key.
pub open spec fn properties_json(p: ConnectionProperties) -> Json {
    obj3("browser"@, Json::Text(p.browser@), "device"@, Json::Text(p.device@), "os"@, Json::Text(p.os@))
}

/// The payload data (`d`) of an event that carries data.
pub open spec fn event_data_json(e: Event) -> Json {
    match e {
        Event::Ready(_) => Json::Object(Seq::empty()),
        Event::Heartbeat(hb) => match hb.last_sequence_number {
            Some(n) => num(n),
            None => Json::Null,
        },
        Event::Identify(id) => obj3(
            "large_threshold"@,
            num(id.large_threshold as u64),
            "properties"@,
            properties_json(id.properties),
            "token"@,
            Json::Text(id.token@),
        ),
        Event::Hello(h) => obj1("heartbeat_interval"@, duration_json(h.heartbeat_interval)),
        Event::HeartbeatACK => Json::Null,
    }
}

/// An event as a JSON payload: its op code under `op` and, but for an
/// acknowledgement, its data under `d`; keys listed in order.
pub open spec fn event_json(e: Event) -> Json {
    match e {
        Event::HeartbeatACK => obj1("op"@, num(11)),
        _ => obj2("d"@, event_data_json(e), "op"@, num(op_code(e))),
    }
}

/// Whether a payload is a dispatch (op code 0), which this client does not
/// read yet.
pub open spec fn is_dispatch_payload(j: Json) -> bool {
    &&& j is Object
    &&& json_get(j, "op"@) == Some(num(0))
}

/// The heartbeat interval, in milliseconds, that a hello payload's data
/// gives.
pub open spec fn hello_interval_millis(j: Json) -> Option<u64> {
    match json_get(j, "d"@) {
        Some(d) => match json_get(d, "heartbeat_interval"@) {
            Some(v) => json_as_u64(v),
            None => None,
        },
        None => None,
    }
}

/// The event that a JSON payload (other than a dispatch) stands for, or why
/// it stands for none: it must be an object with a numeric op code; op code
/// 10 needs a heartbeat interval in whole milliseconds, op code 11 needs
/// nothing more, and no other op code is read.
pub open spec fn decode_event(j: Json) -> Result<Event, TryFromJSONError>
    recommends
        !is_dispatch_payload(j),
{
    match j {
        Json::Object(_) => match json_get(j, "op"@) {
            Some(Json::Number(n)) => match json_as_u64(Json::Number(n)) {
                Some(op) => if op == 10 {
                    match hello_interval_millis(j) {
                        Some(ms) => Ok(
                            Event::Hello(Hello { heartbeat_interval: duration_from_millis(ms) }),
                        ),
                        None => Err(TryFromJSONError::UnsoundHeartbeatInterval),
                    }
                } else if op == 11 {
                    Ok(Event::HeartbeatACK)
                } else {
                    Err(TryFromJSONError::UnsupportedOpCode(op))
                },
                None => Err(TryFromJSONError::WrongOpCodeKind),
            },
            Some(_) => Err(TryFromJSONError::WrongOpCodeKind),
            None => Err(TryFromJSONError::NoOpCode),
        },
        _ => Err(TryFromJSONError::NotAnObject),
    }
}

/// The keys of a payload differ from one another.
proof fn lemma_payload_keys_differ()
    ensures
        "d"@ != "op"@,
        "heartbeat_interval"@ != "op"@,
{
    reveal_strlit("d");
    reveal_strlit("op");
    reveal_strlit("heartbeat_interval");
    assert("d"@[0] != "op"@[0]);
    assert("heartbeat_interval"@[0] != "op"@[0]);
}

/// The keys inside an encoded event's data differ from one another.
proof fn lemma_data_keys_differ()
    ensures
        "nanos"@ != "secs"@,
        "large_threshold"@ != "properties"@,
        "large_threshold"@ != "token"@,
        "properties"@ != "token"@,
        "browser"@ != "device"@,
        "browser"@ != "os"@,
        "device"@ != "os"@,
{
    reveal_strlit("nanos");
    reveal_strlit("secs");
    reveal_strlit("large_threshold");
    reveal_strlit("properties");
    reveal_strlit("token");
    reveal_strlit("browser");
    reveal_strlit("device");
    reveal_strlit("os");
    assert("nanos"@[0] != "secs"@[0]);
    assert("large_threshold"@[0] != "properties"@[0]);
    assert("large_threshold"@[0] != "token"@[0]);
    assert("properties"@[0] != "token"@[0]);
    assert("browser"@[0] != "device"@[0]);
    assert("browser"@[0] != "os"@[0]);
    assert("device"@[0] != "os"@[0]);
}

/// What an encoded event carries: a heartbeat its sequence number itself
/// (or null) under `d`; an identification its token, threshold and each
/// connection property under `d`; a hello its interval's seconds and
/// nanoseconds under `d.heartbeat_interval`.
pub proof fn lemma_event_json_fields(e: Event)
    ensures
        e matches Event::Heartbeat(hb) ==> {
            &&& hb.last_sequence_number matches Some(n) ==> json_get(event_json(e), "d"@) == Some(
                num(n),
            )
            &&& hb.last_sequence_number is None ==> json_get(event_json(e), "d"@) == Some(
                Json::Null,
            )
        },
        e matches Event::Identify(id) ==> {
            let d = json_get(event_json(e), "d"@)->0;
            let p = json_get(d, "properties"@)->0;
            &&& json_get(event_json(e), "d"@) is Some
            &&& json_get(d, "token"@) == Some(Json::Text(id.token@))
            &&& json_get(d, "large_threshold"@) == Some(num(id.large_threshold as u64))
            &&& json_get(d, "properties"@) is Some
            &&& json_get(p, "os"@) == Some(Json::Text(id.properties.os@))
            &&& json_get(p, "browser"@) == Some(Json::Text(id.properties.browser@))
            &&& json_get(p, "device"@) == Some(Json::Text(id.properties.device@))
        },
        e matches Event::Hello(h) ==> {
            let d = json_get(event_json(e), "d"@)->0;
            let i = json_get(d, "heartbeat_interval"@)->0;
            &&& json_get(event_json(e), "d"@) is Some
            &&& json_get(d, "heartbeat_interval"@) is Some
            &&& json_get(i, "secs"@) == Some(num(h.heartbeat_interval.secs))
            &&& json_get(i, "nanos"@) == Some(num(h.heartbeat_interval.nanos as u64))
        },
{
    lemma_payload_keys_differ();
    lemma_data_keys_differ();
    if !(e is HeartbeatACK) {
        lemma_get_obj2("d"@, event_data_json(e), "op"@, num(op_code(e)), "d"@);
    }
    match e {
        Event::Identify(id) => {
            let pj = properties_json(id.properties);
            let lt = num(id.large_threshold as u64);
            let t = Json::Text(id.token@);
            lemma_get_obj3("large_threshold"@, lt, "properties"@, pj, "token"@, t, "token"@);
            lemma_get_obj3("large_threshold"@, lt, "properties"@, pj, "token"@, t, "large_threshold"@);
            lemma_get_obj3("large_threshold"@, lt, "properties"@, pj, "token"@, t, "properties"@);
            let (b, dv, o) = (
                Json::Text(id.properties.browser@),
                Json::Text(id.properties.device@),
                Json::Text(id.properties.os@),
            );
            lemma_get_obj3("browser"@, b, "device"@, dv, "os"@, o, "os"@);
            lemma_get_obj3("browser"@, b, "device"@, dv, "os"@, o, "browser"@);
            lemma_get_obj3("browser"@, b, "device"@, dv, "os"@, o, "device"@);
        },
        Event::Hello(h) => {
            let dj = duration_json(h.heartbeat_interval);
            lemma_get_obj1("heartbeat_interval"@, dj, "heartbeat_interval"@);
            let ns = num(h.heartbeat_interval.nanos as u64);
            let ss = num(h.heartbeat_interval.secs);
            lemma_get_obj2("nanos"@, ns, "secs"@, ss, "secs"@);
            lemma_get_obj2("nanos"@, ns, "secs"@, ss, "nanos"@);
        },
        _ => {},
    }
}

/// Only an object whose op code is the integer 0 is a dispatch, whatever
/// else it holds.
pub proof fn lemma_dispatch_is_op_zero(j: Json)
    ensures
        is_dispatch_payload(j) <==> (j is Object && json_get(j, "op"@) == Some(num(0))),
        json_get(j, "op"@) matches Some(v) && v != num(0) ==> !is_dispatch_payload(j),
{
}

/// How an object is read, by its op code alone, whatever other entries
/// (such as `d`, `s` and `t`) it carries: op code 11 is an acknowledgement;
/// op code 10 with a heartbeat interval of `ms` milliseconds under
/// `d.heartbeat_interval` is a hello of that interval, and without one is an
/// unsound interval; any other op code but 0 is not read.
pub proof fn lemma_decode_by_op(j: Json, op: u64)
    requires
        j is Object,
        json_get(j, "op"@) == Some(num(op)),
        op != 0,
    ensures
        !is_dispatch_payload(j),
        op == 11 ==> decode_event(j) == Ok::<Event, TryFromJSONError>(Event::HeartbeatACK),
        op == 10 ==> forall|ms: u64|
            #![trigger duration_from_millis(ms)]
            json_get(j, "d"@) matches Some(d) && json_get(d, "heartbeat_interval"@) == Some(num(ms))
                ==> decode_event(j) == Ok::<Event, TryFromJSONError>(
                Event::Hello(Hello { heartbeat_interval: duration_from_millis(ms) }),
            ),
        op == 10 && (json_get(j, "d"@) matches Some(d) ==> json_get(d, "heartbeat_interval"@) matches Some(
            v,
        ) ==> json_as_u64(v) is None) ==> decode_event(j) == Err::<Event, TryFromJSONError>(
            TryFromJSONError::UnsoundHeartbeatInterval,
        ),
        op != 10 && op != 11 ==> decode_event(j) == Err::<Event, TryFromJSONError>(
            TryFromJSONError::UnsupportedOpCode(op),
        ),
{
}

/// Every encoded event names its own op code under `op`.
pub proof fn lemma_event_json_op(e: Event)
    ensures
        event_json(e) is Object,
        json_get(event_json(e), "op"@) == Some(num(op_code(e))),
{
    lemma_payload_keys_differ();
    match e {
        Event::HeartbeatACK => lemma_get_obj1("op"@, num(11), "op"@),
        _ => lemma_get_obj2("d"@, event_data_json(e), "op"@, num(op_code(e)), "op"@),
    }
}

/// What reading back an encoded event gives: an acknowledgement comes back
/// as itself; the ready event encodes as a dispatch, which is not read; a
/// hello comes back as an unsound heartbeat interval, since its interval is
/// written as an object of seconds and nanoseconds and read as a number of
/// milliseconds; a heartbeat and an identification come back as op codes
/// that the client does not read.
pub proof fn lemma_decode_event_json(e: Event)
    ensures
        is_dispatch_payload(event_json(e)) <==> e is Ready,
        e is HeartbeatACK ==> decode_event(event_json(e)) == Ok::<Event, TryFromJSONError>(e),
        e is Hello ==> decode_event(event_json(e)) == Err::<Event, TryFromJSONError>(
            TryFromJSONError::UnsoundHeartbeatInterval,
        ),
        e is Heartbeat ==> decode_event(event_json(e)) == Err::<Event, TryFromJSONError>(
            TryFromJSONError::UnsupportedOpCode(1),
        ),
        e is Identify ==> decode_event(event_json(e)) == Err::<Event, TryFromJSONError>(
            TryFromJSONError::UnsupportedOpCode(2),
        ),
{
    lemma_event_json_op(e);
    lemma_payload_keys_differ();
    if let Event::Hello(h) = e {
        let d = event_data_json(e);
        lemma_get_obj2("d"@, d, "op"@, num(10), "d"@);
        lemma_get_obj1("heartbeat_interval"@, duration_json(h.heartbeat_interval), "heartbeat_interval"@);
        assert(hello_interval_millis(event_json(e)) is None);
    }
}

/// The keys of each encoded object ascend.
proof fn lemma_payload_keys_ascend()
    ensures
        text_lt("d"@, "op"@),
        text_lt("nanos"@, "secs"@),
        text_lt("large_threshold"@, "properties"@),
        text_lt("properties"@, "token"@),
        text_lt("browser"@, "device"@),
        text_lt("device"@, "os"@),
{
    reveal_strlit("d");
    reveal_strlit("op");
    reveal_strlit("nanos");
    reveal_strlit("secs");
    reveal_strlit("large_threshold");
    reveal_strlit("properties");
    reveal_strlit("token");
    reveal_strlit("browser");
    reveal_strlit("device");
    reveal_strlit("os");
}

/// Every encoded event is well-formed, holds no number other than
/// integers, and nests at most three deep, so it is read back from its text
/// as it was.
pub proof fn lemma_event_json_plain(e: Event)
    ensures
        json_wf_with(event_json(e), false),
        json_depth(event_json(e)) <= 3,
{
    lemma_payload_keys_ascend();
    let op = num(op_code(e));
    lemma_scalar_wf_depth(op, false);
    match e {
        Event::HeartbeatACK => {
            lemma_obj1_wf_depth("op"@, op, false);
        },
        Event::Ready(_) => {
            let d = Json::Object(Seq::empty());
            assert(entries_wf_with(Seq::empty(), false));
            assert(entries_depth(Seq::empty()) == 0);
            lemma_obj2_wf_depth("d"@, d, "op"@, op, false);
        },
        Event::Heartbeat(hb) => {
            let d = event_data_json(e);
            lemma_scalar_wf_depth(d, false);
            lemma_obj2_wf_depth("d"@, d, "op"@, op, false);
        },
        Event::Identify(id) => {
            let p = id.properties;
            let (b, dv, o) = (Json::Text(p.browser@), Json::Text(p.device@), Json::Text(p.os@));
            lemma_scalar_wf_depth(b, false);
            lemma_scalar_wf_depth(dv, false);
            lemma_scalar_wf_depth(o, false);
            lemma_obj3_wf_depth("browser"@, b, "device"@, dv, "os"@, o, false);
            let lt = num(id.large_threshold as u64);
            let t = Json::Text(id.token@);
            lemma_scalar_wf_depth(lt, false);
            lemma_scalar_wf_depth(t, false);
            let props = properties_json(p);
            lemma_obj3_wf_depth("large_threshold"@, lt, "properties"@, props, "token"@, t, false);
            lemma_obj2_wf_depth("d"@, event_data_json(e), "op"@, op, false);
        },
        Event::Hello(h) => {
            let ns = num(h.heartbeat_interval.nanos as u64);
            let ss = num(h.heartbeat_interval.secs);
            lemma_scalar_wf_depth(ns, false);
            lemma_scalar_wf_depth(ss, false);
            lemma_obj2_wf_depth("nanos"@, ns, "secs"@, ss, false);
            lemma_obj1_wf_depth("heartbeat_interval"@, duration_json(h.heartbeat_interval), false);
            lemma_obj2_wf_depth("d"@, event_data_json(e), "op"@, op, false);
        },
    }
}

/// A heartbeat interval read from a hello is well-formed.
pub proof fn lemma_decoded_interval_wf(j: Json)
    ensures
        decode_event(j) matches Ok(Event::Hello(h)) ==> duration_wf(h.heartbeat_interval),
{
    if let Some(ms) = hello_interval_millis(j) {
        lemma_duration_millis(ms);
    }
}

/// How a payload that is not a dispatch fails to be read, and what it can
/// be read as: only a non-object is `NotAnObject`; only an object without an
/// op code is `NoOpCode`; only an op code that is not a non-negative integer
/// is `WrongOpCodeKind`; and what is read is a hello or an acknowledgement.
pub proof fn lemma_decode_event_cases(j: Json)
    requires
        !is_dispatch_payload(j),
    ensures
        decode_event(j) == Err::<Event, TryFromJSONError>(TryFromJSONError::NotAnObject) <==> !(
        j is Object),
        decode_event(j) == Err::<Event, TryFromJSONError>(TryFromJSONError::NoOpCode) <==> (
        j is Object && json_get(j, "op"@) is None),
        decode_event(j) == Err::<Event, TryFromJSONError>(TryFromJSONError::WrongOpCodeKind) <==> (
        j is Object && json_get(j, "op"@) is Some && json_as_u64(json_get(j, "op"@)->0) is None),
        decode_event(j) matches Ok(e) ==> (e is Hello || e is HeartbeatACK),
{
}

/// A hello as the gateway sends it, with the interval as a number of
/// milliseconds.
pub open spec fn hello_payload(millis: u64) -> Json {
    obj2("d"@, obj1("heartbeat_interval"@, num(millis)), "op"@, num(10))
}

/// A hello that gives its interval in milliseconds reads as a hello with
/// that interval.
pub proof fn lemma_decode_hello(millis: u64)
    ensures
        !is_dispatch_payload(hello_payload(millis)),
        decode_event(hello_payload(millis)) == Ok::<Event, TryFromJSONError>(
            Event::Hello(Hello { heartbeat_interval: duration_from_millis(millis) }),
        ),
{
    lemma_payload_keys_differ();
    let d = obj1("heartbeat_interval"@, num(millis));
    lemma_get_obj2("d"@, d, "op"@, num(10), "op"@);
    lemma_get_obj2("d"@, d, "op"@, num(10), "d"@);
    lemma_get_obj1("heartbeat_interval"@, num(millis), "heartbeat_interval"@);
}

/// A span made of a number of milliseconds is that many milliseconds long.
pub proof fn lemma_duration_millis(millis: u64)
    ensures
        duration_millis(duration_from_millis(millis)) == millis,
        duration_wf(duration_from_millis(millis)),
{
    let r: u64 = millis % 1000;
    assert(r * 1_000_000 < 1_000_000_000) by (nonlinear_arith)
        requires
            r < 1000,
    ;
    assert((r * 1_000_000) / 1_000_000 == r) by (nonlinear_arith);
    assert((millis / 1000) * 1000 + millis % 1000 == millis) by (nonlinear_arith);
}

impl ConnectionProperties {
    /// The properties as a JSON object.
    pub fn into_json(self) -> (r: JsonValue)
        ensures
            r@ == properties_json(self),
    {
        JsonValue::object3(
            "browser",
            JsonValue::Text(self.browser),
            "device",
            JsonValue::Text(self.device),
            "os",
            JsonValue::Text(self.os),
        )
    }
}

impl Default for ConnectionProperties {
    /// A Linux machine running Chrome on a PC.
    fn default() -> (r: ConnectionProperties)
        ensures
            r.os@ == "linux"@,
            r.browser@ == "chrome"@,
            r.device@ == "pc"@,
    {
        ConnectionProperties {
            os: String::from_str("linux"),
            browser: String::from_str("chrome"),
            device: String::from_str("pc"),
        }
    }
}

impl Event {
    /// The gateway's greeting with the given heartbeat interval.
    pub fn hello(heartbeat_interval: Duration) -> (e: Event)
        ensures
            e == Event::Hello(Hello { heartbeat_interval }),
    {
        Event::Hello(Hello { heartbeat_interval })
    }

    /// A heartbeat that reports the given sequence number.
    pub fn heartbeat(last_sequence_number: Option<u64>) -> (e: Event)
        ensures
            e == Event::Heartbeat(Heartbeat { last_sequence_number }),
    {
        Event::Heartbeat(Heartbeat { last_sequence_number })
    }

    /// The client's identification.
    pub fn identify(token: String, properties: ConnectionProperties, large_threshold: u8) -> (e:
        Event)
        ensures
            e == Event::Identify(Identify { token, properties, large_threshold }),
    {
        Event::Identify(Identify { token, properties, large_threshold })
    }

    /// The event as a JSON payload.
    pub fn to_json(self) -> (r: JsonValue)
        ensures
            r@ == event_json(self),
    {
        let ghost e = self;
        match self {
            Event::Ready(_) => JsonValue::object2(
                "d",
                JsonValue::empty_object(),
                "op",
                JsonValue::Number(JsonNumber::PosInt(0)),
            ),
            Event::Hello(h) => JsonValue::object2(
                "d",
                JsonValue::object1("heartbeat_interval", h.heartbeat_interval.to_json()),
                "op",
                JsonValue::Number(JsonNumber::PosInt(10)),
            ),
            Event::Identify(id) => JsonValue::object2(
                "d",
                JsonValue::object3(
                    "large_threshold",
                    JsonValue::Number(JsonNumber::PosInt(id.large_threshold as u64)),
                    "properties",
                    id.properties.into_json(),
                    "token",
                    JsonValue::Text(id.token),
                ),
                "op",
                JsonValue::Number(JsonNumber::PosInt(2)),
            ),
            Event::Heartbeat(hb) => {
                let d = match hb.last_sequence_number {
                    Some(n) => JsonValue::Number(JsonNumber::PosInt(n)),
                    None => JsonValue::Null,
                };
                JsonValue::object2("d", d, "op", JsonValue::Number(JsonNumber::PosInt(1)))
            },
            Event::HeartbeatACK => JsonValue::object1(
                "op",
                JsonValue::Number(JsonNumber::PosInt(11)),
            ),
        }
    }

    /// The event as the compact JSON text that goes out on the wire; read
    /// back, the text gives the event's payload again.
    pub fn to_text(self) -> (r: String)
        ensures
            r@ == json_text(event_json(self)),
            json_of_text(r@) == Some(event_json(self)),
    {
        proof {
            lemma_event_json_plain(self);
        }
        self.to_json().to_text()
    }

    /// The event's op code.
    pub fn op(&self) -> (r: u64)
        ensures
            r == op_code(*self),
    {
        match self {
            Event::Ready(_) => 0,
            Event::Heartbeat(_) => 1,
            Event::Identify(_) => 2,
            Event::Hello(_) => 10,
            Event::HeartbeatACK => 11,
        }
    }

    /// Whether a payload is a dispatch (op code 0), which
    /// [`Event::try_from`] does not read.
    pub fn is_dispatch(value: &JsonValue) -> (b: bool)
        ensures
            b == is_dispatch_payload(value@),
    {
        match value {
            JsonValue::Object(_) => match value.get("op") {
                Some(op) => match op {
                    JsonValue::Number(JsonNumber::PosInt(n)) => *n == 0,
                    _ => false,
                },
                None => false,
            },
            _ => false,
        }
    }

    /// The event that a received JSON payload stands for.
    pub fn try_from(value: JsonValue) -> (r: Result<Event, TryFromJSONError>)
        requires
            !is_dispatch_payload(value@),
        ensures
            r == decode_event(value@),
    {
        Event::decode(&value)
    }

    /// The event that a received JSON payload stands for, read in place.
    pub fn decode(value: &JsonValue) -> (r: Result<Event, TryFromJSONError>)
        requires
            !is_dispatch_payload(value@),
        ensures
            r == decode_event(value@),
    {
        match value {
            JsonValue::Object(_) => match value.get("op") {
                Some(op) => match op {
                    JsonValue::Number(n) => match op.as_u64() {
                        Some(code) => {
                            if code == 10 {
                                let interval: Option<u64> = match value.get("d") {
                                    Some(d) => match d.get("heartbeat_interval") {
                                        Some(v) => v.as_u64(),
                                        None => None,
                                    },
                                    None => None,
                                };
                                match interval {
                                    Some(ms) => Ok(Event::hello(Duration::from_millis(ms))),
                                    None => Err(TryFromJSONError::UnsoundHeartbeatInterval),
                                }
                            } else if code == 11 {
                                Ok(Event::HeartbeatACK)
                            } else {
                                Err(TryFromJSONError::UnsupportedOpCode(code))
                            }
                        },
                        None => Err(TryFromJSONError::WrongOpCodeKind),
                    },
                    _ => Err(TryFromJSONError::WrongOpCodeKind),
                },
                None => Err(TryFromJSONError::NoOpCode),
            },
            _ => Err(TryFromJSONError::NotAnObject),
        }
    }
}

impl TryFromJSONError {
    /// What went wrong, in words.
    pub fn message(&self) -> (r: String)
        ensures
            r@ == match self {
                TryFromJSONError::NotAnObject => "The received JSON value is not an object."@,
                TryFromJSONError::NoOpCode => "No op code available to decode object."@,
                TryFromJSONError::WrongOpCodeKind => "The op code is not a number."@,
                TryFromJSONError::UnsoundHeartbeatInterval => "The received heartbeat is unsound"@,
                TryFromJSONError::UnsupportedOpCode(op) => "The op code "@ + decimal(*op as nat)
                    + " is not supported"@,
            },
    {
        match self {
            TryFromJSONError::NotAnObject => String::from_str(
                "The received JSON value is not an object.",
            ),
            TryFromJSONError::NoOpCode => String::from_str("No op code available to decode object."),
            TryFromJSONError::WrongOpCodeKind => String::from_str("The op code is not a number."),
            TryFromJSONError::UnsoundHeartbeatInterval => String::from_str(
                "The received heartbeat is unsound",
            ),
            TryFromJSONError::UnsupportedOpCode(op) => {
                let mut s = String::from_str("The op code ");
                let digits = decimal_text(*op);
                s.append(digits.as_str());
                s.append(" is not supported");
                s
            },
        }
    }
}

} // verus!
