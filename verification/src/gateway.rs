//! The client's side of the gateway protocol, as decisions on what has
//! arrived: the handshakes that open a session, and the heartbeat loop that
//! keeps it alive. The connection itself, the timer and the sending are the
//! caller's.
//!
//! Each step comes twice. A step on a payload (`heartbeat_handshake`,
//! `identify_handshake`, `Heartbeater::on_payload`, `Heartbeater::heartbeat`)
//! requires what the client needs in order to go on, and says what it comes
//! to. A step on a received frame's text (`hello_frame`,
//! `identify_reply_frame`, `Heartbeater::on_frame`, `Heartbeater::on_tick`)
//! takes anything: it reads the text, takes the first step where it may, and
//! otherwise says why the client stops.

use vstd::prelude::*;
use crate::event::{
    decode_event, duration_from_millis, event_json, hello_payload, is_dispatch_payload,
    lemma_decode_by_op, lemma_decode_event_json, lemma_decode_hello, lemma_dispatch_is_op_zero,
    op_code, ConnectionProperties, Duration, Event,
    Heartbeat, TryFromJSONError,
};
use crate::json::{json_get, json_of_text, num, parse_json, Json, JsonValue};

verus! {

/// The number of members above which a guild counts as large, as the
/// client asks for when it identifies.
pub const LARGE_THRESHOLD: u8 = 50;

/// Why the client stops: what it does not handle yet, or what the gateway
/// does not send at that point.
#[derive(Debug, Clone, Copy, PartialEq, Eq)]
pub enum GatewayFault {
    /// A dispatch (op code 0), which this client does not read yet.
    DispatchNotRead,
    /// The gateway asked for a heartbeat, which this client does not answer
    /// yet.
    HeartbeatRequested,
    /// The ready event, which this client does not handle yet.
    ReadyNotHandled,
    /// An event that the gateway does not send at this point; its op code.
    UnexpectedEvent(u64),
    /// The heartbeat interval passed without an acknowledgement of the last
    /// heartbeat.
    HeartbeatNotAcknowledged,
}

/// Why a received frame does not let the session go on.
#[derive(Debug)]
pub enum FrameError {
    /// The frame's text is not JSON.
    NotJson(serde_json::Error),
    /// The payload is not an event that this client reads.
    Undecodable(TryFromJSONError),
    /// The client stops.
    Stop(GatewayFault),
}

/// The payloads at which the greeting step goes on: a hello, or a payload
/// that is not an event that this client reads.
pub open spec fn hello_admits(j: Json) -> bool {
    &&& !is_dispatch_payload(j)
    &&& decode_event(j) matches Ok(e) ==> e is Hello
}

/// The heartbeat interval that the gateway's greeting gives, or why the
/// greeting is not an event that this client reads.
pub fn heartbeat_handshake(payload: JsonValue) -> (r: Result<Duration, TryFromJSONError>)
    requires
        hello_admits(payload@),
    ensures
        decode_event(payload@) matches Ok(Event::Hello(h)) ==> r == Ok::<
            Duration,
            TryFromJSONError,
        >(h.heartbeat_interval),
        decode_event(payload@) matches Err(x) ==> r == Err::<Duration, TryFromJSONError>(x),
{
    match Event::try_from(payload) {
        Ok(Event::Hello(h)) => Ok(h.heartbeat_interval),
        Ok(_) => {
            proof {
                assert(false);
            }
            Err(TryFromJSONError::NotAnObject)
        },
        Err(x) => Err(x),
    }
}

/// What the gateway's greeting comes to, once read as JSON.
pub open spec fn hello_step(j: Json) -> Result<Duration, FrameError> {
    if is_dispatch_payload(j) {
        Err(FrameError::Stop(GatewayFault::DispatchNotRead))
    } else {
        match decode_event(j) {
            Ok(Event::Hello(h)) => Ok(h.heartbeat_interval),
            Ok(e) => Err(FrameError::Stop(GatewayFault::UnexpectedEvent(op_code(e)))),
            Err(x) => Err(FrameError::Undecodable(x)),
        }
    }
}

/// The heartbeat interval that the text of the gateway's greeting gives.
pub fn hello_frame(text: &str) -> (r: Result<Duration, FrameError>)
    ensures
        match json_of_text(text@) {
            Some(j) => r == hello_step(j),
            None => r matches Err(FrameError::NotJson(_)),
        },
{
    match parse_json(text) {
        Err(e) => Err(FrameError::NotJson(e)),
        Ok(payload) => {
            if Event::is_dispatch(&payload) {
                return Err(FrameError::Stop(GatewayFault::DispatchNotRead));
            }
            match Event::decode(&payload) {
                Ok(Event::Hello(_)) | Err(_) => match heartbeat_handshake(payload) {
                    Ok(d) => Ok(d),
                    Err(x) => Err(FrameError::Undecodable(x)),
                },
                Ok(e) => Err(FrameError::Stop(GatewayFault::UnexpectedEvent(e.op()))),
            }
        },
    }
}

/// The identification that the client sends once greeted: its token, the
/// default connection properties and the large-guild threshold.
pub fn identify_event(token: &String) -> (e: Event)
    ensures
        is_identify_for(e, token@),
{
    Event::identify(token.clone(), ConnectionProperties::default(), LARGE_THRESHOLD)
}

/// The replies to the identification at which the step goes on: those that
/// are not an event that this client reads. (This client does not go past
/// the identification yet: every event in reply stops it.)
pub open spec fn ready_admits(j: Json) -> bool {
    &&& !is_dispatch_payload(j)
    &&& decode_event(j) is Err
}

/// Why the reply to the identification is not an event that this client
/// reads.
pub fn identify_handshake(payload: JsonValue) -> (r: TryFromJSONError)
    requires
        ready_admits(payload@),
    ensures
        decode_event(payload@) == Err::<Event, TryFromJSONError>(r),
{
    match Event::try_from(payload) {
        Err(x) => x,
        Ok(_) => {
            proof {
                assert(false);
            }
            TryFromJSONError::NotAnObject
        },
    }
}

/// What the reply to the identification comes to, once read as JSON: this
/// client does not go on past it yet, so every reply ends the session.
pub open spec fn ready_step(j: Json) -> FrameError {
    if is_dispatch_payload(j) {
        FrameError::Stop(GatewayFault::DispatchNotRead)
    } else {
        match decode_event(j) {
            Ok(Event::Ready(_)) => FrameError::Stop(GatewayFault::ReadyNotHandled),
            Ok(e) => FrameError::Stop(GatewayFault::UnexpectedEvent(op_code(e))),
            Err(x) => FrameError::Undecodable(x),
        }
    }
}

/// Why the session ends at the text of the reply to the identification.
pub fn identify_reply_frame(text: &str) -> (r: FrameError)
    ensures
        match json_of_text(text@) {
            Some(j) => r == ready_step(j),
            None => r is NotJson,
        },
{
    match parse_json(text) {
        Err(e) => FrameError::NotJson(e),
        Ok(payload) => {
            if Event::is_dispatch(&payload) {
                return FrameError::Stop(GatewayFault::DispatchNotRead);
            }
            match Event::decode(&payload) {
                Err(_) => FrameError::Undecodable(identify_handshake(payload)),
                Ok(Event::Ready(_)) => FrameError::Stop(GatewayFault::ReadyNotHandled),
                Ok(e) => FrameError::Stop(GatewayFault::UnexpectedEvent(e.op())),
            }
        },
    }
}

/// Whether an event is the identification that the client sends with the
/// given token.
pub open spec fn is_identify_for(e: Event, token: Seq<char>) -> bool {
    e matches Event::Identify(id) && {
        &&& id.token@ == token
        &&& id.properties.os@ == "linux"@
        &&& id.properties.browser@ == "chrome"@
        &&& id.properties.device@ == "pc"@
        &&& id.large_threshold == LARGE_THRESHOLD
    }
}

/// Where a session stands in opening: waiting for the gateway's greeting,
/// or, once greeted and identified, for the reply to the identification.
#[derive(Debug, Clone, Copy, PartialEq, Eq, Structural)]
pub enum Phase {
    Greeting,
    Identifying,
}

/// A session being opened with the client's token.
#[derive(Debug, PartialEq, Eq)]
pub struct Session {
    pub phase: Phase,
    pub token: String,
}

/// What the greeting asks of the client: send heartbeats at this interval,
/// and send this identification now.
#[derive(Debug, PartialEq, Eq)]
pub struct Greeted {
    pub heartbeat_interval: Duration,
    pub identify: Event,
}

impl Session {
    /// A session waiting for the gateway's greeting.
    pub fn new(token: String) -> (s: Session)
        ensures
            s.phase == Phase::Greeting,
            s.token == token,
    {
        Session { phase: Phase::Greeting, token }
    }

    /// A frame's text has arrived. At the greeting, a hello gives the
    /// heartbeat interval and the identification to send, and the session
    /// waits for the reply; the reply to the identification always ends the
    /// session (this client does not go on past it yet). Where the session
    /// does not go on, it is left as it was.
    pub fn on_frame(&mut self, text: &str) -> (r: Result<Greeted, FrameError>)
        ensures
            match (old(self).phase, json_of_text(text@)) {
                (_, None) => r matches Err(FrameError::NotJson(_)) && *final(self) == *old(self),
                (Phase::Greeting, Some(j)) => match hello_step(j) {
                    Ok(d) => {
                        &&& r matches Ok(g) && g.heartbeat_interval == d && is_identify_for(
                            g.identify,
                            old(self).token@,
                        )
                        &&& final(self).phase == Phase::Identifying
                        &&& final(self).token == old(self).token
                    },
                    Err(x) => r == Err::<Greeted, FrameError>(x) && *final(self) == *old(self),
                },
                (Phase::Identifying, Some(j)) => r == Err::<Greeted, FrameError>(ready_step(j))
                    && *final(self) == *old(self),
            },
    {
        match self.phase {
            Phase::Greeting => match hello_frame(text) {
                Ok(d) => {
                    let identify = identify_event(&self.token);
                    self.phase = Phase::Identifying;
                    Ok(Greeted { heartbeat_interval: d, identify })
                },
                Err(x) => Err(x),
            },
            Phase::Identifying => Err(identify_reply_frame(text)),
        }
    }
}

/// The state of the heartbeat loop: whether the last heartbeat has been
/// acknowledged, and the sequence number that heartbeats report.
#[derive(Debug, Clone, Copy, PartialEq, Eq)]
pub struct Heartbeater {
    pub heartbeat_ack: bool,
    pub last_sequence_number: Option<u64>,
}

/// What the loop does when the heartbeat interval has passed.
#[derive(Debug, PartialEq, Eq)]
pub enum TickAction {
    /// Send this heartbeat.
    Send(Event),
    /// End the session.
    Fail(GatewayFault),
}

/// What the loop does when the interval passes: send a heartbeat if the last
/// one was acknowledged, or give up.
pub open spec fn tick_action(s: Heartbeater) -> TickAction {
    if s.heartbeat_ack {
        TickAction::Send(Event::Heartbeat(Heartbeat { last_sequence_number: s.last_sequence_number }))
    } else {
        TickAction::Fail(GatewayFault::HeartbeatNotAcknowledged)
    }
}

/// The state once a heartbeat has gone out: waiting for its
/// acknowledgement.
pub open spec fn after_sent(s: Heartbeater) -> Heartbeater {
    Heartbeater { heartbeat_ack: false, ..s }
}

/// The state once the last heartbeat has been acknowledged.
pub open spec fn acknowledged(s: Heartbeater) -> Heartbeater {
    Heartbeater { heartbeat_ack: true, ..s }
}

/// The payloads at which the loop goes on: acknowledgements.
pub open spec fn loop_admits(j: Json) -> bool {
    &&& !is_dispatch_payload(j)
    &&& decode_event(j) == Ok::<Event, TryFromJSONError>(Event::HeartbeatACK)
}

/// What a payload received in the loop comes to, once read as JSON: an
/// acknowledgement is noted, and anything else ends the session.
pub open spec fn loop_step(j: Json) -> Result<(), FrameError> {
    if is_dispatch_payload(j) {
        Err(FrameError::Stop(GatewayFault::DispatchNotRead))
    } else {
        match decode_event(j) {
            Ok(Event::HeartbeatACK) => Ok(()),
            Ok(Event::Heartbeat(_)) => Err(FrameError::Stop(GatewayFault::HeartbeatRequested)),
            Ok(e) => Err(FrameError::Stop(GatewayFault::UnexpectedEvent(op_code(e)))),
            Err(x) => Err(FrameError::Undecodable(x)),
        }
    }
}

/// The heartbeat cycle: from a state whose last heartbeat was acknowledged,
/// a tick sends a heartbeat with the state's sequence number; until that
/// heartbeat is acknowledged the next tick ends the session; and the
/// acknowledgement brings the state back to where it was.
pub proof fn lemma_heartbeat_cycle(s: Heartbeater)
    requires
        s.heartbeat_ack,
    ensures
        tick_action(s) == TickAction::Send(
            Event::Heartbeat(Heartbeat { last_sequence_number: s.last_sequence_number }),
        ),
        tick_action(after_sent(s)) == TickAction::Fail(GatewayFault::HeartbeatNotAcknowledged),
        loop_admits(event_json(Event::HeartbeatACK)),
        loop_step(event_json(Event::HeartbeatACK)) == Ok::<(), FrameError>(()),
        acknowledged(after_sent(s)) == s,
{
    lemma_decode_event_json(Event::HeartbeatACK);
}

/// The loop goes on exactly at an acknowledgement, and nothing in it
/// changes the sequence number that heartbeats report.
pub proof fn lemma_loop_step(s: Heartbeater, j: Json)
    ensures
        loop_step(j) is Ok <==> loop_admits(j),
        acknowledged(s).last_sequence_number == s.last_sequence_number,
        after_sent(s).last_sequence_number == s.last_sequence_number,
{
}

/// How each step reads a payload, by its op code alone, whatever other
/// entries it carries: a dispatch (op code 0) stops every step as not read;
/// an acknowledgement (op code 11) lets the loop go on and is unexpected at
/// either handshake; a hello with an interval of `ms` milliseconds opens the
/// session with that interval; and an event is reported as unexpected only
/// under its own op code, which is never 0.
pub proof fn lemma_steps_by_op(j: Json)
    ensures
        j is Object && json_get(j, "op"@) == Some(num(0)) ==> {
            &&& hello_step(j) == Err::<Duration, FrameError>(
                FrameError::Stop(GatewayFault::DispatchNotRead),
            )
            &&& ready_step(j) == FrameError::Stop(GatewayFault::DispatchNotRead)
            &&& loop_step(j) == Err::<(), FrameError>(
                FrameError::Stop(GatewayFault::DispatchNotRead),
            )
        },
        j is Object && json_get(j, "op"@) == Some(num(11)) ==> {
            &&& loop_step(j) == Ok::<(), FrameError>(())
            &&& loop_admits(j)
            &&& ready_step(j) == FrameError::Stop(GatewayFault::UnexpectedEvent(11))
            &&& hello_step(j) == Err::<Duration, FrameError>(
                FrameError::Stop(GatewayFault::UnexpectedEvent(11)),
            )
        },
        forall|ms: u64|
            #![trigger duration_from_millis(ms)]
            (j is Object && json_get(j, "op"@) == Some(num(10)) && (json_get(j, "d"@) matches Some(
                d,
            ) && json_get(d, "heartbeat_interval"@) == Some(num(ms)))) ==> hello_step(j) == Ok::<
                Duration,
                FrameError,
            >(duration_from_millis(ms)),
        ready_step(j) matches FrameError::Stop(GatewayFault::UnexpectedEvent(op)) ==> {
            &&& j is Object
            &&& json_get(j, "op"@) == Some(num(op))
            &&& op != 0
        },
        hello_step(j) matches Err(FrameError::Stop(GatewayFault::UnexpectedEvent(op))) ==> {
            &&& j is Object
            &&& json_get(j, "op"@) == Some(num(op))
            &&& op != 0
        },
        loop_step(j) matches Err(FrameError::Stop(GatewayFault::UnexpectedEvent(op))) ==> {
            &&& j is Object
            &&& json_get(j, "op"@) == Some(num(op))
            &&& op != 0
        },
{
    lemma_dispatch_is_op_zero(j);
    if j is Object && json_get(j, "op"@) == Some(num(11)) {
        lemma_decode_by_op(j, 11);
    }
    if j is Object && json_get(j, "op"@) == Some(num(10)) {
        lemma_decode_by_op(j, 10);
    }
}

/// A hello that gives its interval in milliseconds opens the session with
/// that interval.
pub proof fn lemma_handshake_hello(millis: u64)
    ensures
        hello_admits(hello_payload(millis)),
        hello_step(hello_payload(millis)) == Ok::<Duration, FrameError>(
            duration_from_millis(millis),
        ),
{
    lemma_decode_hello(millis);
}

impl Heartbeater {
    /// The loop as it starts: nothing to acknowledge, no sequence number.
    pub fn new() -> (s: Heartbeater)
        ensures
            s.heartbeat_ack,
            s.last_sequence_number is None,
    {
        Heartbeater { heartbeat_ack: true, last_sequence_number: None }
    }

    /// The heartbeat to send once the last one has been acknowledged.
    pub fn heartbeat(&self) -> (e: Event)
        requires
            self.heartbeat_ack,
        ensures
            e == Event::Heartbeat(Heartbeat { last_sequence_number: self.last_sequence_number }),
    {
        Event::heartbeat(self.last_sequence_number)
    }

    /// The heartbeat interval has passed.
    pub fn on_tick(&self) -> (a: TickAction)
        ensures
            a == tick_action(*self),
    {
        if self.heartbeat_ack {
            TickAction::Send(self.heartbeat())
        } else {
            TickAction::Fail(GatewayFault::HeartbeatNotAcknowledged)
        }
    }

    /// The heartbeat has been sent.
    pub fn on_heartbeat_sent(&mut self)
        ensures
            *final(self) == after_sent(*old(self)),
    {
        self.heartbeat_ack = false;
    }

    /// An acknowledgement has arrived.
    pub fn on_payload(&mut self, payload: &JsonValue)
        requires
            loop_admits(payload@),
        ensures
            *final(self) == acknowledged(*old(self)),
    {
        self.heartbeat_ack = true;
    }

    /// A frame's text has arrived; where the session does not go on, the
    /// state is left as it was.
    pub fn on_frame(&mut self, text: &str) -> (r: Result<(), FrameError>)
        ensures
            match json_of_text(text@) {
                Some(j) => {
                    &&& r == loop_step(j)
                    &&& *final(self) == if loop_step(j) is Ok {
                        acknowledged(*old(self))
                    } else {
                        *old(self)
                    }
                },
                None => r matches Err(FrameError::NotJson(_)) && *final(self) == *old(self),
            },
    {
        match parse_json(text) {
            Err(e) => Err(FrameError::NotJson(e)),
            Ok(payload) => {
                if Event::is_dispatch(&payload) {
                    return Err(FrameError::Stop(GatewayFault::DispatchNotRead));
                }
                match Event::decode(&payload) {
                    Ok(Event::HeartbeatACK) => {
                        self.on_payload(&payload);
                        Ok(())
                    },
                    Ok(Event::Heartbeat(_)) => Err(FrameError::Stop(GatewayFault::HeartbeatRequested)),
                    Ok(e) => Err(FrameError::Stop(GatewayFault::UnexpectedEvent(e.op()))),
                    Err(x) => Err(FrameError::Undecodable(x)),
                }
            },
        }
    }
}

} // verus!
