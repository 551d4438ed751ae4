//! The gateway session: the wire envelope, how a frame is classified, and the
//! state machine that answers the server's hello, tracks the sequence number and
//! hands typed messages to the caller.
//!
//! The session holds no socket. Its caller receives a frame from the transport,
//! gives it to [`Gateway::recv`], and carries out the [`Reply`]: start a
//! heartbeat, send a frame, then deliver the message, wait for the next frame, or
//! fail.

use vstd::prelude::*;
use vstd::string::*;
use crate::decimal::{decimal, push_decimal};
pub use crate::discord::UnavailableGuild;
pub use crate::events::{
    Emoji, Event, Hello, IdUser, MessageReactionAdd, MessageReactionRemove, PresenceUpdate, Ready,
    VoiceServerUpdate, VoiceStateUpdate,
};
use crate::gateway_ws::{Message, WebSocketError};
use crate::json::{json_of_text, quote, quoted, Json};
use crate::send_message::Error;
use crate::text::join2;

verus! {

/// Where the platform says its gateway is.
#[derive(Debug, PartialEq, Eq)]
pub struct GatewayInfo {
    pub ws_url: String,
}

impl GatewayInfo {
    pub fn new(url: String) -> (r: GatewayInfo)
        ensures
            r.ws_url == url,
    {
        GatewayInfo { ws_url: url }
    }

    pub fn get_url<'a>(&'a self) -> (r: &'a str)
        ensures
            r@ == self.ws_url@,
    {
        self.ws_url.as_str()
    }

    pub open spec fn reads(self, j: Json) -> bool {
        j.text_at("url"@) == Some(self.ws_url@)
    }

    pub fn decode(j: &Json) -> (r: Option<GatewayInfo>)
        ensures
            r matches Some(v) ==> v.reads(*j),
            r is None ==> forall|v: GatewayInfo| !v.reads(*j),
    {
        match j.read_text("url") {
            Some(url) => Some(GatewayInfo { ws_url: url }),
            None => None,
        }
    }

    /// Reads the answer of the bootstrap request. `json` is what the body parsed to.
    /// A body that is no JSON, or holds no `url` string, is a `Misc` error.
    pub fn from_json(json: Option<Json>) -> (r: Result<GatewayInfo, GatewayError>)
        ensures
            match r {
                Ok(info) => json matches Some(j) && info.reads(j),
                Err(e) => {
                    &&& e matches GatewayError::Misc(m) && m@ == "deserialize"@
                    &&& json matches Some(j) ==> forall|v: GatewayInfo| !v.reads(j)
                },
            },
    {
        match json {
            Some(j) => match GatewayInfo::decode(&j) {
                Some(info) => Ok(info),
                None => Err(GatewayError::Misc(String::from_str("deserialize"))),
            },
            None => Err(GatewayError::Misc(String::from_str("deserialize"))),
        }
    }

    /// Reads the body of the answer to the bootstrap request.
    pub fn from_body(body: &str) -> (r: Result<GatewayInfo, GatewayError>)
        ensures
            match r {
                Ok(info) => json_of_text(body@) matches Some(j) && info.reads(j),
                Err(e) => {
                    &&& e matches GatewayError::Misc(m) && m@ == "deserialize"@
                    &&& json_of_text(body@) matches Some(j) ==> forall|v: GatewayInfo| !v.reads(j)
                },
            },
    {
        GatewayInfo::from_json(Json::parse(body))
    }

    /// The address of the socket to open: the gateway's address and, appended to
    /// it, the query that asks for protocol version 9 in JSON.
    pub open spec fn endpoint(self) -> Seq<char> {
        self.ws_url@ + "?v=9&encoding=json"@
    }

    pub fn socket_url(&self) -> (r: String)
        ensures
            r@ == self.endpoint(),
    {
        join2(self.ws_url.as_str(), "?v=9&encoding=json")
    }
}

/// The path of the bootstrap request under a REST base address.
pub fn gateway_bot_url(base_url: &str) -> (r: String)
    ensures
        r@ == base_url@ + "/gateway/bot"@,
{
    join2(base_url, "/gateway/bot")
}

/// The value of the `Authorization` header for a bot token.
pub fn bot_authorization(token: &str) -> (r: String)
    ensures
        r@ == "Bot "@ + token@,
{
    join2("Bot ", token)
}

/// Why a payload could not be turned into a message.
#[derive(Debug, PartialEq, Eq)]
pub enum ParsePayloadError {
    /// A dispatch without an event name.
    MissingEventName,
    /// An opcode that this library does not know.
    UnknownOpcode(u64),
    /// A known opcode or event whose body does not have its shape.
    Malformed,
}

/// Why a gateway operation failed.
#[derive(Debug, PartialEq, Eq)]
pub enum GatewayError {
    Misc(String),
    WebSocket(WebSocketError),
    MalformedPayload,
    /// The bootstrap request failed; the text says how.
    ReqwestError(String),
    InvalidSession,
    UnknownOpcode(u64),
}

impl GatewayError {
    /// The error as a line of text.
    pub open spec fn description(self) -> Seq<char> {
        match self {
            GatewayError::Misc(m) => "Gateway Misc: "@ + m@,
            GatewayError::WebSocket(e) => "Web Socket Error: "@ + e.description(),
            GatewayError::MalformedPayload => "Malformed Payload Error"@,
            GatewayError::ReqwestError(m) => "Request Error "@ + m@,
            GatewayError::InvalidSession => "Invalid Session"@,
            GatewayError::UnknownOpcode(op) => "Unknown Opcode "@ + decimal(op as nat),
        }
    }

    pub fn describe(&self) -> (r: String)
        ensures
            r@ == self.description(),
    {
        match self {
            GatewayError::Misc(m) => join2("Gateway Misc: ", m.as_str()),
            GatewayError::WebSocket(e) => {
                let inner = e.describe();
                join2("Web Socket Error: ", inner.as_str())
            },
            GatewayError::MalformedPayload => String::from_str("Malformed Payload Error"),
            GatewayError::ReqwestError(m) => join2("Request Error ", m.as_str()),
            GatewayError::InvalidSession => String::from_str("Invalid Session"),
            GatewayError::UnknownOpcode(op) => {
                let mut out = String::from_str("Unknown Opcode ");
                push_decimal(&mut out, *op);
                out
            },
        }
    }

    /// `self` is the gateway error for a payload that could not be parsed as `err`
    /// says: a malformed payload and an unknown opcode keep their kind, anything
    /// else is a `Misc` error that names it.
    pub open spec fn is_of_parse(self, err: ParsePayloadError) -> bool {
        match err {
            ParsePayloadError::Malformed => self == GatewayError::MalformedPayload,
            ParsePayloadError::UnknownOpcode(op) => self == GatewayError::UnknownOpcode(op),
            ParsePayloadError::MissingEventName => self matches GatewayError::Misc(m) && m@
                == "Unexpected Parse Payload Error: MissingEventName"@,
        }
    }

    pub fn from_parse(err: ParsePayloadError) -> (r: GatewayError)
        ensures
            r.is_of_parse(err),
    {
        match err {
            ParsePayloadError::Malformed => GatewayError::MalformedPayload,
            ParsePayloadError::UnknownOpcode(op) => GatewayError::UnknownOpcode(op),
            ParsePayloadError::MissingEventName => GatewayError::Misc(
                String::from_str("Unexpected Parse Payload Error: MissingEventName"),
            ),
        }
    }

    /// The error of a bootstrap request that the shared retry loop gave up on.
    pub fn bootstrap_failed(err: &Error) -> (r: GatewayError)
        ensures
            r matches GatewayError::ReqwestError(m) && m@ == err.description(),
    {
        GatewayError::ReqwestError(err.describe())
    }

    /// The error of a receive that the transport failed.
    pub fn recv_failed(err: &WebSocketError) -> (r: GatewayError)
        ensures
            r matches GatewayError::Misc(m) && m@ == "failed to recv message: "@
                + err.description(),
    {
        let inner = err.describe();
        GatewayError::Misc(join2("failed to recv message: ", inner.as_str()))
    }

    /// The error of an answer to the hello that could not be sent; `detail` is what
    /// the transport said.
    pub fn hello_failed(resumed: bool, detail: &str) -> (r: GatewayError)
        ensures
            r matches GatewayError::Misc(m) && m@ == (if resumed {
                "failed to respond to hello (resume) "@
            } else {
                "failed to respond to hello "@
            }) + detail@,
    {
        if resumed {
            GatewayError::Misc(join2("failed to respond to hello (resume) ", detail))
        } else {
            GatewayError::Misc(join2("failed to respond to hello ", detail))
        }
    }
}

impl From<WebSocketError> for GatewayError {
    fn from(err: WebSocketError) -> (r: GatewayError) {
        GatewayError::WebSocket(err)
    }
}

impl vstd::std_specs::convert::FromSpecImpl<WebSocketError> for GatewayError {
    open spec fn obeys_from_spec() -> bool {
        true
    }

    open spec fn from_spec(err: WebSocketError) -> GatewayError {
        GatewayError::WebSocket(err)
    }
}

/// The wire envelope of every gateway frame.
#[derive(Debug, PartialEq, Eq)]
pub struct Payload {
    /// The opcode.
    pub op: u64,
    /// The body, null where the frame has none.
    pub data: Json,
    /// The sequence number; the server sets it on dispatches.
    pub seq_num: Option<u64>,
    /// The event name of a dispatch.
    pub event: Option<String>,
}

impl Payload {
    /// The payload is what the JSON value `j` holds under `op`, `d`, `s` and `t`.
    pub open spec fn reads(self, j: Json) -> bool {
        &&& j.unsigned_at("op"@) == Some(self.op)
        &&& self.data == match j.field("d"@) {
            Some(d) => d,
            None => Json::Null,
        }
        &&& j.opt_unsigned_at("s"@) == Some(self.seq_num)
        &&& j.opt_text_at("t"@) == Some(crate::discord::opt_view(self.event))
    }

    pub fn decode(j: Json) -> (r: Option<Payload>)
        ensures
            r matches Some(v) ==> v.reads(j),
            r is None ==> forall|v: Payload| !v.reads(j),
    {
        let op = match j.read_unsigned("op") {
            Some(v) => v,
            None => { return None; },
        };
        let seq_num = match j.read_opt_unsigned("s") {
            Some(v) => v,
            None => { return None; },
        };
        let event = match j.read_opt_text("t") {
            Some(v) => v,
            None => { return None; },
        };
        let data = match j.take("d") {
            Some(d) => d,
            None => Json::Null,
        };
        Some(Payload { op, data, seq_num, event })
    }
}

/// What a session hands to its caller.
#[derive(Debug, PartialEq, Eq)]
pub enum GatewayMessage {
    /// A dispatch.
    Event(Event),
    /// The server's greeting. The session has answered it already.
    Hello(Hello),
    /// The server asks the client to reconnect.
    Reconnect,
    /// The server has dropped the session.
    InvalidSession,
    Unknown(Json),
    /// A frame that carries no payload for the session, as it came.
    Raw(Message),
    Temp,
}

pub const OP_DISPATCH: u64 = 0;

pub const OP_HEARTBEAT: u64 = 1;

pub const OP_IDENTIFY: u64 = 2;

pub const OP_RESUME: u64 = 6;

pub const OP_RECONNECT: u64 = 7;

pub const OP_INVALID_SESSION: u64 = 9;

pub const OP_HELLO: u64 = 10;

pub const OP_HEARTBEAT_ACK: u64 = 11;

/// `r` is the outcome of parsing `p`: the message for its opcode, `Ok(None)` for a
/// heartbeat acknowledgement, and an error for a dispatch without a name, for a
/// body that no known event or hello reads, and for an opcode that is not known.
pub open spec fn parsed(r: Result<Option<GatewayMessage>, ParsePayloadError>, p: Payload) -> bool {
    if p.op == OP_DISPATCH {
        match p.event {
            Some(name) => match r {
                Ok(Some(GatewayMessage::Event(e))) => e.reads(name@, p.data),
                Err(ParsePayloadError::Malformed) => forall|e: Event| !e.reads(name@, p.data),
                _ => false,
            },
            None => r == Err::<Option<GatewayMessage>, _>(ParsePayloadError::MissingEventName),
        }
    } else if p.op == OP_RECONNECT {
        r == Ok::<_, ParsePayloadError>(Some(GatewayMessage::Reconnect))
    } else if p.op == OP_INVALID_SESSION {
        r == Ok::<_, ParsePayloadError>(Some(GatewayMessage::InvalidSession))
    } else if p.op == OP_HELLO {
        match r {
            Ok(Some(GatewayMessage::Hello(h))) => h.reads(p.data),
            Err(ParsePayloadError::Malformed) => forall|h: Hello| !h.reads(p.data),
            _ => false,
        }
    } else if p.op == OP_HEARTBEAT_ACK {
        r == Ok::<Option<GatewayMessage>, ParsePayloadError>(None)
    } else {
        r == Err::<Option<GatewayMessage>, _>(ParsePayloadError::UnknownOpcode(p.op))
    }
}

/// Turns a payload into the message that it carries.
pub fn parse_payload_inner(payload: Payload) -> (r: Result<
    Option<GatewayMessage>,
    ParsePayloadError,
>)
    ensures
        parsed(r, payload),
{
    let Payload { op, data, seq_num, event } = payload;
    if op == OP_DISPATCH {
        match event {
            Some(name) => match Event::decode(name.as_str(), data) {
                Some(e) => Ok(Some(GatewayMessage::Event(e))),
                None => Err(ParsePayloadError::Malformed),
            },
            None => Err(ParsePayloadError::MissingEventName),
        }
    } else if op == OP_RECONNECT {
        Ok(Some(GatewayMessage::Reconnect))
    } else if op == OP_INVALID_SESSION {
        Ok(Some(GatewayMessage::InvalidSession))
    } else if op == OP_HELLO {
        match Hello::decode(&data) {
            Some(h) => Ok(Some(GatewayMessage::Hello(h))),
            None => Err(ParsePayloadError::Malformed),
        }
    } else if op == OP_HEARTBEAT_ACK {
        Ok(None)
    } else {
        Err(ParsePayloadError::UnknownOpcode(op))
    }
}

/// Parses a payload and hands its sequence number out beside the outcome.
pub fn parse_payload(payload: Payload) -> (r: (
    Result<Option<GatewayMessage>, ParsePayloadError>,
    Option<u64>,
))
    ensures
        parsed(r.0, payload),
        r.1 == payload.seq_num,
{
    let seq_num = payload.seq_num;
    let inner = parse_payload_inner(payload);
    (inner, seq_num)
}

/// Events of guilds.
pub const INTENT_GUILDS: u64 = 0x1;

/// Messages in guilds.
pub const INTENT_GUILD_MESSAGES: u64 = 0x200;

/// Reactions to messages in guilds.
pub const INTENT_GUILD_MESSAGE_REACTIONS: u64 = 0x400;

/// Direct messages.
pub const INTENT_DIRECT_MESSAGES: u64 = 0x1000;

/// Reactions to direct messages.
pub const INTENT_DIRECT_MESSAGE_REACTIONS: u64 = 0x2000;

/// The events that a session subscribes to, as the bit mask of the identify frame.
pub const INTENTS: u64 = 0x3601;

/// The mask is the union of the five subscribed categories, bits 0, 9, 10, 12 and 13.
pub proof fn lemma_intents()
    ensures
        INTENTS == INTENT_GUILDS | INTENT_GUILD_MESSAGES | INTENT_GUILD_MESSAGE_REACTIONS
            | INTENT_DIRECT_MESSAGES | INTENT_DIRECT_MESSAGE_REACTIONS,
        INTENTS == 13825,
        INTENT_GUILDS == 1u64 << 0,
        INTENT_GUILD_MESSAGES == 1u64 << 9,
        INTENT_GUILD_MESSAGE_REACTIONS == 1u64 << 10,
        INTENT_DIRECT_MESSAGES == 1u64 << 12,
        INTENT_DIRECT_MESSAGE_REACTIONS == 1u64 << 13,
{
    assert(0x3601u64 == 0x1u64 | 0x200u64 | 0x400u64 | 0x1000u64 | 0x2000u64) by (bit_vector);
    assert(0x1u64 == 1u64 << 0) by (bit_vector);
    assert(0x200u64 == 1u64 << 9) by (bit_vector);
    assert(0x400u64 == 1u64 << 10) by (bit_vector);
    assert(0x1000u64 == 1u64 << 12) by (bit_vector);
    assert(0x2000u64 == 1u64 << 13) by (bit_vector);
}

/// The identify frame up to the token.
pub open spec fn identify_head() -> Seq<char> {
    "{\n    \"op\": 2,\n    \"d\": {\n        \"token\": \""@
}

/// The identify frame between the token and the intents.
pub open spec fn identify_middle() -> Seq<char> {
    "\",\n        \"intents\": "@
}

/// The identify frame after the intents.
pub open spec fn identify_tail() -> Seq<char> {
    ",\n        \"properties\": {\"$os\": \"linux\", \"$browser\": \"test\", \"$device\": \"test\"}\n    }\n}"@
}

/// The frame that opens a new session: opcode 2 with the token, the intents and the
/// client's properties.
pub open spec fn identify_frame(token: Seq<char>) -> Seq<char> {
    identify_head() + token + identify_middle() + decimal(INTENTS as nat) + identify_tail()
}

/// A frame with the body of a resume under the opcode `op`: the token, the session
/// id and the last sequence number, the two texts as JSON strings.
pub open spec fn resume_text(op: u8, token: Seq<char>, session_id: Seq<char>, seq: u64) -> Seq<
    char,
> {
    "{\"op\":"@ + decimal(op as nat) + ",\"d\":{\"token\":"@ + quoted(token)
        + ",\"session_id\":"@ + quoted(session_id) + ",\"seq\":"@ + decimal(seq as nat) + "}}"@
}

/// The frame that takes a session up again: opcode 6 with the token, the session id
/// and the last sequence number.
pub open spec fn resume_frame(token: Seq<char>, session_id: Seq<char>, seq: u64) -> Seq<char> {
    resume_text(6, token, session_id, seq)
}

/// The frame that keeps a session alive: opcode 1 with no body.
pub open spec fn heartbeat_frame() -> Seq<char> {
    "{\"op\": 1, \"d\": null}"@
}

/// The text of the identify frame for `token`.
pub fn identify_text(token: &str) -> (r: String)
    ensures
        r@ == identify_frame(token@),
{
    let mut out = String::from_str("{\n    \"op\": 2,\n    \"d\": {\n        \"token\": \"");
    out.append(token);
    out.append("\",\n        \"intents\": ");
    push_decimal(&mut out, INTENTS);
    out.append(
        ",\n        \"properties\": {\"$os\": \"linux\", \"$browser\": \"test\", \"$device\": \"test\"}\n    }\n}",
    );
    out
}

/// The text of the heartbeat frame.
pub fn heartbeat_text() -> (r: &'static str)
    ensures
        r@ == heartbeat_frame(),
{
    "{\"op\": 1, \"d\": null}"
}

/// The body of a resume frame.
#[derive(Debug, PartialEq, Eq)]
pub struct ResumeData<'a> {
    pub token: &'a str,
    pub session_id: &'a str,
    pub seq: u64,
}

/// A resume frame.
#[derive(Debug, PartialEq, Eq)]
pub struct Resume<'a> {
    pub op: u8,
    pub d: ResumeData<'a>,
}

impl<'a> Resume<'a> {
    pub fn new(token: &'a str, session_id: &'a str, seq: u64) -> (r: Self)
        ensures
            r.op == 6,
            r.d.token@ == token@,
            r.d.session_id@ == session_id@,
            r.d.seq == seq,
    {
        Resume { op: 6, d: ResumeData { token, session_id, seq } }
    }

    /// The frame as text.
    pub fn to_text(&self) -> (r: String)
        ensures
            r@ == resume_text(self.op, self.d.token@, self.d.session_id@, self.d.seq),
    {
        let token = quote(self.d.token);
        let session = quote(self.d.session_id);
        let mut out = String::from_str("{\"op\":");
        push_decimal(&mut out, self.op as u64);
        out.append(",\"d\":{\"token\":");
        out.append(token.as_str());
        out.append(",\"session_id\":");
        out.append(session.as_str());
        out.append(",\"seq\":");
        push_decimal(&mut out, self.d.seq);
        out.append("}}");
        out
    }
}

/// What a session needs to take an earlier session up again.
#[derive(Debug, PartialEq, Eq)]
pub struct ResumeInfo {
    pub session_id: String,
    pub seq: u64,
}

/// The state of one gateway session.
#[derive(Debug, PartialEq, Eq)]
pub struct Gateway {
    pub token: String,
    /// The session to resume, if any.
    pub resume: Option<ResumeInfo>,
    /// The sequence number that was seen last.
    pub seq_num: Option<u64>,
    /// Once the hello is answered: whether with a resume.
    pub did_resume: Option<bool>,
}

/// How a receive goes on after one frame.
#[derive(Debug, PartialEq, Eq)]
pub enum Outcome {
    /// The receive returns this message.
    Deliver(GatewayMessage),
    /// The frame is consumed; the receive waits for the next one.
    Again,
    /// The receive fails.
    Fail(GatewayError),
}

/// What the caller does after one frame, in this order: start a heartbeat task
/// with `heartbeat` as its interval in milliseconds, send `send`, follow `outcome`.
#[derive(Debug, PartialEq, Eq)]
pub struct Reply {
    pub heartbeat: Option<u64>,
    pub send: Option<String>,
    pub outcome: Outcome,
}

impl Reply {
    /// A reply that starts and sends nothing.
    pub open spec fn only(self, outcome: Outcome) -> bool {
        self.heartbeat is None && self.send is None && self.outcome == outcome
    }
}

impl Gateway {
    /// A session that has seen no frame yet.
    pub fn new(token: String, resume: Option<ResumeInfo>) -> (r: Gateway)
        ensures
            r.token == token,
            r.resume == resume,
            r.seq_num is None,
            r.did_resume is None,
    {
        Gateway { token, resume, seq_num: None, did_resume: None }
    }

    /// The frame with which this session answers a hello: a resume frame where it
    /// has a session to resume, an identify frame where it has none.
    pub open spec fn answer(self) -> Seq<char> {
        match self.resume {
            Some(info) => resume_frame(self.token@, info.session_id@, info.seq),
            None => identify_frame(self.token@),
        }
    }

    /// `new` and `reply` are what follows in state `self` from a frame whose payload
    /// parsed to `outcome` and carried the sequence number `seq`.
    ///
    /// A sequence number that is there overwrites the last one, whatever it is. A
    /// hello starts the heartbeat and is answered with [`Gateway::answer`]; which
    /// answer it was is recorded. An acknowledged heartbeat is consumed. A dispatch
    /// without a name surfaces as the raw frame. Every other error fails the receive.
    pub open spec fn applied(
        self,
        outcome: Result<Option<GatewayMessage>, ParsePayloadError>,
        seq: Option<u64>,
        frame: Message,
        new: Gateway,
        reply: Reply,
    ) -> bool {
        &&& new.token == self.token
        &&& new.resume == self.resume
        &&& new.seq_num == (if seq is Some {
            seq
        } else {
            self.seq_num
        })
        &&& match outcome {
            Ok(Some(GatewayMessage::Hello(h))) => {
                &&& new.did_resume == Some(self.resume is Some)
                &&& reply.heartbeat == Some(h.heartbeat_interval)
                &&& reply.send matches Some(t) && t@ == self.answer()
                &&& reply.outcome == Outcome::Deliver(GatewayMessage::Hello(h))
            },
            Ok(Some(message)) => new.did_resume == self.did_resume && reply.only(
                Outcome::Deliver(message),
            ),
            Ok(None) => new.did_resume == self.did_resume && reply.only(Outcome::Again),
            Err(ParsePayloadError::MissingEventName) => new.did_resume == self.did_resume
                && reply.only(Outcome::Deliver(GatewayMessage::Raw(frame))),
            Err(e) => {
                &&& new.did_resume == self.did_resume
                &&& reply.heartbeat is None
                &&& reply.send is None
                &&& reply.outcome matches Outcome::Fail(g) && g.is_of_parse(e)
            },
        }
    }

    /// Takes the outcome of parsing one payload: updates the session and says what
    /// the receive does.
    pub fn apply(
        &mut self,
        outcome: Result<Option<GatewayMessage>, ParsePayloadError>,
        seq: Option<u64>,
        frame: Message,
    ) -> (reply: Reply)
        ensures
            old(self).applied(outcome, seq, frame, *final(self), reply),
    {
        if seq.is_some() {
            self.seq_num = seq;
        }
        match outcome {
            Ok(Some(GatewayMessage::Hello(hello))) => {
                let interval = hello.heartbeat_interval;
                let text = match &self.resume {
                    Some(info) => {
                        self.did_resume = Some(true);
                        Resume::new(self.token.as_str(), info.session_id.as_str(), info.seq).to_text()
                    },
                    None => {
                        self.did_resume = Some(false);
                        identify_text(self.token.as_str())
                    },
                };
                Reply {
                    heartbeat: Some(interval),
                    send: Some(text),
                    outcome: Outcome::Deliver(GatewayMessage::Hello(hello)),
                }
            },
            Ok(Some(message)) => Reply {
                heartbeat: None,
                send: None,
                outcome: Outcome::Deliver(message),
            },
            Ok(None) => Reply { heartbeat: None, send: None, outcome: Outcome::Again },
            Err(ParsePayloadError::MissingEventName) => Reply {
                heartbeat: None,
                send: None,
                outcome: Outcome::Deliver(GatewayMessage::Raw(frame)),
            },
            Err(e) => Reply {
                heartbeat: None,
                send: None,
                outcome: Outcome::Fail(GatewayError::from_parse(e)),
            },
        }
    }

    /// `new` and `reply` are what follows in state `self` from a text frame `frame`
    /// whose text parsed to `json`: a text that is no JSON, or no payload, fails
    /// the receive as malformed and leaves the session as it is; a payload is
    /// parsed and applied.
    pub open spec fn stepped(self, json: Option<Json>, frame: Message, new: Gateway, reply: Reply) -> bool {
        match json {
            Some(j) => {
                ||| (forall|p: Payload| !p.reads(j)) && new == self && reply.only(
                    Outcome::Fail(GatewayError::MalformedPayload),
                )
                ||| exists|p: Payload, r: Result<Option<GatewayMessage>, ParsePayloadError>|
                    p.reads(j) && #[trigger] parsed(r, p) && self.applied(
                        r,
                        p.seq_num,
                        frame,
                        new,
                        reply,
                    )
            },
            None => new == self && reply.only(Outcome::Fail(GatewayError::MalformedPayload)),
        }
    }

    /// Takes a text frame together with what its text parsed to.
    pub fn on_text(&mut self, frame: Message, json: Option<Json>) -> (reply: Reply)
        ensures
            old(self).stepped(json, frame, *final(self), reply),
    {
        let malformed = Reply {
            heartbeat: None,
            send: None,
            outcome: Outcome::Fail(GatewayError::MalformedPayload),
        };
        match json {
            Some(j) => match Payload::decode(j) {
                Some(payload) => {
                    let ghost p = payload;
                    let (outcome, seq) = parse_payload(payload);
                    let reply = self.apply(outcome, seq, frame);
                    assert(p.reads(j) && parsed(outcome, p) && old(self).applied(
                        outcome,
                        p.seq_num,
                        frame,
                        *self,
                        reply,
                    ));
                    reply
                },
                None => malformed,
            },
            None => malformed,
        }
    }

    /// Takes the next frame of the transport. A frame that is no text surfaces as
    /// it is. A text frame is read as JSON and handled as [`Gateway::stepped`] says.
    pub fn recv(&mut self, frame: Message) -> (reply: Reply)
        ensures
            match frame {
                Message::Text(text) => old(self).stepped(
                    json_of_text(text@),
                    frame,
                    *final(self),
                    reply,
                ),
                _ => *final(self) == *old(self) && reply.only(
                    Outcome::Deliver(GatewayMessage::Raw(frame)),
                ),
            },
    {
        match &frame {
            Message::Text(text) => {
                let json = Json::parse(text.as_str());
                self.on_text(frame, json)
            },
            _ => Reply {
                heartbeat: None,
                send: None,
                outcome: Outcome::Deliver(GatewayMessage::Raw(frame)),
            },
        }
    }
}

/// What a heartbeat task does next.
#[derive(Debug, Clone, Copy, PartialEq, Eq, Structural)]
pub enum HeartbeatAction {
    /// Sleep for `secs` seconds and `nanos` nanoseconds, then put the heartbeat
    /// frame on the outbound queue and report how that went.
    SleepThenSend { secs: u64, nanos: u32 },
    /// End the task, silently.
    Stop,
}

/// The next action of a heartbeat task with an interval of `interval_ms`
/// milliseconds. `last_send` is `None` when the task starts, and afterwards says
/// whether the last frame could be queued. The task sleeps for the interval before
/// every frame and ends for good with the first frame that could not be queued.
pub fn send_heartbeat(interval_ms: u64, last_send: Option<bool>) -> (r: HeartbeatAction)
    ensures
        last_send == Some(false) ==> r == HeartbeatAction::Stop,
        last_send != Some(false) ==> r == (HeartbeatAction::SleepThenSend {
            secs: interval_ms / 1000,
            nanos: ((interval_ms % 1000) * 1_000_000) as u32,
        }),
        r matches HeartbeatAction::SleepThenSend { secs, nanos } ==> secs * 1000 + nanos
            / 1_000_000 == interval_ms && nanos % 1_000_000 == 0,
{
    match last_send {
        Some(false) => HeartbeatAction::Stop,
        _ => {
            let secs: u64 = interval_ms / 1000;
            let millis: u64 = interval_ms % 1000;
            let nanos: u32 = (millis * 1_000_000) as u32;
            HeartbeatAction::SleepThenSend { secs, nanos }
        },
    }
}

/// The REST base address that a builder starts with.
pub open spec fn default_base_url() -> Seq<char> {
    "https://discordapp.com/api/v9"@
}

/// Collects what a session is opened with.
#[derive(Debug, PartialEq, Eq)]
pub struct GatewayBuilder {
    pub base_url_val: String,
    pub resume: Option<ResumeInfo>,
}

/// The bootstrap request of a session and the session that it leads to.
#[derive(Debug, PartialEq, Eq)]
pub struct Bootstrap {
    /// The address to GET.
    pub url: String,
    /// The value of the `Authorization` header.
    pub authorization: String,
    /// The session, ready for its first frame.
    pub gateway: Gateway,
}

impl GatewayBuilder {
    pub fn new() -> (r: GatewayBuilder)
        ensures
            r.base_url_val@ == default_base_url(),
            r.resume is None,
    {
        GatewayBuilder { base_url_val: String::from_str("https://discordapp.com/api/v9"), resume: None }
    }

    pub fn base_url(self, base_url: String) -> (r: GatewayBuilder)
        ensures
            r.base_url_val == base_url,
            r.resume == self.resume,
    {
        let mut builder = self;
        builder.base_url_val = base_url;
        builder
    }

    pub fn resume(self, session_id: String, seq: u64) -> (r: GatewayBuilder)
        ensures
            r.base_url_val == self.base_url_val,
            r.resume == Some(ResumeInfo { session_id, seq }),
    {
        let mut builder = self;
        builder.resume = Some(ResumeInfo { session_id, seq });
        builder
    }

    /// What connecting starts with: the bootstrap request, and the session with the
    /// token and the resume information of this builder.
    pub fn connect(self, token: String) -> (r: Bootstrap)
        ensures
            r.url@ == self.base_url_val@ + "/gateway/bot"@,
            r.authorization@ == "Bot "@ + token@,
            r.gateway.token == token,
            r.gateway.resume == self.resume,
            r.gateway.seq_num is None,
            r.gateway.did_resume is None,
    {
        let url = gateway_bot_url(self.base_url_val.as_str());
        let authorization = bot_authorization(token.as_str());
        Bootstrap { url, authorization, gateway: Gateway::new(token, self.resume) }
    }
}

} // verus!
