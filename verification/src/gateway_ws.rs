//! The transport under a session: WebSocket messages as plain values, the rules by
//! which a bridge moves them between a socket and two queues, and what opening a
//! socket asks of the HTTP request that upgrades to it.
//!
//! Nothing here touches a socket. The bridge is a state machine: its caller reads
//! the queue and the socket, reports each thing that happened as a [`BridgeEvent`],
//! and performs the [`BridgeAction`] that comes back.

use vstd::prelude::*;
use vstd::string::*;
use crate::decimal::{decimal, push_decimal};
use crate::text::{join2, replace, replace_all};

verus! {

/// The status code and reason with which a peer closes.
#[derive(Debug, PartialEq, Eq)]
pub struct CloseFrame {
    pub code: u16,
    pub reason: String,
}

/// One WebSocket message.
#[derive(Debug, PartialEq, Eq)]
pub enum Message {
    Text(String),
    Binary(Vec<u8>),
    Ping(Vec<u8>),
    Pong(Vec<u8>),
    Close(Option<CloseFrame>),
    /// A raw frame, by its payload.
    Frame(Vec<u8>),
}

/// Why the transport failed.
#[derive(Debug, PartialEq, Eq)]
pub enum WebSocketError {
    /// The connection failed or has ended.
    Jank { reason: String },
    /// The server answered the upgrade request with something else than a switch of
    /// protocols.
    NoUpgrade { status: u16, body: Vec<u8> },
}

impl WebSocketError {
    pub fn jank(reason: String) -> (r: WebSocketError)
        ensures
            r == (WebSocketError::Jank { reason }),
    {
        WebSocketError::Jank { reason }
    }

    /// The error as a line of text.
    pub open spec fn description(self) -> Seq<char> {
        match self {
            WebSocketError::Jank { reason } => "Connection Failed: "@ + reason@,
            WebSocketError::NoUpgrade { status, body } => "NoUpgrade: "@ + decimal(status as nat),
        }
    }

    pub fn describe(&self) -> (r: String)
        ensures
            r@ == self.description(),
    {
        match self {
            WebSocketError::Jank { reason } => join2("Connection Failed: ", reason.as_str()),
            WebSocketError::NoUpgrade { status, body } => {
                let mut out = String::from_str("NoUpgrade: ");
                push_decimal(&mut out, *status as u64);
                out
            },
        }
    }
}

/// What a receive on the inbound queue yields: the queued message, the queued
/// error, or, once the bridge has gone, an error that says that the queue is closed.
pub fn received(item: Option<Result<Message, WebSocketError>>) -> (r: Result<
    Message,
    WebSocketError,
>)
    ensures
        match item {
            Some(Ok(m)) => r == Ok::<Message, WebSocketError>(m),
            Some(Err(e)) => r == Err::<Message, WebSocketError>(e),
            None => r matches Err(WebSocketError::Jank { reason }) && reason@
                == "msg recv channel is closed"@,
        },
{
    match item {
        Some(Ok(m)) => Ok(m),
        Some(Err(e)) => Err(e),
        None => Err(WebSocketError::jank(String::from_str("msg recv channel is closed"))),
    }
}

/// The error of a send on the outbound queue that failed; `detail` is what the queue
/// said.
pub fn send_failed(detail: &str) -> (r: WebSocketError)
    ensures
        r matches WebSocketError::Jank { reason } && reason@
            == "mpsc send error in WebSocket::send : "@ + detail@,
{
    WebSocketError::jank(join2("mpsc send error in WebSocket::send : ", detail))
}

/// Why a bridge has stopped.
#[derive(Debug, Clone, Copy, PartialEq, Eq, Structural)]
pub enum CloseCause {
    /// Every sender of the outbound queue is gone.
    OutboundEnded,
    /// A write to the socket failed.
    WriteFailed,
    /// The socket reported an error.
    SocketError,
    /// The socket reached its end.
    SocketEnded,
    /// Nobody reads the inbound queue any more.
    ConsumerGone,
}

/// A bridge runs until the first thing that ends it, and stays stopped.
#[derive(Debug, Clone, Copy, PartialEq, Eq, Structural)]
pub enum BridgeState {
    Running,
    Stopped(CloseCause),
}

/// One thing that happened to a bridge.
#[derive(Debug, PartialEq, Eq)]
pub enum BridgeEvent {
    /// The outbound queue yielded an item, or `None` at its end.
    Outbound(Option<Message>),
    /// The socket yielded a message or an error, or `None` at its end.
    Inbound(Option<Result<Message, String>>),
    /// The write that the bridge asked for is done; `false` says that it failed.
    Written(bool),
    /// The delivery that the bridge asked for is done; `false` says that the inbound
    /// queue has no reader.
    Delivered(bool),
}

/// What the caller of a bridge does next.
#[derive(Debug, PartialEq, Eq)]
pub enum BridgeAction {
    /// Write the message to the socket, then report `Written`.
    Write(Message),
    /// Put the message on the inbound queue, then report `Delivered`.
    Deliver(Message),
    /// Wait for the next outbound item again.
    AwaitOutbound,
    /// Wait for the next inbound item again.
    AwaitInbound,
    /// Stop: drop the socket and both queue ends.
    Stop,
}

/// The state that follows `state` on `event`.
pub open spec fn bridge_next(state: BridgeState, event: BridgeEvent) -> BridgeState {
    match state {
        BridgeState::Stopped(cause) => state,
        BridgeState::Running => match event {
            BridgeEvent::Outbound(Some(_)) => BridgeState::Running,
            BridgeEvent::Outbound(None) => BridgeState::Stopped(CloseCause::OutboundEnded),
            BridgeEvent::Written(true) => BridgeState::Running,
            BridgeEvent::Written(false) => BridgeState::Stopped(CloseCause::WriteFailed),
            BridgeEvent::Inbound(Some(Ok(_))) => BridgeState::Running,
            BridgeEvent::Inbound(Some(Err(_))) => BridgeState::Stopped(CloseCause::SocketError),
            BridgeEvent::Inbound(None) => BridgeState::Stopped(CloseCause::SocketEnded),
            BridgeEvent::Delivered(true) => BridgeState::Running,
            BridgeEvent::Delivered(false) => BridgeState::Stopped(CloseCause::ConsumerGone),
        },
    }
}

/// The action that `event` asks for in `state`.
pub open spec fn bridge_action(state: BridgeState, event: BridgeEvent) -> BridgeAction {
    match state {
        BridgeState::Stopped(cause) => BridgeAction::Stop,
        BridgeState::Running => match event {
            BridgeEvent::Outbound(Some(m)) => BridgeAction::Write(m),
            BridgeEvent::Written(true) => BridgeAction::AwaitOutbound,
            BridgeEvent::Inbound(Some(Ok(m))) => BridgeAction::Deliver(m),
            BridgeEvent::Delivered(true) => BridgeAction::AwaitInbound,
            _ => BridgeAction::Stop,
        },
    }
}

/// The decisions of the task that bridges one socket to an outbound and an inbound
/// queue.
#[derive(Debug, PartialEq, Eq)]
pub struct Bridge {
    pub state: BridgeState,
}

impl Bridge {
    pub fn new() -> (r: Bridge)
        ensures
            r.state == BridgeState::Running,
    {
        Bridge { state: BridgeState::Running }
    }

    pub fn is_running(&self) -> (r: bool)
        ensures
            r == (self.state == BridgeState::Running),
    {
        match self.state {
            BridgeState::Running => true,
            BridgeState::Stopped(_) => false,
        }
    }

    /// Takes one event and says what to do. Outbound messages go to the socket and
    /// inbound ones to the queue, each in the order of its arrival; the first
    /// failure or end on either side stops the bridge, and a stopped bridge writes
    /// and delivers nothing.
    pub fn step(&mut self, event: BridgeEvent) -> (action: BridgeAction)
        ensures
            final(self).state == bridge_next(old(self).state, event),
            action == bridge_action(old(self).state, event),
    {
        match self.state {
            BridgeState::Stopped(_) => BridgeAction::Stop,
            BridgeState::Running => match event {
                BridgeEvent::Outbound(Some(m)) => BridgeAction::Write(m),
                BridgeEvent::Outbound(None) => {
                    self.state = BridgeState::Stopped(CloseCause::OutboundEnded);
                    BridgeAction::Stop
                },
                BridgeEvent::Written(true) => BridgeAction::AwaitOutbound,
                BridgeEvent::Written(false) => {
                    self.state = BridgeState::Stopped(CloseCause::WriteFailed);
                    BridgeAction::Stop
                },
                BridgeEvent::Inbound(Some(Ok(m))) => BridgeAction::Deliver(m),
                BridgeEvent::Inbound(Some(Err(_))) => {
                    self.state = BridgeState::Stopped(CloseCause::SocketError);
                    BridgeAction::Stop
                },
                BridgeEvent::Inbound(None) => {
                    self.state = BridgeState::Stopped(CloseCause::SocketEnded);
                    BridgeAction::Stop
                },
                BridgeEvent::Delivered(true) => BridgeAction::AwaitInbound,
                BridgeEvent::Delivered(false) => {
                    self.state = BridgeState::Stopped(CloseCause::ConsumerGone);
                    BridgeAction::Stop
                },
            },
        }
    }

    /// Once stopped, a bridge stays stopped and asks for nothing but to stop.
    pub proof fn lemma_stopped_is_final(cause: CloseCause, event: BridgeEvent)
        ensures
            bridge_next(BridgeState::Stopped(cause), event) == BridgeState::Stopped(cause),
            bridge_action(BridgeState::Stopped(cause), event) == BridgeAction::Stop,
    {
    }
}

/// Where a WebSocket is to be opened.
#[derive(Debug, PartialEq, Eq)]
pub struct WebSocketBuilder {
    pub url: String,
}

/// The HTTP status that grants the upgrade: 101, switching protocols.
pub const SWITCHING_PROTOCOLS: u16 = 101;

/// The key that every upgrade request carries.
pub open spec fn websocket_key() -> Seq<char> {
    "dGhlIHNhbXBsZSBub25jZQ=="@
}

/// The address of the HTTP request that upgrades to the socket at `url`: every
/// `wss://` in it reads `https://`, and then every `ws://` reads `http://`.
pub open spec fn upgrade_address(url: Seq<char>) -> Seq<char> {
    replace_all(replace_all(url, "wss://"@, "https://"@), "ws://"@, "http://"@)
}

/// The request that asks a server to switch to the WebSocket protocol: a GET over
/// HTTP/1.1 with no body.
#[derive(Debug, PartialEq, Eq)]
pub struct UpgradeRequest {
    pub uri: String,
    /// The headers, each a name and a value, in the order in which they are set.
    pub headers: Vec<(&'static str, &'static str)>,
}

impl WebSocketBuilder {
    pub fn new(url: String) -> (r: WebSocketBuilder)
        ensures
            r.url == url,
    {
        WebSocketBuilder { url }
    }

    /// What opening the socket begins with: the upgrade request for this builder's
    /// address.
    pub fn init(&self) -> (r: UpgradeRequest)
        ensures
            r.uri@ == upgrade_address(self.url@),
            r.headers@.len() == 4,
            r.headers@[0].0@ == "upgrade"@ && r.headers@[0].1@ == "websocket"@,
            r.headers@[1].0@ == "connection"@ && r.headers@[1].1@ == "Upgrade"@,
            r.headers@[2].0@ == "Sec-WebSocket-Key"@ && r.headers@[2].1@ == websocket_key(),
            r.headers@[3].0@ == "Sec-WebSocket-Version"@ && r.headers@[3].1@ == "13"@,
    {
        let secure = replace(self.url.as_str(), "wss://", "https://");
        let uri = replace(secure.as_str(), "ws://", "http://");
        let mut headers: Vec<(&'static str, &'static str)> = Vec::new();
        headers.push(("upgrade", "websocket"));
        headers.push(("connection", "Upgrade"));
        headers.push(("Sec-WebSocket-Key", "dGhlIHNhbXBsZSBub25jZQ=="));
        headers.push(("Sec-WebSocket-Version", "13"));
        UpgradeRequest { uri, headers }
    }

    /// Judges the answer to the upgrade request: `None` where the server switches
    /// protocols, else the error, which carries the status and the body that came
    /// with it.
    pub fn refusal(status: u16, body: Vec<u8>) -> (r: Option<WebSocketError>)
        ensures
            status == SWITCHING_PROTOCOLS ==> r is None,
            status != SWITCHING_PROTOCOLS ==> r == Some(WebSocketError::NoUpgrade { status, body }),
    {
        if status == SWITCHING_PROTOCOLS {
            None
        } else {
            Some(WebSocketError::NoUpgrade { status, body })
        }
    }
}

} // verus!
