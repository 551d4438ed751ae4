use discord_gateway::gateway::GatewayError;
use discord_gateway::gateway_ws::{
    received, send_failed, Bridge, BridgeAction, BridgeEvent, BridgeState, CloseCause, Message,
    WebSocketBuilder, WebSocketError,
};

fn text(s: &str) -> Message {
    Message::Text(s.to_string())
}

#[test]
fn bridge_moves_messages_both_ways() {
    let mut b = Bridge::new();
    assert!(b.is_running());
    assert_eq!(b.step(BridgeEvent::Outbound(Some(text("out")))), BridgeAction::Write(text("out")));
    assert_eq!(b.step(BridgeEvent::Written(true)), BridgeAction::AwaitOutbound);
    assert_eq!(
        b.step(BridgeEvent::Inbound(Some(Ok(text("in"))))),
        BridgeAction::Deliver(text("in"))
    );
    assert_eq!(b.step(BridgeEvent::Delivered(true)), BridgeAction::AwaitInbound);
    assert_eq!(b.state, BridgeState::Running);
}

#[test]
fn bridge_stops_on_each_end_and_failure() {
    let cases = [
        (BridgeEvent::Outbound(None), CloseCause::OutboundEnded),
        (BridgeEvent::Written(false), CloseCause::WriteFailed),
        (BridgeEvent::Inbound(Some(Err("reset".to_string()))), CloseCause::SocketError),
        (BridgeEvent::Inbound(None), CloseCause::SocketEnded),
        (BridgeEvent::Delivered(false), CloseCause::ConsumerGone),
    ];
    for (event, cause) in cases {
        let mut b = Bridge::new();
        assert_eq!(b.step(event), BridgeAction::Stop);
        assert_eq!(b.state, BridgeState::Stopped(cause));
        assert!(!b.is_running());
    }
}

#[test]
fn stopped_bridge_delivers_nothing() {
    let mut b = Bridge::new();
    b.step(BridgeEvent::Inbound(None));
    assert_eq!(b.step(BridgeEvent::Inbound(Some(Ok(text("late"))))), BridgeAction::Stop);
    assert_eq!(b.step(BridgeEvent::Outbound(Some(text("late")))), BridgeAction::Stop);
    assert_eq!(b.step(BridgeEvent::Written(true)), BridgeAction::Stop);
    assert_eq!(b.step(BridgeEvent::Delivered(true)), BridgeAction::Stop);
    assert_eq!(b.state, BridgeState::Stopped(CloseCause::SocketEnded));
}

#[test]
fn receive_maps_the_queue() {
    assert_eq!(received(Some(Ok(text("a")))), Ok(text("a")));
    let e = WebSocketError::NoUpgrade { status: 404, body: vec![1] };
    assert_eq!(
        received(Some(Err(WebSocketError::NoUpgrade { status: 404, body: vec![1] }))),
        Err(e)
    );
    assert_eq!(
        received(None),
        Err(WebSocketError::Jank { reason: "msg recv channel is closed".to_string() })
    );
}

#[test]
fn closed_transport_fails_the_receive() {
    let err = received(None).unwrap_err();
    assert_eq!(
        GatewayError::recv_failed(&err),
        GatewayError::Misc(
            "failed to recv message: Connection Failed: msg recv channel is closed".to_string()
        )
    );
    assert_eq!(
        GatewayError::from(WebSocketError::jank("x".to_string())),
        GatewayError::WebSocket(WebSocketError::Jank { reason: "x".to_string() })
    );
    assert_eq!(
        GatewayError::WebSocket(WebSocketError::jank("x".to_string())).describe(),
        "Web Socket Error: Connection Failed: x"
    );
}

#[test]
fn transport_errors_describe_themselves() {
    assert_eq!(WebSocketError::jank("boom".to_string()).describe(), "Connection Failed: boom");
    assert_eq!(
        WebSocketError::NoUpgrade { status: 404, body: vec![] }.describe(),
        "NoUpgrade: 404"
    );
    assert_eq!(
        send_failed("closed"),
        WebSocketError::Jank { reason: "mpsc send error in WebSocket::send : closed".to_string() }
    );
}

#[test]
fn upgrade_request_rewrites_the_scheme() {
    let r = WebSocketBuilder::new("wss://gateway.example/?v=9&encoding=json".to_string()).init();
    assert_eq!(r.uri, "https://gateway.example/?v=9&encoding=json");
    assert_eq!(
        r.headers,
        vec![
            ("upgrade", "websocket"),
            ("connection", "Upgrade"),
            ("Sec-WebSocket-Key", "dGhlIHNhbXBsZSBub25jZQ=="),
            ("Sec-WebSocket-Version", "13"),
        ]
    );
    let r = WebSocketBuilder::new("ws://localhost:3001/".to_string()).init();
    assert_eq!(r.uri, "http://localhost:3001/");
    let odd = "ws://a/wss://b/ws://c";
    let r = WebSocketBuilder::new(odd.to_string()).init();
    assert_eq!(r.uri, odd.replace("wss://", "https://").replace("ws://", "http://"));
    let r = WebSocketBuilder::new("https://plain".to_string()).init();
    assert_eq!(r.uri, "https://plain");
}

#[test]
fn only_101_grants_the_upgrade() {
    assert_eq!(WebSocketBuilder::refusal(101, vec![]), None);
    assert_eq!(
        WebSocketBuilder::refusal(404, b"nope".to_vec()),
        Some(WebSocketError::NoUpgrade { status: 404, body: b"nope".to_vec() })
    );
    assert_eq!(
        WebSocketBuilder::refusal(200, vec![]),
        Some(WebSocketError::NoUpgrade { status: 200, body: vec![] })
    );
}
