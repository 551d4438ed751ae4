use discord_gateway::events::{Event, Hello};
use discord_gateway::gateway::{
    heartbeat_text, identify_text, parse_payload_inner, send_heartbeat, Gateway, GatewayBuilder,
    GatewayError, GatewayInfo, GatewayMessage, HeartbeatAction, Outcome, ParsePayloadError,
    Payload, Reply, ResumeInfo, Resume, INTENTS,
};
use discord_gateway::gateway_ws::Message;
use discord_gateway::json::{Json, JsonNumber};

fn text(s: &str) -> Message {
    Message::Text(s.to_string())
}

fn fresh() -> Gateway {
    Gateway::new("tok".to_string(), None)
}

#[test]
fn sequence_is_last_write_wins() {
    let mut g = fresh();
    for s in [1u64, 2, 2, 5] {
        let frame = format!("{{\"op\":0,\"t\":\"SOME_NEW_EVENT\",\"s\":{},\"d\":{{}}}}", s);
        let reply = g.recv(text(&frame));
        assert!(matches!(reply.outcome, Outcome::Deliver(GatewayMessage::Event(_))));
        assert_eq!(g.seq_num, Some(s));
    }
    assert_eq!(g.seq_num, Some(5));
}

#[test]
fn sequence_may_go_back_and_stays_without_one() {
    let mut g = fresh();
    g.recv(text("{\"op\":0,\"t\":\"X\",\"s\":9,\"d\":null}"));
    g.recv(text("{\"op\":0,\"t\":\"X\",\"s\":3,\"d\":null}"));
    assert_eq!(g.seq_num, Some(3));
    g.recv(text("{\"op\":11}"));
    assert_eq!(g.seq_num, Some(3));
    g.recv(text("{\"op\":11,\"s\":null}"));
    assert_eq!(g.seq_num, Some(3));
}

#[test]
fn hello_without_resume_is_answered_with_identify() {
    let mut g = fresh();
    let reply = g.recv(text("{\"op\":10,\"d\":{\"heartbeat_interval\":41250}}"));
    assert_eq!(reply.heartbeat, Some(41250));
    let sent = reply.send.expect("a frame to send");
    assert_eq!(sent, identify_text("tok"));
    let v: serde_json::Value = serde_json::from_str(&sent).unwrap();
    assert_eq!(v["op"].as_u64(), Some(2));
    assert_eq!(v["d"]["token"].as_str(), Some("tok"));
    assert_eq!(v["d"]["intents"].as_u64(), Some(13825));
    assert_eq!(v["d"]["properties"]["$os"].as_str(), Some("linux"));
    assert_eq!(v["d"]["properties"]["$browser"].as_str(), Some("test"));
    assert_eq!(v["d"]["properties"]["$device"].as_str(), Some("test"));
    assert_eq!(g.did_resume, Some(false));
    assert_eq!(
        reply.outcome,
        Outcome::Deliver(GatewayMessage::Hello(Hello { heartbeat_interval: 41250, trace: vec![] }))
    );
}

#[test]
fn hello_with_trace_keeps_it() {
    let mut g = fresh();
    let reply = g.recv(text(
        "{\"op\":10,\"d\":{\"heartbeat_interval\":1,\"_trace\":[\"a\",\"b\"]}}",
    ));
    assert_eq!(
        reply.outcome,
        Outcome::Deliver(GatewayMessage::Hello(Hello {
            heartbeat_interval: 1,
            trace: vec!["a".to_string(), "b".to_string()]
        }))
    );
}

#[test]
fn hello_with_resume_is_answered_with_one_resume_frame() {
    let mut g = Gateway::new(
        "tok".to_string(),
        Some(ResumeInfo { session_id: "abc".to_string(), seq: 7 }),
    );
    let reply = g.recv(text("{\"op\":10,\"d\":{\"heartbeat_interval\":41250}}"));
    assert_eq!(reply.heartbeat, Some(41250));
    assert_eq!(
        reply.send,
        Some("{\"op\":6,\"d\":{\"token\":\"tok\",\"session_id\":\"abc\",\"seq\":7}}".to_string())
    );
    assert_eq!(g.did_resume, Some(true));
    assert!(matches!(reply.outcome, Outcome::Deliver(GatewayMessage::Hello(_))));
}

#[test]
fn resume_frame_escapes_its_texts() {
    let frame = Resume::new("a\"b\\c", "x\ny\u{1}\u{7f}é", 0).to_text();
    assert_eq!(
        frame,
        "{\"op\":6,\"d\":{\"token\":\"a\\\"b\\\\c\",\"session_id\":\"x\\ny\\u0001\u{7f}é\",\"seq\":0}}"
    );
    let v: serde_json::Value = serde_json::from_str(&frame).unwrap();
    assert_eq!(v["d"]["token"].as_str(), Some("a\"b\\c"));
    assert_eq!(v["d"]["session_id"].as_str(), Some("x\ny\u{1}\u{7f}é"));
}

#[test]
fn intents_cover_the_five_categories() {
    assert_eq!(INTENTS, (1 << 0) + (1 << 9) + (1 << 10) + (1 << 12) + (1 << 13));
}

#[test]
fn unknown_event_is_kept_with_name_and_body() {
    let mut g = fresh();
    let reply = g.recv(text(
        "{\"op\":0,\"t\":\"SOME_NEW_EVENT\",\"s\":1,\"d\":{\"a\":[1,-2,true,null,\"s\",1.5]}}",
    ));
    let expected = Json::Object(vec![(
        "a".to_string(),
        Json::Array(vec![
            Json::Number(JsonNumber::Unsigned(1)),
            Json::Number(JsonNumber::Negative(-2)),
            Json::Bool(true),
            Json::Null,
            Json::Text("s".to_string()),
            Json::Number(JsonNumber::Real("1.5".to_string())),
        ]),
    )]);
    assert_eq!(
        reply,
        Reply {
            heartbeat: None,
            send: None,
            outcome: Outcome::Deliver(GatewayMessage::Event(Event::Unknown(
                "SOME_NEW_EVENT".to_string(),
                expected
            ))),
        }
    );
}

#[test]
fn reconnect_and_invalid_session_surface() {
    let mut g = fresh();
    assert_eq!(g.recv(text("{\"op\":7}")).outcome, Outcome::Deliver(GatewayMessage::Reconnect));
    assert_eq!(
        g.recv(text("{\"op\":9,\"d\":false}")).outcome,
        Outcome::Deliver(GatewayMessage::InvalidSession)
    );
}

#[test]
fn heartbeat_ack_is_consumed() {
    let mut g = fresh();
    let reply = g.recv(text("{\"op\":11}"));
    assert_eq!(reply, Reply { heartbeat: None, send: None, outcome: Outcome::Again });
}

#[test]
fn unknown_opcode_fails() {
    let mut g = fresh();
    assert_eq!(
        g.recv(text("{\"op\":42,\"s\":8}")).outcome,
        Outcome::Fail(GatewayError::UnknownOpcode(42))
    );
    assert_eq!(g.seq_num, Some(8));
}

#[test]
fn malformed_text_fails_and_changes_nothing() {
    let mut g = fresh();
    g.recv(text("{\"op\":11,\"s\":4}"));
    for bad in ["not json", "{\"d\":1}", "{\"op\":-1}", "{\"op\":1.5}", "[0]", "{\"op\":0,\"s\":\"x\"}",
        "{\"op\":0,\"t\":5}"] {
        let reply = g.recv(text(bad));
        assert_eq!(reply.outcome, Outcome::Fail(GatewayError::MalformedPayload), "{}", bad);
        assert_eq!(g.seq_num, Some(4));
    }
}

#[test]
fn known_event_with_wrong_shape_is_malformed() {
    let mut g = fresh();
    let reply = g.recv(text("{\"op\":0,\"t\":\"READY\",\"s\":2,\"d\":{\"session_id\":5}}"));
    assert_eq!(reply.outcome, Outcome::Fail(GatewayError::MalformedPayload));
    assert_eq!(g.seq_num, Some(2));
    let reply = g.recv(text("{\"op\":0,\"t\":\"VOICE_STATE_UPDATE\",\"d\":{}}"));
    assert_eq!(reply.outcome, Outcome::Fail(GatewayError::MalformedPayload));
    let reply = g.recv(text("{\"op\":10,\"d\":{}}"));
    assert_eq!(reply.outcome, Outcome::Fail(GatewayError::MalformedPayload));
}

#[test]
fn dispatch_without_name_surfaces_raw() {
    let mut g = fresh();
    let frame = "{\"op\":0,\"d\":{}}";
    assert_eq!(
        g.recv(text(frame)).outcome,
        Outcome::Deliver(GatewayMessage::Raw(text(frame)))
    );
}

#[test]
fn frames_that_are_no_text_surface_raw() {
    let mut g = fresh();
    let frame = Message::Binary(vec![1, 2, 3]);
    let reply = g.recv(Message::Binary(vec![1, 2, 3]));
    assert_eq!(reply, Reply { heartbeat: None, send: None, outcome: Outcome::Deliver(GatewayMessage::Raw(frame)) });
    assert_eq!(g, fresh());
}

#[test]
fn parse_payload_inner_by_opcode() {
    let p = |op: u64, event: Option<&str>| Payload {
        op,
        data: Json::Null,
        seq_num: None,
        event: event.map(|s| s.to_string()),
    };
    assert_eq!(parse_payload_inner(p(7, None)), Ok(Some(GatewayMessage::Reconnect)));
    assert_eq!(parse_payload_inner(p(9, None)), Ok(Some(GatewayMessage::InvalidSession)));
    assert_eq!(parse_payload_inner(p(11, None)), Ok(None));
    assert_eq!(parse_payload_inner(p(0, None)), Err(ParsePayloadError::MissingEventName));
    assert_eq!(parse_payload_inner(p(3, None)), Err(ParsePayloadError::UnknownOpcode(3)));
    assert_eq!(parse_payload_inner(p(10, None)), Err(ParsePayloadError::Malformed));
    assert_eq!(parse_payload_inner(p(0, Some("READY"))), Err(ParsePayloadError::Malformed));
    assert_eq!(
        parse_payload_inner(p(0, Some("ready"))),
        Ok(Some(GatewayMessage::Event(Event::Unknown("ready".to_string(), Json::Null))))
    );
}

#[test]
fn errors_describe_themselves() {
    assert_eq!(GatewayError::Misc("x".to_string()).describe(), "Gateway Misc: x");
    assert_eq!(GatewayError::MalformedPayload.describe(), "Malformed Payload Error");
    assert_eq!(GatewayError::InvalidSession.describe(), "Invalid Session");
    assert_eq!(GatewayError::ReqwestError("e".to_string()).describe(), "Request Error e");
    assert_eq!(GatewayError::UnknownOpcode(3).describe(), "Unknown Opcode 3");
    assert_eq!(
        GatewayError::from_parse(ParsePayloadError::Malformed),
        GatewayError::MalformedPayload
    );
    assert_eq!(
        GatewayError::from_parse(ParsePayloadError::MissingEventName),
        GatewayError::Misc("Unexpected Parse Payload Error: MissingEventName".to_string())
    );
    assert_eq!(
        GatewayError::hello_failed(true, "gone"),
        GatewayError::Misc("failed to respond to hello (resume) gone".to_string())
    );
    assert_eq!(
        GatewayError::hello_failed(false, "gone"),
        GatewayError::Misc("failed to respond to hello gone".to_string())
    );
}

#[test]
fn heartbeat_sleeps_the_interval_and_stops_on_failure() {
    assert_eq!(
        send_heartbeat(41250, None),
        HeartbeatAction::SleepThenSend { secs: 41, nanos: 250_000_000 }
    );
    assert_eq!(
        send_heartbeat(999, Some(true)),
        HeartbeatAction::SleepThenSend { secs: 0, nanos: 999_000_000 }
    );
    assert_eq!(send_heartbeat(41250, Some(false)), HeartbeatAction::Stop);
    assert_eq!(heartbeat_text(), "{\"op\": 1, \"d\": null}");
    let v: serde_json::Value = serde_json::from_str(heartbeat_text()).unwrap();
    assert_eq!(v["op"].as_u64(), Some(1));
    assert!(v["d"].is_null());
}

#[test]
fn builder_collects_and_begins() {
    let plan = GatewayBuilder::new().connect("t".to_string());
    assert_eq!(plan.url, "https://discordapp.com/api/v9/gateway/bot");
    assert_eq!(plan.authorization, "Bot t");
    assert_eq!(plan.gateway, Gateway::new("t".to_string(), None));
    let plan = GatewayBuilder::new()
        .base_url("http://h/api".to_string())
        .resume("sid".to_string(), 3)
        .connect("t".to_string());
    assert_eq!(plan.url, "http://h/api/gateway/bot");
    assert_eq!(plan.gateway.resume, Some(ResumeInfo { session_id: "sid".to_string(), seq: 3 }));
}

#[test]
fn gateway_info_gives_the_socket_address() {
    let info = GatewayInfo::from_body("{\"url\":\"wss://gateway.example\"}").unwrap();
    assert_eq!(info.get_url(), "wss://gateway.example");
    assert_eq!(info.socket_url(), "wss://gateway.example?v=9&encoding=json");
    assert_eq!(
        GatewayInfo::new("wss://g/".to_string()).socket_url(),
        "wss://g/?v=9&encoding=json"
    );
    assert_eq!(GatewayInfo::new(String::new()).socket_url(), "?v=9&encoding=json");
    assert_eq!(
        GatewayInfo::from_body("{\"uri\":1}"),
        Err(GatewayError::Misc("deserialize".to_string()))
    );
    assert_eq!(GatewayInfo::from_body("<html>"), Err(GatewayError::Misc("deserialize".to_string())));
}

#[test]
fn failed_bootstrap_is_a_request_error() {
    let err = discord_gateway::send_message::Error::DiscordError {
        msg: "Status Code 401".to_string(),
        status_code: 401,
        body: "{no}".to_string(),
    };
    assert_eq!(
        GatewayError::bootstrap_failed(&err),
        GatewayError::ReqwestError("Status Code 401: {no}".to_string())
    );
    assert_eq!(
        GatewayError::bootstrap_failed(&err).describe(),
        "Request Error Status Code 401: {no}"
    );
}
