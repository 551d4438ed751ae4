use discord_gateway::discord::{
    CreatedRole, DeletedMessage, DeletedRole, Guild, Message as ChatMessage, OverwriteType, Role,
    Snowflake, UnavailableGuild, User,
};
use discord_gateway::events::{
    Emoji, Event, EventKind, IdUser, MessageReactionAdd, MessageReactionRemove, PresenceUpdate,
    Ready, VoiceServerUpdate, VoiceStateUpdate,
};
use discord_gateway::gateway::{Gateway, GatewayError, GatewayMessage, ResumeInfo};
use discord_gateway::gateway_ws::Message;
use discord_gateway::json::Json;
use discord_gateway::{Discord, Received};

fn json(s: &str) -> Json {
    Json::parse(s).expect("valid json")
}

const USER: &str = "{\"id\":\"7\",\"username\":\"n\",\"discriminator\":\"0001\",\"extra\":1}";

fn user() -> User {
    User { id: Snowflake(7), username: "n".to_string(), discriminator: "0001".to_string() }
}

#[test]
fn event_names_select_kinds() {
    assert_eq!(EventKind::from_name("MESSAGE_CREATE"), EventKind::MessageCreate);
    assert_eq!(EventKind::from_name("READY"), EventKind::Ready);
    assert_eq!(EventKind::from_name("VOICE_STATE_UPDATE"), EventKind::VoiceStateUpdate);
    assert_eq!(EventKind::from_name("VOICE_SERVER_UPDATE"), EventKind::VoiceServerUpdate);
    assert_eq!(EventKind::from_name("PRESENCE_UPDATE"), EventKind::PresenceUpdate);
    assert_eq!(EventKind::from_name("MESSAGE_REACTION_ADD"), EventKind::MessageReactionAdd);
    assert_eq!(EventKind::from_name("MESSAGE_REACTION_REMOVE"), EventKind::MessageReactionRemove);
    assert_eq!(EventKind::from_name("SOME_NEW_EVENT"), EventKind::Unknown);
    assert_eq!(EventKind::from_name(""), EventKind::Unknown);
    assert_eq!(EventKind::from_name("READY "), EventKind::Unknown);
}

#[test]
fn ready_is_decoded() {
    let d = format!("{{\"user\":{},\"session_id\":\"sess\",\"v\":9,\"guilds\":[{{\"id\":\"5\"}}]}}", USER);
    assert_eq!(
        Event::decode("READY", json(&d)),
        Some(Event::Ready(Ready {
            user: user(),
            session_id: "sess".to_string(),
            protocol_version: 9,
            guilds: vec![UnavailableGuild { id: Snowflake(5) }],
        }))
    );
    assert_eq!(Event::decode("READY", json("{\"session_id\":\"s\"}")), None);
}

#[test]
fn message_create_is_decoded() {
    let d = format!(
        "{{\"id\":\"1\",\"channel_id\":\"2\",\"guild_id\":null,\"author\":{},\"content\":\"hi\",\"timestamp\":\"t\",\"edited_timestamp\":null,\"tts\":false,\"mention_everyone\":false,\"mentions\":[{}],\"mention_roles\":[\"3\"],\"attachments\":[],\"embeds\":[{{}}],\"pinned\":true,\"type\":0}}",
        USER, USER
    );
    assert_eq!(
        Event::decode("MESSAGE_CREATE", json(&d)),
        Some(Event::MessageCreate(ChatMessage {
            id: Snowflake(1),
            channel_id: Snowflake(2),
            guild_id: None,
            author: user(),
            member: None,
            content: "hi".to_string(),
            timestamp_str: "t".to_string(),
            tts: false,
            mention_everyone: false,
            mentions: vec![user()],
            mention_roles: vec![Snowflake(3)],
            nonce: None,
            pinned: true,
            webhook_id: None,
            message_type: 0,
        }))
    );
    let missing = d.replace("\"edited_timestamp\":null,", "");
    assert_eq!(Event::decode("MESSAGE_CREATE", json(&missing)), None);
    let bad_id = d.replace("\"id\":\"1\"", "\"id\":\"one\"");
    assert_eq!(Event::decode("MESSAGE_CREATE", json(&bad_id)), None);
}

#[test]
fn voice_and_presence_are_decoded() {
    assert_eq!(
        Event::decode("VOICE_STATE_UPDATE", json("{\"session_id\":\"v\",\"mute\":false}")),
        Some(Event::VoiceStateUpdate(VoiceStateUpdate { session_id: "v".to_string() }))
    );
    assert_eq!(Event::decode("VOICE_STATE_UPDATE", json("{\"session_id\":1}")), None);
    assert_eq!(
        Event::decode(
            "VOICE_SERVER_UPDATE",
            json("{\"token\":\"t\",\"guild_id\":\"g\",\"endpoint\":\"e\"}")
        ),
        Some(Event::VoiceServerUpate(VoiceServerUpdate {
            endpoint: "e".to_string(),
            token: "t".to_string(),
            guild_id: "g".to_string()
        }))
    );
    assert_eq!(
        Event::decode(
            "PRESENCE_UPDATE",
            json("{\"user\":{\"id\":\"4\"},\"status\":\"online\",\"roles\":[\"1\"],\"guild_id\":\"2\"}")
        ),
        Some(Event::PresenceUpdate(PresenceUpdate {
            user: IdUser { id: Snowflake(4) },
            status: "online".to_string(),
            roles: vec![Snowflake(1)],
            guild_id: Snowflake(2),
        }))
    );
}

#[test]
fn reactions_are_decoded() {
    let d = "{\"user_id\":\"1\",\"channel_id\":\"2\",\"message_id\":\"3\",\"emoji\":{\"id\":null,\"name\":\"x\"}}";
    assert_eq!(
        Event::decode("MESSAGE_REACTION_ADD", json(d)),
        Some(Event::MessageReactionAdd(MessageReactionAdd {
            user_id: Snowflake(1),
            channel_id: Snowflake(2),
            message_id: Snowflake(3),
            guild_id: None,
            member: None,
            emoji: Emoji { id: None, name: "x".to_string() },
        }))
    );
    let d2 = "{\"user_id\":\"1\",\"channel_id\":\"2\",\"message_id\":\"3\",\"guild_id\":\"9\",\"emoji\":{\"id\":\"8\",\"name\":\"x\"}}";
    assert_eq!(
        Event::decode("MESSAGE_REACTION_REMOVE", json(d2)),
        Some(Event::MessageReactionRemove(MessageReactionRemove {
            user_id: Snowflake(1),
            channel_id: Snowflake(2),
            message_id: Snowflake(3),
            guild_id: Some(Snowflake(9)),
            emoji: Emoji { id: Some(Snowflake(8)), name: "x".to_string() },
        }))
    );
    assert_eq!(Event::decode("MESSAGE_REACTION_REMOVE", json("{\"emoji\":{}}")), None);
}

#[test]
fn unknown_event_never_fails() {
    for d in ["null", "1", "\"s\"", "[]", "{\"deep\":{\"er\":[{}]}}"] {
        assert_eq!(
            Event::decode("SOME_NEW_EVENT", json(d)),
            Some(Event::Unknown("SOME_NEW_EVENT".to_string(), json(d)))
        );
    }
}

#[test]
fn plain_records_are_decoded() {
    let role = "{\"id\":\"1\",\"name\":\"r\",\"permissions\":\"8\",\"position\":2}";
    assert_eq!(
        Role::decode(&json(role)),
        Some(Role { id: Snowflake(1), name: "r".to_string(), permissions: 8, position: 2 })
    );
    assert_eq!(Role::decode(&json("{\"id\":\"1\",\"name\":\"r\",\"permissions\":8,\"position\":2}")), None);
    let guild = format!("{{\"id\":\"1\",\"name\":\"g\",\"owner_id\":\"2\",\"roles\":[{}]}}", role);
    let g = Guild::decode(&json(&guild)).unwrap();
    assert_eq!(g.roles.len(), 1);
    assert!(g.channels.is_empty());
    let with_channels = format!(
        "{{\"id\":\"1\",\"name\":\"g\",\"owner_id\":\"2\",\"roles\":[],\"channels\":[{{\"id\":\"4\"}}]}}"
    );
    let g = Guild::decode(&json(&with_channels)).unwrap();
    assert_eq!(g.channels[0].id, Snowflake(4));
    assert_eq!(g.channels[0].permission_overwrites, None);
    assert_eq!(
        DeletedMessage::decode(&json("{\"id\":\"1\",\"channel_id\":\"2\"}")),
        Some(DeletedMessage { id: Snowflake(1), channel_id: Snowflake(2), guild_id: None })
    );
    assert_eq!(
        DeletedRole::decode(&json("{\"guild_id\":\"1\",\"role_id\":\"2\"}")),
        Some(DeletedRole { guild_id: Snowflake(1), role_id: Snowflake(2) })
    );
    assert_eq!(
        CreatedRole::decode(&json(&format!("{{\"guild_id\":\"1\",\"role\":{}}}", role))).map(|c| c.role.permissions),
        Some(8)
    );
    assert_eq!(OverwriteType::from_code(0), OverwriteType::Role);
    assert_eq!(OverwriteType::from_code(1), OverwriteType::Member);
    assert_eq!(OverwriteType::from_code(2), OverwriteType::Unknown);
}

fn client() -> Discord {
    Discord::new("https://h/api".to_string(), "tok".to_string())
}

fn ready(session: &str) -> GatewayMessage {
    GatewayMessage::Event(Event::Ready(Ready {
        user: user(),
        session_id: session.to_string(),
        protocol_version: 9,
        guilds: vec![],
    }))
}

#[test]
fn first_connection_identifies() {
    let c = client();
    let plan = c.connect();
    assert_eq!(plan.url, "https://h/api/gateway/bot");
    assert_eq!(plan.authorization, "Bot tok");
    assert_eq!(plan.gateway, Gateway::new("tok".to_string(), None));
    assert_eq!(c.seq(), None);
    assert_eq!(c.did_resume(), None);
}

#[test]
fn reconnect_resumes_only_with_session_and_sequence() {
    let mut c = client();
    let (plan, resumed) = c.reconnect();
    assert!(!resumed);
    assert_eq!(plan.gateway.resume, None);
    c.attach(plan.gateway);
    assert_eq!(c.recv(Ok(ready("sess"))), Received::Return(Ok(ready("sess"))));
    assert_eq!(c.session_id, Some("sess".to_string()));
    let (_, resumed) = c.reconnect();
    assert!(!resumed);
    let frame = Message::Text("{\"op\":0,\"t\":\"X\",\"s\":12,\"d\":null}".to_string());
    c.gateway.as_mut().unwrap().recv(frame);
    assert_eq!(c.seq(), Some(12));
    let (plan, resumed) = c.reconnect();
    assert!(resumed);
    assert_eq!(plan.gateway.resume, Some(ResumeInfo { session_id: "sess".to_string(), seq: 12 }));
    assert_eq!(plan.gateway.seq_num, None);
}

#[test]
fn server_request_to_reconnect_asks_for_the_plan() {
    let mut c = client();
    c.attach(Gateway::new("tok".to_string(), None));
    match c.recv(Ok(GatewayMessage::Reconnect)) {
        Received::Reconnect { plan, resumed } => {
            assert!(!resumed);
            assert_eq!(plan.gateway.resume, None);
        }
        other => panic!("unexpected {:?}", other),
    }
}

#[test]
fn invalid_session_clears_resume_state() {
    let mut c = client();
    let mut g = Gateway::new("tok".to_string(), None);
    g.recv(Message::Text("{\"op\":11,\"s\":3}".to_string()));
    c.attach(g);
    c.recv(Ok(ready("sess")));
    assert_eq!(
        c.recv(Ok(GatewayMessage::InvalidSession)),
        Received::Return(Err(GatewayError::InvalidSession))
    );
    assert_eq!(c.session_id, None);
    assert_eq!(c.seq(), None);
    let (_, resumed) = c.reconnect();
    assert!(!resumed);
}

#[test]
fn other_messages_and_errors_pass_through() {
    let mut c = client();
    assert_eq!(
        c.recv(Err(GatewayError::MalformedPayload)),
        Received::Return(Err(GatewayError::MalformedPayload))
    );
    assert_eq!(
        c.recv(Ok(GatewayMessage::Raw(Message::Ping(vec![1])))),
        Received::Return(Ok(GatewayMessage::Raw(Message::Ping(vec![1]))))
    );
    assert_eq!(c, client());
}

#[test]
fn did_resume_is_observable() {
    let mut c = client();
    let plan = c.reconnect_with("sess".to_string(), 4);
    c.attach(plan.gateway);
    c.gateway.as_mut().unwrap().recv(Message::Text(
        "{\"op\":10,\"d\":{\"heartbeat_interval\":1000}}".to_string(),
    ));
    assert_eq!(c.did_resume(), Some(true));
}

#[test]
fn handle_carries_base_and_authorization() {
    let c = client();
    let h = c.get_send_handle();
    assert_eq!(h.base_url, "https://h/api");
    assert_eq!(h.auth, "Bot tok");
    assert_eq!(h.get_channel(Snowflake(1)).url, "https://h/api/channels/1");
    assert_eq!(h.get_channel(Snowflake(1)).authorization, "Bot tok");
    assert_eq!(
        h.set_reaction(Snowflake(1), Snowflake(2), "x").url,
        "https://h/api/channels/1/messages/2/reactions/x/@me"
    );
    assert_eq!(
        h.add_member_role(Snowflake(1), Snowflake(2), Snowflake(3)).url,
        "https://h/api/guilds/1/members/2/roles/3"
    );
    assert_eq!(c.send_gateway_raw("{}"), Message::Text("{}".to_string()));
    let m = discord_gateway::send_message::NewMessage::new("hi".to_string());
    assert_eq!(c.send(Snowflake(9), &m).url, "https://h/api/channels/9/messages");
    assert_eq!(h.send(Snowflake(9), &m).authorization, "Bot tok");
}
