use std::borrow::Cow;
use discord_gateway::discord::{GuildMember, Snowflake, User};
use discord_gateway::discord_api::{
    add_member_role, get_channel, get_members_inner, members_from_json, remove_member_role,
    set_reaction, Channel, ChannelType, MemberPages, Method, Request, LIMIT,
};
use discord_gateway::json::{quote, Json, JsonNumber};
use discord_gateway::send_message::{
    own_cow, send, send_retry_rate_limit, AllowedMentions, DiscordRateLimitResponse, Embed, Error,
    Executor, MentionTypes, NewMessage, Verdict,
};
use discord_gateway::text::replace;

#[test]
fn rate_limit_then_success_is_one_retry() {
    let mut ex = Executor::new();
    let v = send_retry_rate_limit(
        &mut ex,
        429,
        "{\"retry_after\":0.01,\"global\":false}".to_string(),
    );
    assert_eq!(
        v,
        Verdict::Retry(DiscordRateLimitResponse {
            retry_after: JsonNumber::Real("0.01".to_string()),
            global: false
        })
    );
    assert_eq!(ex.retries, 1);
    assert_eq!(ex.global_limits, 0);
    let v = send_retry_rate_limit(&mut ex, 200, "ok".to_string());
    assert_eq!(v, Verdict::Return("ok".to_string()));
    assert_eq!(ex.retries, 1);
}

#[test]
fn global_rate_limit_is_counted_and_retried_alike() {
    let mut ex = Executor::new();
    let v = send_retry_rate_limit(&mut ex, 429, "{\"retry_after\":2,\"global\":true}".to_string());
    assert_eq!(
        v,
        Verdict::Retry(DiscordRateLimitResponse {
            retry_after: JsonNumber::Unsigned(2),
            global: true
        })
    );
    assert_eq!((ex.retries, ex.global_limits), (1, 1));
}

#[test]
fn retries_have_no_cap() {
    let mut ex = Executor::new();
    for i in 1..=500u64 {
        let v = send_retry_rate_limit(&mut ex, 429, "{\"retry_after\":0,\"global\":false}".to_string());
        assert!(matches!(v, Verdict::Retry(_)));
        assert_eq!(ex.retries, i);
    }
    let mut full = Executor { retries: u64::MAX, global_limits: u64::MAX };
    let v = send_retry_rate_limit(&mut full, 429, "{\"retry_after\":0,\"global\":true}".to_string());
    assert!(matches!(v, Verdict::Retry(_)));
    assert_eq!(full.retries, u64::MAX);
}

#[test]
fn not_found_fails_at_once_with_status_and_body() {
    let mut ex = Executor::new();
    let v = send_retry_rate_limit(&mut ex, 404, "{err}".to_string());
    assert_eq!(
        v,
        Verdict::Fail(Error::DiscordError {
            msg: "Status Code 404".to_string(),
            status_code: 404,
            body: "{err}".to_string()
        })
    );
    assert_eq!(ex.retries, 0);
}

#[test]
fn every_success_status_returns_the_body() {
    for status in [200u16, 201, 204, 299] {
        let mut ex = Executor::new();
        assert_eq!(
            send_retry_rate_limit(&mut ex, status, "b".to_string()),
            Verdict::Return("b".to_string())
        );
    }
    for status in [100u16, 199, 300, 301, 400, 401, 403, 500, 503] {
        let mut ex = Executor::new();
        assert!(matches!(
            send_retry_rate_limit(&mut ex, status, "b".to_string()),
            Verdict::Fail(Error::DiscordError { status_code, .. }) if status_code == status
        ));
    }
}

#[test]
fn malformed_rate_limit_fails() {
    for body in ["", "nope", "{}", "{\"retry_after\":\"1\",\"global\":false}", "{\"retry_after\":1}"] {
        let mut ex = Executor::new();
        assert_eq!(
            send_retry_rate_limit(&mut ex, 429, body.to_string()),
            Verdict::Fail(Error::Other("Malformed rate limit message".to_string())),
            "{}",
            body
        );
        assert_eq!(ex.retries, 0);
    }
}

#[test]
fn message_builders() {
    let mut m = NewMessage::new("hi".to_string());
    assert_eq!(m.content, Some(Cow::Borrowed("hi")));
    assert_eq!(m.embed, None);
    assert_eq!(m.allowed_mentions, None);
    m.suppress_mentions();
    assert_eq!(
        m.allowed_mentions,
        Some(AllowedMentions { parse: vec![], users: None, roles: None })
    );
    let e = NewMessage::embed_desc(Some(Cow::Borrowed("t")), Cow::Borrowed("d"));
    assert_eq!(e.content, None);
    assert_eq!(
        e.embed,
        Some(Embed { title: Some(Cow::Borrowed("t")), description: Some(Cow::Borrowed("d")) })
    );
    let t = NewMessage::embed_temp("d".to_string());
    assert_eq!(t.embed, Some(Embed { title: None, description: Some(Cow::Borrowed("d")) }));
    let owned: NewMessage<'static> = e.into_owned();
    assert!(matches!(owned.embed.as_ref().unwrap().title, Some(Cow::Owned(_))));
    assert_eq!(owned.embed.unwrap().description, Some(Cow::Borrowed("d")));
    assert!(matches!(own_cow(Cow::Borrowed("x")), Cow::Owned(_)));
    let f: NewMessage<'static> = NewMessage::from("x".to_string());
    assert_eq!(f, NewMessage::new("x".to_string()));
}

#[test]
fn message_body_is_what_the_platform_reads() {
    let mut m = NewMessage::new("a \"q\"\n".to_string());
    assert_eq!(
        m.to_json(),
        "{\"content\":\"a \\\"q\\\"\\n\",\"embed\":null,\"allowed_mentions\":null}"
    );
    m.suppress_mentions();
    assert_eq!(
        m.to_json(),
        "{\"content\":\"a \\\"q\\\"\\n\",\"embed\":null,\"allowed_mentions\":{\"parse\":[],\"users\":null,\"roles\":null}}"
    );
    m.allowed_mentions = Some(AllowedMentions {
        parse: vec![MentionTypes::Users, MentionTypes::Roles, MentionTypes::Everyone],
        users: Some(vec![Snowflake(1), Snowflake(22)]),
        roles: Some(vec![]),
    });
    m.embed = Some(Embed { title: None, description: Some(Cow::Borrowed("d")) });
    let body = m.to_json();
    assert_eq!(
        body,
        "{\"content\":\"a \\\"q\\\"\\n\",\"embed\":{\"title\":null,\"description\":\"d\"},\"allowed_mentions\":{\"parse\":[\"users\",\"roles\",\"everyone\"],\"users\":[\"1\",\"22\"],\"roles\":[]}}"
    );
    let v: serde_json::Value = serde_json::from_str(&body).unwrap();
    assert_eq!(v["content"].as_str(), Some("a \"q\"\n"));
    assert_eq!(v["allowed_mentions"]["users"][1].as_str(), Some("22"));
}

#[test]
fn sending_a_long_text_posts_its_chunks() {
    let mut m = NewMessage::new(format!("{}\n{}", "a".repeat(1999), "b".repeat(10)));
    m.suppress_mentions();
    let p = send(Snowflake(42), &m, "https://h/api", "tok");
    assert_eq!(p.url, "https://h/api/channels/42/messages");
    assert_eq!(p.authorization, "Bot tok");
    assert_eq!(p.content_type, "application/json");
    assert_eq!(p.bodies.len(), 2);
    let mentions = "{\"parse\":[],\"users\":null,\"roles\":null}";
    assert_eq!(
        p.bodies[0],
        format!("{{\"content\":\"{}\",\"embed\":null,\"allowed_mentions\":{}}}", "a".repeat(1999), mentions)
    );
    assert_eq!(
        p.bodies[1],
        format!("{{\"content\":\"{}\",\"embed\":null,\"allowed_mentions\":{}}}", "b".repeat(10), mentions)
    );
}

#[test]
fn sending_an_embed_posts_it_whole() {
    let m = NewMessage {
        content: Some(Cow::Owned("c".repeat(3000))),
        embed: Some(Embed { title: Some(Cow::Borrowed("t")), description: None }),
        allowed_mentions: None,
    };
    let p = send(Snowflake(1), &m, "b", "t");
    assert_eq!(p.bodies.len(), 1);
    assert_eq!(p.bodies[0], m.to_json());
    let e = NewMessage::embed_temp("d".to_string());
    let p = send(Snowflake(1), &e, "b", "t");
    assert_eq!(
        p.bodies,
        vec!["{\"content\":null,\"embed\":{\"title\":null,\"description\":\"d\"},\"allowed_mentions\":null}".to_string()]
    );
}

#[test]
fn parts_keep_the_order_of_the_chunks() {
    let text = format!("{}\n{}\n{}", "1".repeat(1500), "2".repeat(1500), "3".repeat(1500));
    let m = NewMessage::new(text);
    let parts = m.parts();
    let got: Vec<String> = parts.iter().map(|p| p.content.clone().unwrap().into_owned()).collect();
    assert_eq!(got, vec!["1".repeat(1500), "2".repeat(1500), "3".repeat(1500)]);
}

#[test]
fn quoting_is_serde_json() {
    for t in ["", "plain", "\"", "\\", "\u{8}\t\n\u{c}\r", "\u{0}\u{1f}\u{7f}", "é€😀", "a/b"] {
        let q = quote(t);
        assert_eq!(q, serde_json::to_string(t).unwrap());
        let back: String = serde_json::from_str(&q).unwrap();
        assert_eq!(back, t);
    }
    assert_eq!(quote("a\"b"), "\"a\\\"b\"");
    assert_eq!(quote("\u{1}"), "\"\\u0001\"");
}

#[test]
fn json_is_read_into_plain_values() {
    assert_eq!(Json::parse("null"), Some(Json::Null));
    assert_eq!(Json::parse(" [true, \"x\"] "), Some(Json::Array(vec![Json::Bool(true), Json::Text("x".to_string())])));
    assert_eq!(Json::parse("18446744073709551615"), Some(Json::Number(JsonNumber::Unsigned(u64::MAX))));
    assert_eq!(Json::parse("-5"), Some(Json::Number(JsonNumber::Negative(-5))));
    assert_eq!(
        Json::parse("{\"b\":1,\"a\":{\"c\":null}}"),
        Some(Json::Object(vec![
            ("a".to_string(), Json::Object(vec![("c".to_string(), Json::Null)])),
            ("b".to_string(), Json::Number(JsonNumber::Unsigned(1))),
        ]))
    );
    assert_eq!(Json::parse("{"), None);
    assert_eq!(Json::parse(""), None);
    assert_eq!(Json::parse("1 2"), None);
    let j = Json::parse("{\"k\":\"12\",\"n\":null}").unwrap();
    assert_eq!(j.get("k").and_then(|v| v.as_id()), Some(12));
    assert_eq!(j.get("missing"), None);
    assert_eq!(j.get_present("n"), None);
    assert_eq!(j.get("n"), Some(&Json::Null));
    assert_eq!(j.take("k"), Some(Json::Text("12".to_string())));
}

#[test]
fn replace_is_std_replace() {
    for (s, from, to) in [("aaa", "aa", "b"), ("abcabc", "bc", ""), ("", "x", "y"), ("xyz", "", "q"),
        ("ééé", "é", "e"), ("ababab", "aba", "-")] {
        let expected = if from.is_empty() { s.to_string() } else { s.replace(from, to) };
        assert_eq!(replace(s, from, to), expected);
    }
}

#[test]
fn reaction_address_is_percent_encoded() {
    let r = set_reaction(Snowflake(1), Snowflake(2), "👍 a:b_9", "https://h/api", "Bot t");
    assert_eq!(
        r,
        Request {
            method: Method::Put,
            url: "https://h/api/channels/1/messages/2/reactions/%F0%9F%91%8D%20a%3Ab%5F9/@me".to_string(),
            authorization: "Bot t".to_string(),
        }
    );
}

#[test]
fn role_and_channel_addresses() {
    let r = add_member_role(Snowflake(1), Snowflake(2), Snowflake(3), "b", "a");
    assert_eq!((r.method, r.url.as_str(), r.authorization.as_str()), (Method::Put, "b/guilds/1/members/2/roles/3", "a"));
    let r = remove_member_role(Snowflake(1), Snowflake(2), Snowflake(3), "b", "a");
    assert_eq!((r.method, r.url.as_str()), (Method::Delete, "b/guilds/1/members/2/roles/3"));
    let r = get_channel(Snowflake(77), "b", "a");
    assert_eq!((r.method, r.url.as_str()), (Method::Get, "b/channels/77"));
    let r = get_members_inner(Snowflake(5), None, "b", "a");
    assert_eq!(r.url, "b/guilds/5/members?limit=1000");
    let r = get_members_inner(Snowflake(5), Some(Snowflake(9)), "b", "a");
    assert_eq!(r.url, "b/guilds/5/members?limit=1000&after=9");
}

fn member(id: Option<u64>) -> GuildMember {
    GuildMember {
        user: id.map(|n| User {
            id: Snowflake(n),
            username: "u".to_string(),
            discriminator: "0".to_string(),
        }),
        nick: None,
        roles: vec![],
        deaf: false,
        mute: false,
        permissions: None,
    }
}

#[test]
fn member_pages_walk_to_the_short_page() {
    let mut pages = MemberPages::new();
    assert_eq!(pages.get_members(Snowflake(5), "b", "a").url, "b/guilds/5/members?limit=1000");
    let full: Vec<GuildMember> = (0..LIMIT as u64).map(|i| member(Some(1000 - (i % 7)))).collect();
    pages.absorb(full);
    assert!(!pages.done);
    assert_eq!(pages.last, Some(Snowflake(1000)));
    assert_eq!(pages.users.len(), LIMIT);
    assert_eq!(
        pages.get_members(Snowflake(5), "b", "a").url,
        "b/guilds/5/members?limit=1000&after=1000"
    );
    pages.absorb(vec![member(None), member(None)]);
    assert!(pages.done);
    assert_eq!(pages.last, Some(Snowflake(1000)));
    assert_eq!(pages.users.len(), LIMIT + 2);
    let mut p = MemberPages::new();
    p.absorb(vec![member(Some(3)), member(None), member(Some(8)), member(Some(4))]);
    assert_eq!(p.last, Some(Snowflake(8)));
    assert!(p.done);
}

#[test]
fn members_are_read_from_a_page() {
    let body = "[{\"user\":{\"id\":\"7\",\"username\":\"n\",\"discriminator\":\"0001\"},\"nick\":null,\"roles\":[\"1\",\"2\"],\"joined_at\":\"2017\",\"deaf\":false,\"mute\":true}]";
    let list = members_from_json(Json::parse(body)).unwrap();
    assert_eq!(
        list,
        vec![GuildMember {
            user: Some(User { id: Snowflake(7), username: "n".to_string(), discriminator: "0001".to_string() }),
            nick: None,
            roles: vec![Snowflake(1), Snowflake(2)],
            deaf: false,
            mute: true,
            permissions: None,
        }]
    );
    assert_eq!(
        members_from_json(Json::parse("[{\"roles\":[]}]")),
        Err(Error::Other("Malformed get members".to_string()))
    );
    assert_eq!(
        members_from_json(Json::parse("{")),
        Err(Error::Other("Malformed get members".to_string()))
    );
}

#[test]
fn channel_is_read_with_its_optional_members() {
    let body = "{\"id\":\"10\",\"type\":0,\"guild_id\":\"3\",\"position\":-1,\"name\":\"general\",\"topic\":null,\"parent_id\":\"4\",\"permission_overwrites\":[{\"id\":\"1\",\"type\":1,\"allow\":\"8\",\"deny\":\"0\"}]}";
    let c = Channel::from_json(Json::parse(body)).unwrap();
    assert_eq!(c.id, Snowflake(10));
    assert_eq!(c.kind, ChannelType::GuildText);
    assert_eq!(c.guild_id, Some(Snowflake(3)));
    assert_eq!(c.position, Some(-1));
    assert_eq!(c.name, Some("general".to_string()));
    assert_eq!(c.topic, Some(None));
    assert_eq!(c.icon, None);
    assert_eq!(c.parent_id, Some(Some(Snowflake(4))));
    assert_eq!(c.last_message_id, None);
    let o = &c.permission_overwrites.as_ref().unwrap()[0];
    assert_eq!((o.id, o.allow, o.deny), (Snowflake(1), 8, 0));
    assert_eq!(o.overwrite_type, discord_gateway::discord::OverwriteType::Member);
    assert_eq!(
        Channel::from_json(Json::parse("{\"id\":\"10\",\"type\":99}")).unwrap().kind,
        ChannelType::Unknown
    );
    assert_eq!(
        Channel::from_json(Json::parse("{\"id\":\"10\",\"type\":256}")),
        Err(Error::Other("Malformed get channel".to_string()))
    );
    assert_eq!(
        Channel::from_json(Json::parse("{\"type\":0}")),
        Err(Error::Other("Malformed get channel".to_string()))
    );
    for code in 0..=255u8 {
        let k = ChannelType::from_code(code);
        if k != ChannelType::Unknown {
            assert_eq!(k.code(), code);
        }
    }
    assert_eq!(ChannelType::Unknown.code(), 255);
}

#[test]
fn message_without_text_has_a_body_of_nulls() {
    let m = NewMessage { content: None, embed: None, allowed_mentions: None };
    assert_eq!(m.to_json(), "{\"content\":null,\"embed\":null,\"allowed_mentions\":null}");
    let e = NewMessage {
        content: None,
        embed: Some(Embed { title: None, description: None }),
        allowed_mentions: None,
    };
    assert_eq!(
        e.to_json(),
        "{\"content\":null,\"embed\":{\"title\":null,\"description\":null},\"allowed_mentions\":null}"
    );
    assert_eq!(send(Snowflake(3), &m, "b", "t").bodies.len(), 1);
}

#[test]
fn message_from_text_holds_the_text() {
    let owned: NewMessage<'static> = NewMessage::from("x".to_string());
    let borrowed: NewMessage = NewMessage::from("x");
    assert_eq!(owned, borrowed);
    assert_eq!(borrowed, NewMessage::new("x".to_string()));
    assert_eq!(borrowed.embed, None);
    assert_eq!(borrowed.allowed_mentions, None);
    let m: NewMessage = "into".into();
    assert_eq!(m.content, Some(Cow::Borrowed("into")));
}

#[test]
fn rest_errors_describe_themselves() {
    assert_eq!(
        Error::DiscordError { msg: "Status Code 404".to_string(), status_code: 404, body: "{err}".to_string() }
            .describe(),
        "Status Code 404: {err}"
    );
    assert_eq!(Error::TransportError("t".to_string()).describe(), "Transport Error: t");
    assert_eq!(Error::HttpError("h".to_string()).describe(), "Http Error: h");
    assert_eq!(Error::DecodeError("d".to_string()).describe(), "Decode Error: d");
    assert_eq!(Error::RateLimited { retry_after: 5 }.describe(), "Rate Limited: 5");
    assert_eq!(Error::Other("o".to_string()).describe(), "o");
}
