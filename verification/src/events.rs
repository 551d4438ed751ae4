//! The bodies of the gateway's dispatch events and of its hello, and the closed
//! set of events that a dispatch can carry.

use vstd::prelude::*;
use vstd::string::*;
use crate::discord::{
    decode_ids, ids_read, opt_id, to_opt_id, GuildMember, Message, Snowflake, UnavailableGuild,
    User,
};
use crate::json::Json;
use crate::text::str_eq;

verus! {

/// Each item is the string at the same place of `out`.
pub open spec fn texts_read(items: Seq<Json>, out: Seq<String>) -> bool {
    &&& items.len() == out.len()
    &&& forall|i: int| 0 <= i < items.len() ==> (#[trigger] items[i]).text() == Some(out[i]@)
}

/// Reads an array of strings.
pub fn decode_texts(items: &Vec<Json>) -> (r: Option<Vec<String>>)
    ensures
        r matches Some(out) ==> texts_read(items@, out@),
        r is None ==> forall|out: Seq<String>| !texts_read(items@, out),
{
    let mut out: Vec<String> = Vec::new();
    let mut i: usize = 0;
    while i < items.len()
        invariant
            i <= items.len(),
            out@.len() == i,
            forall|k: int| 0 <= k < i ==> (#[trigger] items@[k]).text() == Some(out@[k]@),
        decreases items.len() - i,
    {
        match items[i].as_text() {
            Some(t) => {
                out.push(t.to_owned());
            },
            None => {
                assert forall|bad: Seq<String>| !texts_read(items@, bad) by {
                    if texts_read(items@, bad) {
                        assert(items@[i as int].text() == Some(bad[i as int]@));
                    }
                }
                return None;
            },
        }
        i = i + 1;
    }
    Some(out)
}

/// The server's greeting: how often it wants a heartbeat, in milliseconds, and
/// the trace that it may send along.
#[derive(Debug, PartialEq, Eq)]
pub struct Hello {
    pub heartbeat_interval: u64,
    pub trace: Vec<String>,
}

impl Hello {
    pub open spec fn reads(self, j: Json) -> bool {
        &&& j.unsigned_at("heartbeat_interval"@) == Some(self.heartbeat_interval)
        &&& match j.field("_trace"@) {
            Some(v) => v.items() matches Some(items) && texts_read(items, self.trace@),
            None => self.trace@.len() == 0,
        }
    }

    pub fn decode(j: &Json) -> (r: Option<Hello>)
        ensures
            r matches Some(v) ==> v.reads(*j),
            r is None ==> forall|v: Hello| !v.reads(*j),
    {
        let heartbeat_interval = match j.read_unsigned("heartbeat_interval") {
            Some(v) => v,
            None => { return None; },
        };
        let trace = match j.get("_trace") {
            Some(v) => match v.as_items() {
                Some(items) => match decode_texts(items) {
                    Some(list) => list,
                    None => { return None; },
                },
                None => { return None; },
            },
            None => Vec::new(),
        };
        Some(Hello { heartbeat_interval, trace })
    }
}

/// A user named by identifier alone.
#[derive(Debug, Clone, Copy, PartialEq, Eq)]
pub struct IdUser {
    pub id: Snowflake,
}

/// A change of a member's presence.
#[derive(Debug, PartialEq, Eq)]
pub struct PresenceUpdate {
    pub user: IdUser,
    pub status: String,
    pub roles: Vec<Snowflake>,
    pub guild_id: Snowflake,
}

impl PresenceUpdate {
    pub open spec fn reads(self, j: Json) -> bool {
        &&& j.field("user"@) matches Some(u) && u.id_at("id"@) == Some(self.user.id.0)
        &&& j.text_at("status"@) == Some(self.status@)
        &&& j.items_at("roles"@) matches Some(items) && ids_read(items, self.roles@)
        &&& j.id_at("guild_id"@) == Some(self.guild_id.0)
    }

    pub fn decode(j: &Json) -> (r: Option<PresenceUpdate>)
        ensures
            r matches Some(v) ==> v.reads(*j),
            r is None ==> forall|v: PresenceUpdate| !v.reads(*j),
    {
        let user = match j.get("user") {
            Some(u) => match u.read_id("id") {
                Some(id) => IdUser { id: Snowflake(id) },
                None => { return None; },
            },
            None => { return None; },
        };
        let status = match j.read_text("status") {
            Some(v) => v,
            None => { return None; },
        };
        let roles = match j.read_items("roles") {
            Some(items) => match decode_ids(items) {
                Some(v) => v,
                None => { return None; },
            },
            None => { return None; },
        };
        let guild_id = match j.read_id("guild_id") {
            Some(v) => v,
            None => { return None; },
        };
        Some(PresenceUpdate { user, status, roles, guild_id: Snowflake(guild_id) })
    }
}

/// The emoji of a reaction: a custom one has an identifier.
#[derive(Debug, PartialEq, Eq)]
pub struct Emoji {
    pub id: Option<Snowflake>,
    pub name: String,
}

impl Emoji {
    pub open spec fn reads(self, j: Json) -> bool {
        &&& j.opt_id_at("id"@) == Some(opt_id(self.id))
        &&& j.text_at("name"@) == Some(self.name@)
    }

    pub fn decode(j: &Json) -> (r: Option<Emoji>)
        ensures
            r matches Some(v) ==> v.reads(*j),
            r is None ==> forall|v: Emoji| !v.reads(*j),
    {
        let id = match j.read_opt_id("id") {
            Some(v) => to_opt_id(v),
            None => { return None; },
        };
        let name = match j.read_text("name") {
            Some(v) => v,
            None => { return None; },
        };
        Some(Emoji { id, name })
    }
}

/// A reaction that a user put on a message.
#[derive(Debug, PartialEq, Eq)]
pub struct MessageReactionAdd {
    pub user_id: Snowflake,
    pub channel_id: Snowflake,
    pub message_id: Snowflake,
    pub guild_id: Option<Snowflake>,
    pub member: Option<GuildMember>,
    pub emoji: Emoji,
}

impl MessageReactionAdd {
    pub open spec fn reads(self, j: Json) -> bool {
        &&& j.id_at("user_id"@) == Some(self.user_id.0)
        &&& j.id_at("channel_id"@) == Some(self.channel_id.0)
        &&& j.id_at("message_id"@) == Some(self.message_id.0)
        &&& j.opt_id_at("guild_id"@) == Some(opt_id(self.guild_id))
        &&& match j.present("member"@) {
            Some(m) => self.member matches Some(x) && x.reads(m),
            None => self.member is None,
        }
        &&& j.field("emoji"@) matches Some(e) && self.emoji.reads(e)
    }

    pub fn decode(j: &Json) -> (r: Option<MessageReactionAdd>)
        ensures
            r matches Some(v) ==> v.reads(*j),
            r is None ==> forall|v: MessageReactionAdd| !v.reads(*j),
    {
        let user_id = match j.read_id("user_id") {
            Some(v) => v,
            None => { return None; },
        };
        let channel_id = match j.read_id("channel_id") {
            Some(v) => v,
            None => { return None; },
        };
        let message_id = match j.read_id("message_id") {
            Some(v) => v,
            None => { return None; },
        };
        let guild_id = match j.read_opt_id("guild_id") {
            Some(v) => to_opt_id(v),
            None => { return None; },
        };
        let member = match j.get_present("member") {
            Some(m) => match GuildMember::decode(m) {
                Some(x) => Some(x),
                None => { return None; },
            },
            None => None,
        };
        let emoji = match j.get("emoji") {
            Some(e) => match Emoji::decode(e) {
                Some(x) => x,
                None => { return None; },
            },
            None => { return None; },
        };
        Some(
            MessageReactionAdd {
                user_id: Snowflake(user_id),
                channel_id: Snowflake(channel_id),
                message_id: Snowflake(message_id),
                guild_id,
                member,
                emoji,
            },
        )
    }
}

/// A reaction that a user took off a message.
#[derive(Debug, PartialEq, Eq)]
pub struct MessageReactionRemove {
    pub user_id: Snowflake,
    pub channel_id: Snowflake,
    pub message_id: Snowflake,
    pub guild_id: Option<Snowflake>,
    pub emoji: Emoji,
}

impl MessageReactionRemove {
    pub open spec fn reads(self, j: Json) -> bool {
        &&& j.id_at("user_id"@) == Some(self.user_id.0)
        &&& j.id_at("channel_id"@) == Some(self.channel_id.0)
        &&& j.id_at("message_id"@) == Some(self.message_id.0)
        &&& j.opt_id_at("guild_id"@) == Some(opt_id(self.guild_id))
        &&& j.field("emoji"@) matches Some(e) && self.emoji.reads(e)
    }

    pub fn decode(j: &Json) -> (r: Option<MessageReactionRemove>)
        ensures
            r matches Some(v) ==> v.reads(*j),
            r is None ==> forall|v: MessageReactionRemove| !v.reads(*j),
    {
        let user_id = match j.read_id("user_id") {
            Some(v) => v,
            None => { return None; },
        };
        let channel_id = match j.read_id("channel_id") {
            Some(v) => v,
            None => { return None; },
        };
        let message_id = match j.read_id("message_id") {
            Some(v) => v,
            None => { return None; },
        };
        let guild_id = match j.read_opt_id("guild_id") {
            Some(v) => to_opt_id(v),
            None => { return None; },
        };
        let emoji = match j.get("emoji") {
            Some(e) => match Emoji::decode(e) {
                Some(x) => x,
                None => { return None; },
            },
            None => { return None; },
        };
        Some(
            MessageReactionRemove {
                user_id: Snowflake(user_id),
                channel_id: Snowflake(channel_id),
                message_id: Snowflake(message_id),
                guild_id,
                emoji,
            },
        )
    }
}

/// Each item is the guild at the same place of `out`.
pub open spec fn guilds_read(items: Seq<Json>, out: Seq<UnavailableGuild>) -> bool {
    &&& items.len() == out.len()
    &&& forall|i: int| 0 <= i < items.len() ==> (#[trigger] out[i]).reads(items[i])
}

/// Reads an array of guilds known by identifier.
pub fn decode_guilds(items: &Vec<Json>) -> (r: Option<Vec<UnavailableGuild>>)
    ensures
        r matches Some(out) ==> guilds_read(items@, out@),
        r is None ==> forall|out: Seq<UnavailableGuild>| !guilds_read(items@, out),
{
    let mut out: Vec<UnavailableGuild> = Vec::new();
    let mut i: usize = 0;
    while i < items.len()
        invariant
            i <= items.len(),
            out@.len() == i,
            forall|k: int| 0 <= k < i ==> (#[trigger] out@[k]).reads(items@[k]),
        decreases items.len() - i,
    {
        match UnavailableGuild::decode(&items[i]) {
            Some(u) => {
                out.push(u);
            },
            None => {
                assert forall|bad: Seq<UnavailableGuild>| !guilds_read(items@, bad) by {
                    if guilds_read(items@, bad) {
                        assert(bad[i as int].reads(items@[i as int]));
                    }
                }
                return None;
            },
        }
        i = i + 1;
    }
    Some(out)
}

/// The first event of a session: who we are and under which session id.
#[derive(Debug, PartialEq, Eq)]
pub struct Ready {
    pub user: User,
    pub session_id: String,
    pub protocol_version: usize,
    pub guilds: Vec<UnavailableGuild>,
}

impl Ready {
    pub open spec fn reads(self, j: Json) -> bool {
        &&& j.field("user"@) matches Some(u) && self.user.reads(u)
        &&& j.text_at("session_id"@) == Some(self.session_id@)
        &&& j.unsigned_at("v"@) == Some(self.protocol_version as u64)
        &&& j.items_at("guilds"@) matches Some(items) && guilds_read(items, self.guilds@)
    }

    pub fn decode(j: &Json) -> (r: Option<Ready>)
        ensures
            r matches Some(v) ==> v.reads(*j),
            r is None ==> forall|v: Ready| !v.reads(*j),
    {
        let user = match j.get("user") {
            Some(u) => match User::decode(u) {
                Some(x) => x,
                None => { return None; },
            },
            None => { return None; },
        };
        let session_id = match j.read_text("session_id") {
            Some(v) => v,
            None => { return None; },
        };
        let version = match j.read_unsigned("v") {
            Some(v) => v,
            None => { return None; },
        };
        if version > usize::MAX as u64 {
            return None;
        }
        let guilds = match j.read_items("guilds") {
            Some(items) => match decode_guilds(items) {
                Some(v) => v,
                None => { return None; },
            },
            None => { return None; },
        };
        Some(Ready { user, session_id, protocol_version: version as usize, guilds })
    }
}

/// A change of our voice state; only the voice session id is read.
#[derive(Debug, PartialEq, Eq)]
pub struct VoiceStateUpdate {
    pub session_id: String,
}

impl VoiceStateUpdate {
    pub open spec fn reads(self, j: Json) -> bool {
        j.text_at("session_id"@) == Some(self.session_id@)
    }

    pub fn decode(j: &Json) -> (r: Option<VoiceStateUpdate>)
        ensures
            r matches Some(v) ==> v.reads(*j),
            r is None ==> forall|v: VoiceStateUpdate| !v.reads(*j),
    {
        match j.read_text("session_id") {
            Some(session_id) => Some(VoiceStateUpdate { session_id }),
            None => None,
        }
    }
}

/// Where to reach the voice server of a guild.
#[derive(Debug, PartialEq, Eq)]
pub struct VoiceServerUpdate {
    pub endpoint: String,
    pub token: String,
    pub guild_id: String,
}

impl VoiceServerUpdate {
    pub open spec fn reads(self, j: Json) -> bool {
        &&& j.text_at("endpoint"@) == Some(self.endpoint@)
        &&& j.text_at("token"@) == Some(self.token@)
        &&& j.text_at("guild_id"@) == Some(self.guild_id@)
    }

    pub fn decode(j: &Json) -> (r: Option<VoiceServerUpdate>)
        ensures
            r matches Some(v) ==> v.reads(*j),
            r is None ==> forall|v: VoiceServerUpdate| !v.reads(*j),
    {
        let endpoint = match j.read_text("endpoint") {
            Some(v) => v,
            None => { return None; },
        };
        let token = match j.read_text("token") {
            Some(v) => v,
            None => { return None; },
        };
        let guild_id = match j.read_text("guild_id") {
            Some(v) => v,
            None => { return None; },
        };
        Some(VoiceServerUpdate { endpoint, token, guild_id })
    }
}

/// The events that this library knows by name.
#[derive(Debug, Clone, Copy, PartialEq, Eq, Structural)]
pub enum EventKind {
    MessageCreate,
    Ready,
    VoiceStateUpdate,
    VoiceServerUpdate,
    PresenceUpdate,
    MessageReactionAdd,
    MessageReactionRemove,
    Unknown,
}

impl EventKind {
    /// The kind that an event name selects; every name that is not listed is `Unknown`.
    pub open spec fn of_name(name: Seq<char>) -> EventKind {
        if name == "MESSAGE_CREATE"@ {
            EventKind::MessageCreate
        } else if name == "READY"@ {
            EventKind::Ready
        } else if name == "VOICE_STATE_UPDATE"@ {
            EventKind::VoiceStateUpdate
        } else if name == "VOICE_SERVER_UPDATE"@ {
            EventKind::VoiceServerUpdate
        } else if name == "PRESENCE_UPDATE"@ {
            EventKind::PresenceUpdate
        } else if name == "MESSAGE_REACTION_ADD"@ {
            EventKind::MessageReactionAdd
        } else if name == "MESSAGE_REACTION_REMOVE"@ {
            EventKind::MessageReactionRemove
        } else {
            EventKind::Unknown
        }
    }

    pub fn from_name(name: &str) -> (r: EventKind)
        ensures
            r == Self::of_name(name@),
    {
        if str_eq(name, "MESSAGE_CREATE") {
            EventKind::MessageCreate
        } else if str_eq(name, "READY") {
            EventKind::Ready
        } else if str_eq(name, "VOICE_STATE_UPDATE") {
            EventKind::VoiceStateUpdate
        } else if str_eq(name, "VOICE_SERVER_UPDATE") {
            EventKind::VoiceServerUpdate
        } else if str_eq(name, "PRESENCE_UPDATE") {
            EventKind::PresenceUpdate
        } else if str_eq(name, "MESSAGE_REACTION_ADD") {
            EventKind::MessageReactionAdd
        } else if str_eq(name, "MESSAGE_REACTION_REMOVE") {
            EventKind::MessageReactionRemove
        } else {
            EventKind::Unknown
        }
    }
}

/// A decoded dispatch. An event whose name this library does not know is kept
/// whole, under its name and with its body untouched.
#[derive(Debug, PartialEq, Eq)]
pub enum Event {
    MessageCreate(Message),
    MessageReactionAdd(MessageReactionAdd),
    MessageReactionRemove(MessageReactionRemove),
    Ready(Ready),
    VoiceStateUpdate(VoiceStateUpdate),
    VoiceServerUpate(VoiceServerUpdate),
    PresenceUpdate(PresenceUpdate),
    Unknown(String, Json),
}

impl Event {
    /// The event is what the dispatch named `name` with body `d` carries.
    pub open spec fn reads(self, name: Seq<char>, d: Json) -> bool {
        match EventKind::of_name(name) {
            EventKind::MessageCreate => self matches Event::MessageCreate(v) && v.reads(d),
            EventKind::Ready => self matches Event::Ready(v) && v.reads(d),
            EventKind::VoiceStateUpdate => self matches Event::VoiceStateUpdate(v) && v.reads(d),
            EventKind::VoiceServerUpdate => self matches Event::VoiceServerUpate(v) && v.reads(d),
            EventKind::PresenceUpdate => self matches Event::PresenceUpdate(v) && v.reads(d),
            EventKind::MessageReactionAdd => self matches Event::MessageReactionAdd(v) && v.reads(
                d,
            ),
            EventKind::MessageReactionRemove => self matches Event::MessageReactionRemove(v)
                && v.reads(d),
            EventKind::Unknown => self matches Event::Unknown(n, raw) && n@ == name && raw == d,
        }
    }

    /// Decodes the body of a dispatch by the event's name. A name that is not known
    /// never fails: the event is `Unknown` with the name and the body. `None` says
    /// that the name is known and the body does not have its shape.
    pub fn decode(name: &str, d: Json) -> (r: Option<Event>)
        ensures
            r matches Some(e) ==> e.reads(name@, d),
            r is None ==> forall|e: Event| !e.reads(name@, d),
            EventKind::of_name(name@) == EventKind::Unknown ==> r is Some,
    {
        match EventKind::from_name(name) {
            EventKind::MessageCreate => match Message::decode(&d) {
                Some(v) => Some(Event::MessageCreate(v)),
                None => None,
            },
            EventKind::Ready => match Ready::decode(&d) {
                Some(v) => Some(Event::Ready(v)),
                None => None,
            },
            EventKind::VoiceStateUpdate => match VoiceStateUpdate::decode(&d) {
                Some(v) => Some(Event::VoiceStateUpdate(v)),
                None => None,
            },
            EventKind::VoiceServerUpdate => match VoiceServerUpdate::decode(&d) {
                Some(v) => Some(Event::VoiceServerUpate(v)),
                None => None,
            },
            EventKind::PresenceUpdate => match PresenceUpdate::decode(&d) {
                Some(v) => Some(Event::PresenceUpdate(v)),
                None => None,
            },
            EventKind::MessageReactionAdd => match MessageReactionAdd::decode(&d) {
                Some(v) => Some(Event::MessageReactionAdd(v)),
                None => None,
            },
            EventKind::MessageReactionRemove => match MessageReactionRemove::decode(&d) {
                Some(v) => Some(Event::MessageReactionRemove(v)),
                None => None,
            },
            EventKind::Unknown => Some(Event::Unknown(name.to_owned(), d)),
        }
    }
}

} // verus!
