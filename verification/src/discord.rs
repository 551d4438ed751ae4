//! The platform's plain records (identifiers, users, roles, members, messages) and
//! how each is read from a JSON object.
//!
//! For a record `T`, `T::reads` relates a value to the JSON it was read from, and
//! `T::decode` returns a value that reads the JSON, or `None` where no value does.

use vstd::prelude::*;
use vstd::string::*;
use crate::decimal::{decimal, from_decimal, lemma_decimal_round_trip, parse_decimal, to_decimal};
use crate::json::Json;

verus! {

/// A 64-bit identifier. On the wire it is a string of decimal digits.
#[derive(Debug, Clone, Copy, PartialEq, Eq, PartialOrd, Ord, Hash, Structural)]
pub struct Snowflake(pub u64);

/// A text that does not spell an identifier.
#[derive(Debug, PartialEq, Eq)]
pub struct DecodeError {
    /// The text that was refused.
    pub found: String,
}

impl Snowflake {
    /// The number itself.
    pub fn get(&self) -> (n: u64)
        ensures
            n == self.0,
    {
        self.0
    }

    /// The identifier as it goes on the wire: its decimal digits.
    pub fn encode(&self) -> (text: String)
        ensures
            text@ == decimal(self.0 as nat),
    {
        to_decimal(self.0)
    }

    /// Reads an identifier from its wire text. Any text that is no decimal number
    /// of 64 bits is refused with an error that carries the text.
    pub fn decode(text: &str) -> (r: Result<Snowflake, DecodeError>)
        ensures
            match r {
                Ok(id) => parse_decimal(text@) == Some(id.0),
                Err(e) => parse_decimal(text@) is None && e.found@ == text@,
            },
    {
        match from_decimal(text) {
            Some(n) => Ok(Snowflake(n)),
            None => Err(DecodeError { found: text.to_owned() }),
        }
    }

    /// Decoding what `encode` wrote gives the identifier back, for every 64-bit value.
    pub proof fn lemma_round_trip(id: Snowflake)
        ensures
            parse_decimal(decimal(id.0 as nat)) == Some(id.0),
    {
        lemma_decimal_round_trip(id.0);
    }
}

/// The characters of an optional string.
pub open spec fn opt_view(s: Option<String>) -> Option<Seq<char>> {
    match s {
        Some(t) => Some(t@),
        None => None,
    }
}

/// The number of an optional identifier.
pub open spec fn opt_id(s: Option<Snowflake>) -> Option<u64> {
    match s {
        Some(t) => Some(t.0),
        None => None,
    }
}

/// Wraps an optional number as an optional identifier.
pub fn to_opt_id(n: Option<u64>) -> (r: Option<Snowflake>)
    ensures
        opt_id(r) == n,
{
    match n {
        Some(v) => Some(Snowflake(v)),
        None => None,
    }
}

/// Each item spells the identifier at the same place of `out`.
pub open spec fn ids_read(items: Seq<Json>, out: Seq<Snowflake>) -> bool {
    &&& items.len() == out.len()
    &&& forall|i: int| 0 <= i < items.len() ==> (#[trigger] items[i]).id() == Some(out[i].0)
}

/// Reads an array of identifiers.
pub fn decode_ids(items: &Vec<Json>) -> (r: Option<Vec<Snowflake>>)
    ensures
        r matches Some(out) ==> ids_read(items@, out@),
        r is None ==> forall|out: Seq<Snowflake>| !ids_read(items@, out),
{
    let mut out: Vec<Snowflake> = Vec::new();
    let mut i: usize = 0;
    while i < items.len()
        invariant
            i <= items.len(),
            ids_read(items@.take(i as int), out@),
        decreases items.len() - i,
    {
        match items[i].as_id() {
            Some(n) => {
                out.push(Snowflake(n));
            },
            None => {
                assert forall|bad: Seq<Snowflake>| !ids_read(items@, bad) by {
                    if ids_read(items@, bad) {
                        assert(items@[i as int].id() == Some(bad[i as int].0));
                    }
                }
                return None;
            },
        }
        i = i + 1;
        assert forall|k: int| 0 <= k < i implies (#[trigger] items@.take(i as int)[k]).id() == Some(
            out@[k].0,
        ) by {
            if k < i - 1 {
                assert(items@.take(i - 1)[k] == items@.take(i as int)[k]);
            }
        }
    }
    assert(items@.take(items.len() as int) =~= items@);
    Some(out)
}

/// A user account.
#[derive(Debug, PartialEq, Eq)]
pub struct User {
    pub id: Snowflake,
    pub username: String,
    pub discriminator: String,
}

impl User {
    pub open spec fn reads(self, j: Json) -> bool {
        &&& j.id_at("id"@) == Some(self.id.0)
        &&& j.text_at("username"@) == Some(self.username@)
        &&& j.text_at("discriminator"@) == Some(self.discriminator@)
    }

    pub fn decode(j: &Json) -> (r: Option<User>)
        ensures
            r matches Some(u) ==> u.reads(*j),
            r is None ==> forall|u: User| !u.reads(*j),
    {
        let id = match j.read_id("id") {
            Some(v) => v,
            None => { return None; },
        };
        let username = match j.read_text("username") {
            Some(v) => v,
            None => { return None; },
        };
        let discriminator = match j.read_text("discriminator") {
            Some(v) => v,
            None => { return None; },
        };
        Some(User { id: Snowflake(id), username, discriminator })
    }

    /// A copy with the same fields.
    pub fn duplicate(&self) -> (r: User)
        ensures
            r == *self,
    {
        User {
            id: self.id,
            username: self.username.clone(),
            discriminator: self.discriminator.clone(),
        }
    }
}

/// Each item is the user at the same place of `out`.
pub open spec fn users_read(items: Seq<Json>, out: Seq<User>) -> bool {
    &&& items.len() == out.len()
    &&& forall|i: int| 0 <= i < items.len() ==> (#[trigger] out[i]).reads(items[i])
}

/// Reads an array of users.
pub fn decode_users(items: &Vec<Json>) -> (r: Option<Vec<User>>)
    ensures
        r matches Some(out) ==> users_read(items@, out@),
        r is None ==> forall|out: Seq<User>| !users_read(items@, out),
{
    let mut out: Vec<User> = Vec::new();
    let mut i: usize = 0;
    while i < items.len()
        invariant
            i <= items.len(),
            out@.len() == i,
            forall|k: int| 0 <= k < i ==> (#[trigger] out@[k]).reads(items@[k]),
        decreases items.len() - i,
    {
        match User::decode(&items[i]) {
            Some(u) => {
                out.push(u);
            },
            None => {
                assert forall|bad: Seq<User>| !users_read(items@, bad) by {
                    if users_read(items@, bad) {
                        assert(bad[i as int].reads(items@[i as int]));
                    }
                }
                return None;
            },
        }
        i = i + 1;
    }
    Some(out)
}

/// A role of a guild.
#[derive(Debug, PartialEq, Eq)]
pub struct Role {
    pub id: Snowflake,
    pub name: String,
    /// The permission bits, sent as a decimal string.
    pub permissions: u64,
    pub position: usize,
}

impl Role {
    pub open spec fn reads(self, j: Json) -> bool {
        &&& j.id_at("id"@) == Some(self.id.0)
        &&& j.text_at("name"@) == Some(self.name@)
        &&& j.id_at("permissions"@) == Some(self.permissions)
        &&& j.unsigned_at("position"@) == Some(self.position as u64)
    }

    pub fn decode(j: &Json) -> (r: Option<Role>)
        ensures
            r matches Some(v) ==> v.reads(*j),
            r is None ==> forall|v: Role| !v.reads(*j),
    {
        let id = match j.read_id("id") {
            Some(v) => v,
            None => { return None; },
        };
        let name = match j.read_text("name") {
            Some(v) => v,
            None => { return None; },
        };
        let permissions = match j.read_id("permissions") {
            Some(v) => v,
            None => { return None; },
        };
        let position = match j.read_unsigned("position") {
            Some(v) => v,
            None => { return None; },
        };
        if position > usize::MAX as u64 {
            return None;
        }
        Some(Role { id: Snowflake(id), name, permissions, position: position as usize })
    }
}

/// Each item is the role at the same place of `out`.
pub open spec fn roles_read(items: Seq<Json>, out: Seq<Role>) -> bool {
    &&& items.len() == out.len()
    &&& forall|i: int| 0 <= i < items.len() ==> (#[trigger] out[i]).reads(items[i])
}

/// Reads an array of roles.
pub fn decode_roles(items: &Vec<Json>) -> (r: Option<Vec<Role>>)
    ensures
        r matches Some(out) ==> roles_read(items@, out@),
        r is None ==> forall|out: Seq<Role>| !roles_read(items@, out),
{
    let mut out: Vec<Role> = Vec::new();
    let mut i: usize = 0;
    while i < items.len()
        invariant
            i <= items.len(),
            out@.len() == i,
            forall|k: int| 0 <= k < i ==> (#[trigger] out@[k]).reads(items@[k]),
        decreases items.len() - i,
    {
        match Role::decode(&items[i]) {
            Some(u) => {
                out.push(u);
            },
            None => {
                assert forall|bad: Seq<Role>| !roles_read(items@, bad) by {
                    if roles_read(items@, bad) {
                        assert(bad[i as int].reads(items@[i as int]));
                    }
                }
                return None;
            },
        }
        i = i + 1;
    }
    Some(out)
}

/// A user as a member of a guild. The time of joining must be there; it is not kept.
#[derive(Debug, PartialEq, Eq)]
pub struct GuildMember {
    pub user: Option<User>,
    pub nick: Option<String>,
    pub roles: Vec<Snowflake>,
    pub deaf: bool,
    pub mute: bool,
    pub permissions: Option<String>,
}

impl GuildMember {
    pub open spec fn reads(self, j: Json) -> bool {
        &&& match j.present("user"@) {
            Some(u) => self.user matches Some(x) && x.reads(u),
            None => self.user is None,
        }
        &&& j.opt_text_at("nick"@) == Some(opt_view(self.nick))
        &&& j.items_at("roles"@) matches Some(items) && ids_read(items, self.roles@)
        &&& j.field("joined_at"@) is Some
        &&& j.boolean_at("deaf"@) == Some(self.deaf)
        &&& j.boolean_at("mute"@) == Some(self.mute)
        &&& j.opt_text_at("permissions"@) == Some(opt_view(self.permissions))
    }

    pub fn decode(j: &Json) -> (r: Option<GuildMember>)
        ensures
            r matches Some(v) ==> v.reads(*j),
            r is None ==> forall|v: GuildMember| !v.reads(*j),
    {
        let user = match j.get_present("user") {
            Some(u) => match User::decode(u) {
                Some(x) => Some(x),
                None => { return None; },
            },
            None => None,
        };
        let nick = match j.read_opt_text("nick") {
            Some(v) => v,
            None => { return None; },
        };
        let roles = match j.read_items("roles") {
            Some(items) => match decode_ids(items) {
                Some(v) => v,
                None => { return None; },
            },
            None => { return None; },
        };
        if j.get("joined_at").is_none() {
            return None;
        }
        let deaf = match j.read_boolean("deaf") {
            Some(v) => v,
            None => { return None; },
        };
        let mute = match j.read_boolean("mute") {
            Some(v) => v,
            None => { return None; },
        };
        let permissions = match j.read_opt_text("permissions") {
            Some(v) => v,
            None => { return None; },
        };
        Some(GuildMember { user, nick, roles, deaf, mute, permissions })
    }

    /// The identifier of the member's user, where the record names one.
    pub fn user_id(&self) -> (r: Option<u64>)
        ensures
            r == match self.user {
                Some(u) => Some(u.id.0),
                None => None,
            },
    {
        match &self.user {
            Some(u) => Some(u.id.0),
            None => None,
        }
    }
}

/// Each item is the member at the same place of `out`.
pub open spec fn members_read(items: Seq<Json>, out: Seq<GuildMember>) -> bool {
    &&& items.len() == out.len()
    &&& forall|i: int| 0 <= i < items.len() ==> (#[trigger] out[i]).reads(items[i])
}

/// Reads an array of members.
pub fn decode_members(items: &Vec<Json>) -> (r: Option<Vec<GuildMember>>)
    ensures
        r matches Some(out) ==> members_read(items@, out@),
        r is None ==> forall|out: Seq<GuildMember>| !members_read(items@, out),
{
    let mut out: Vec<GuildMember> = Vec::new();
    let mut i: usize = 0;
    while i < items.len()
        invariant
            i <= items.len(),
            out@.len() == i,
            forall|k: int| 0 <= k < i ==> (#[trigger] out@[k]).reads(items@[k]),
        decreases items.len() - i,
    {
        match GuildMember::decode(&items[i]) {
            Some(u) => {
                out.push(u);
            },
            None => {
                assert forall|bad: Seq<GuildMember>| !members_read(items@, bad) by {
                    if members_read(items@, bad) {
                        assert(bad[i as int].reads(items@[i as int]));
                    }
                }
                return None;
            },
        }
        i = i + 1;
    }
    Some(out)
}

/// A posted message. Of the attachments, embeds, reactions and the edit time only
/// their presence and shape is checked; they are not kept.
#[derive(Debug, PartialEq, Eq)]
pub struct Message {
    pub id: Snowflake,
    pub channel_id: Snowflake,
    pub guild_id: Option<Snowflake>,
    pub author: User,
    pub member: Option<GuildMember>,
    pub content: String,
    pub timestamp_str: String,
    pub tts: bool,
    pub mention_everyone: bool,
    pub mentions: Vec<User>,
    pub mention_roles: Vec<Snowflake>,
    pub nonce: Option<Snowflake>,
    pub pinned: bool,
    pub webhook_id: Option<Snowflake>,
    pub message_type: u64,
}

impl Message {
    pub open spec fn reads(self, j: Json) -> bool {
        &&& j.id_at("id"@) == Some(self.id.0)
        &&& j.id_at("channel_id"@) == Some(self.channel_id.0)
        &&& j.opt_id_at("guild_id"@) == Some(opt_id(self.guild_id))
        &&& j.field("author"@) matches Some(a) && self.author.reads(a)
        &&& match j.present("member"@) {
            Some(m) => self.member matches Some(x) && x.reads(m),
            None => self.member is None,
        }
        &&& j.text_at("content"@) == Some(self.content@)
        &&& j.text_at("timestamp"@) == Some(self.timestamp_str@)
        &&& j.field("edited_timestamp"@) is Some
        &&& j.boolean_at("tts"@) == Some(self.tts)
        &&& j.boolean_at("mention_everyone"@) == Some(self.mention_everyone)
        &&& j.items_at("mentions"@) matches Some(items) && users_read(items, self.mentions@)
        &&& j.items_at("mention_roles"@) matches Some(items) && ids_read(items, self.mention_roles@)
        &&& j.items_at("attachments"@) is Some
        &&& j.items_at("embeds"@) is Some
        &&& j.present("reactions"@) matches Some(v) ==> v.items() is Some
        &&& j.opt_id_at("nonce"@) == Some(opt_id(self.nonce))
        &&& j.boolean_at("pinned"@) == Some(self.pinned)
        &&& j.opt_id_at("webhook_id"@) == Some(opt_id(self.webhook_id))
        &&& j.unsigned_at("type"@) == Some(self.message_type)
    }

    pub fn decode(j: &Json) -> (r: Option<Message>)
        ensures
            r matches Some(v) ==> v.reads(*j),
            r is None ==> forall|v: Message| !v.reads(*j),
    {
        let id = match j.read_id("id") {
            Some(v) => v,
            None => { return None; },
        };
        let channel_id = match j.read_id("channel_id") {
            Some(v) => v,
            None => { return None; },
        };
        let guild_id = match j.read_opt_id("guild_id") {
            Some(v) => to_opt_id(v),
            None => { return None; },
        };
        let author = match j.get("author") {
            Some(a) => match User::decode(a) {
                Some(x) => x,
                None => { return None; },
            },
            None => { return None; },
        };
        let member = match j.get_present("member") {
            Some(m) => match GuildMember::decode(m) {
                Some(x) => Some(x),
                None => { return None; },
            },
            None => None,
        };
        let content = match j.read_text("content") {
            Some(v) => v,
            None => { return None; },
        };
        let timestamp_str = match j.read_text("timestamp") {
            Some(v) => v,
            None => { return None; },
        };
        if j.get("edited_timestamp").is_none() {
            return None;
        }
        let tts = match j.read_boolean("tts") {
            Some(v) => v,
            None => { return None; },
        };
        let mention_everyone = match j.read_boolean("mention_everyone") {
            Some(v) => v,
            None => { return None; },
        };
        let mentions = match j.read_items("mentions") {
            Some(items) => match decode_users(items) {
                Some(v) => v,
                None => { return None; },
            },
            None => { return None; },
        };
        let mention_roles = match j.read_items("mention_roles") {
            Some(items) => match decode_ids(items) {
                Some(v) => v,
                None => { return None; },
            },
            None => { return None; },
        };
        if j.read_items("attachments").is_none() {
            return None;
        }
        if j.read_items("embeds").is_none() {
            return None;
        }
        match j.get_present("reactions") {
            Some(v) => {
                if v.as_items().is_none() {
                    return None;
                }
            },
            None => {},
        }
        let nonce = match j.read_opt_id("nonce") {
            Some(v) => to_opt_id(v),
            None => { return None; },
        };
        let pinned = match j.read_boolean("pinned") {
            Some(v) => v,
            None => { return None; },
        };
        let webhook_id = match j.read_opt_id("webhook_id") {
            Some(v) => to_opt_id(v),
            None => { return None; },
        };
        let message_type = match j.read_unsigned("type") {
            Some(v) => v,
            None => { return None; },
        };
        Some(
            Message {
                id: Snowflake(id),
                channel_id: Snowflake(channel_id),
                guild_id,
                author,
                member,
                content,
                timestamp_str,
                tts,
                mention_everyone,
                mentions,
                mention_roles,
                nonce,
                pinned,
                webhook_id,
                message_type,
            },
        )
    }
}

/// Whom a permission overwrite is for.
#[derive(Debug, Clone, Copy, PartialEq, Eq, Structural)]
pub enum OverwriteType {
    Role,
    Member,
    Unknown,
}

impl OverwriteType {
    /// What a wire code stands for: 0 a role, 1 a member, anything else unknown.
    pub open spec fn of_code(code: u64) -> OverwriteType {
        if code == 0 {
            OverwriteType::Role
        } else if code == 1 {
            OverwriteType::Member
        } else {
            OverwriteType::Unknown
        }
    }

    pub fn from_code(code: u64) -> (r: OverwriteType)
        ensures
            r == Self::of_code(code),
    {
        if code == 0 {
            OverwriteType::Role
        } else if code == 1 {
            OverwriteType::Member
        } else {
            OverwriteType::Unknown
        }
    }
}

/// Permissions granted to and taken from one role or member in a channel.
#[derive(Debug, PartialEq, Eq)]
pub struct Overwrite {
    pub id: Snowflake,
    pub overwrite_type: OverwriteType,
    /// The granted bits, sent as a decimal string.
    pub allow: u64,
    /// The denied bits, sent as a decimal string.
    pub deny: u64,
}

impl Overwrite {
    pub open spec fn reads(self, j: Json) -> bool {
        &&& j.id_at("id"@) == Some(self.id.0)
        &&& j.unsigned_at("type"@) matches Some(code) && code <= usize::MAX
            && self.overwrite_type == OverwriteType::of_code(code)
        &&& j.id_at("allow"@) == Some(self.allow)
        &&& j.id_at("deny"@) == Some(self.deny)
    }

    pub fn decode(j: &Json) -> (r: Option<Overwrite>)
        ensures
            r matches Some(v) ==> v.reads(*j),
            r is None ==> forall|v: Overwrite| !v.reads(*j),
    {
        let id = match j.read_id("id") {
            Some(v) => v,
            None => { return None; },
        };
        let code = match j.read_unsigned("type") {
            Some(v) => v,
            None => { return None; },
        };
        if code > usize::MAX as u64 {
            return None;
        }
        let allow = match j.read_id("allow") {
            Some(v) => v,
            None => { return None; },
        };
        let deny = match j.read_id("deny") {
            Some(v) => v,
            None => { return None; },
        };
        Some(
            Overwrite {
                id: Snowflake(id),
                overwrite_type: OverwriteType::from_code(code),
                allow,
                deny,
            },
        )
    }
}

/// Each item is the overwrite at the same place of `out`.
pub open spec fn overwrites_read(items: Seq<Json>, out: Seq<Overwrite>) -> bool {
    &&& items.len() == out.len()
    &&& forall|i: int| 0 <= i < items.len() ==> (#[trigger] out[i]).reads(items[i])
}

/// Reads an array of overwrites.
pub fn decode_overwrites(items: &Vec<Json>) -> (r: Option<Vec<Overwrite>>)
    ensures
        r matches Some(out) ==> overwrites_read(items@, out@),
        r is None ==> forall|out: Seq<Overwrite>| !overwrites_read(items@, out),
{
    let mut out: Vec<Overwrite> = Vec::new();
    let mut i: usize = 0;
    while i < items.len()
        invariant
            i <= items.len(),
            out@.len() == i,
            forall|k: int| 0 <= k < i ==> (#[trigger] out@[k]).reads(items@[k]),
        decreases items.len() - i,
    {
        match Overwrite::decode(&items[i]) {
            Some(u) => {
                out.push(u);
            },
            None => {
                assert forall|bad: Seq<Overwrite>| !overwrites_read(items@, bad) by {
                    if overwrites_read(items@, bad) {
                        assert(bad[i as int].reads(items@[i as int]));
                    }
                }
                return None;
            },
        }
        i = i + 1;
    }
    Some(out)
}

/// The overwrites of an optional array member: none where it is missing or null.
pub open spec fn opt_overwrites_read(j: Json, key: Seq<char>, out: Option<Vec<Overwrite>>) -> bool {
    match j.present(key) {
        Some(v) => v.items() matches Some(items) && out matches Some(list) && overwrites_read(
            items,
            list@,
        ),
        None => out is None,
    }
}

/// Reads an optional array of overwrites; the outer `None` says that it is malformed.
pub fn decode_opt_overwrites(j: &Json, key: &str) -> (r: Option<Option<Vec<Overwrite>>>)
    ensures
        r matches Some(out) ==> opt_overwrites_read(*j, key@, out),
        r is None ==> forall|out: Option<Vec<Overwrite>>| !opt_overwrites_read(*j, key@, out),
{
    match j.get_present(key) {
        Some(v) => match v.as_items() {
            Some(items) => match decode_overwrites(items) {
                Some(list) => Some(Some(list)),
                None => {
                    assert forall|out: Option<Vec<Overwrite>>| !opt_overwrites_read(
                        *j,
                        key@,
                        out,
                    ) by {
                        if opt_overwrites_read(*j, key@, out) {
                            assert(overwrites_read(items@, out->0@));
                        }
                    }
                    None
                },
            },
            None => None,
        },
        None => Some(None),
    }
}

/// A channel as a guild lists it.
#[derive(Debug, PartialEq, Eq)]
pub struct Channel {
    pub id: Snowflake,
    pub guild_id: Option<Snowflake>,
    pub permission_overwrites: Option<Vec<Overwrite>>,
}

impl Channel {
    pub open spec fn reads(self, j: Json) -> bool {
        &&& j.id_at("id"@) == Some(self.id.0)
        &&& j.opt_id_at("guild_id"@) == Some(opt_id(self.guild_id))
        &&& opt_overwrites_read(j, "permission_overwrites"@, self.permission_overwrites)
    }

    pub fn decode(j: &Json) -> (r: Option<Channel>)
        ensures
            r matches Some(v) ==> v.reads(*j),
            r is None ==> forall|v: Channel| !v.reads(*j),
    {
        let id = match j.read_id("id") {
            Some(v) => v,
            None => { return None; },
        };
        let guild_id = match j.read_opt_id("guild_id") {
            Some(v) => to_opt_id(v),
            None => { return None; },
        };
        let permission_overwrites = match decode_opt_overwrites(j, "permission_overwrites") {
            Some(v) => v,
            None => { return None; },
        };
        Some(Channel { id: Snowflake(id), guild_id, permission_overwrites })
    }
}

/// Each item is the channel at the same place of `out`.
pub open spec fn channels_read(items: Seq<Json>, out: Seq<Channel>) -> bool {
    &&& items.len() == out.len()
    &&& forall|i: int| 0 <= i < items.len() ==> (#[trigger] out[i]).reads(items[i])
}

/// Reads an array of channels.
pub fn decode_channels(items: &Vec<Json>) -> (r: Option<Vec<Channel>>)
    ensures
        r matches Some(out) ==> channels_read(items@, out@),
        r is None ==> forall|out: Seq<Channel>| !channels_read(items@, out),
{
    let mut out: Vec<Channel> = Vec::new();
    let mut i: usize = 0;
    while i < items.len()
        invariant
            i <= items.len(),
            out@.len() == i,
            forall|k: int| 0 <= k < i ==> (#[trigger] out@[k]).reads(items@[k]),
        decreases items.len() - i,
    {
        match Channel::decode(&items[i]) {
            Some(u) => {
                out.push(u);
            },
            None => {
                assert forall|bad: Seq<Channel>| !channels_read(items@, bad) by {
                    if channels_read(items@, bad) {
                        assert(bad[i as int].reads(items@[i as int]));
                    }
                }
                return None;
            },
        }
        i = i + 1;
    }
    Some(out)
}

/// A guild with its roles and, where the platform sends them, its channels.
#[derive(Debug, PartialEq, Eq)]
pub struct Guild {
    pub id: Snowflake,
    pub name: String,
    pub owner_id: Snowflake,
    pub roles: Vec<Role>,
    pub channels: Vec<Channel>,
}

impl Guild {
    pub open spec fn reads(self, j: Json) -> bool {
        &&& j.id_at("id"@) == Some(self.id.0)
        &&& j.text_at("name"@) == Some(self.name@)
        &&& j.id_at("owner_id"@) == Some(self.owner_id.0)
        &&& j.items_at("roles"@) matches Some(items) && roles_read(items, self.roles@)
        &&& match j.field("channels"@) {
            Some(v) => v.items() matches Some(items) && channels_read(items, self.channels@),
            None => self.channels@.len() == 0,
        }
    }

    pub fn decode(j: &Json) -> (r: Option<Guild>)
        ensures
            r matches Some(v) ==> v.reads(*j),
            r is None ==> forall|v: Guild| !v.reads(*j),
    {
        let id = match j.read_id("id") {
            Some(v) => v,
            None => { return None; },
        };
        let name = match j.read_text("name") {
            Some(v) => v,
            None => { return None; },
        };
        let owner_id = match j.read_id("owner_id") {
            Some(v) => v,
            None => { return None; },
        };
        let roles = match j.read_items("roles") {
            Some(items) => match decode_roles(items) {
                Some(v) => v,
                None => { return None; },
            },
            None => { return None; },
        };
        let channels = match j.get("channels") {
            Some(v) => match v.as_items() {
                Some(items) => match decode_channels(items) {
                    Some(list) => list,
                    None => { return None; },
                },
                None => { return None; },
            },
            None => Vec::new(),
        };
        Some(Guild { id: Snowflake(id), name, owner_id: Snowflake(owner_id), roles, channels })
    }
}

/// A guild that is known by its identifier only.
#[derive(Debug, Clone, Copy, PartialEq, Eq)]
pub struct UnavailableGuild {
    pub id: Snowflake,
}

impl UnavailableGuild {
    pub open spec fn reads(self, j: Json) -> bool {
        j.id_at("id"@) == Some(self.id.0)
    }

    pub fn decode(j: &Json) -> (r: Option<UnavailableGuild>)
        ensures
            r matches Some(v) ==> v.reads(*j),
            r is None ==> forall|v: UnavailableGuild| !v.reads(*j),
    {
        match j.read_id("id") {
            Some(v) => Some(UnavailableGuild { id: Snowflake(v) }),
            None => None,
        }
    }
}

/// A message that was deleted.
#[derive(Debug, Clone, Copy, PartialEq, Eq)]
pub struct DeletedMessage {
    pub id: Snowflake,
    pub channel_id: Snowflake,
    pub guild_id: Option<Snowflake>,
}

impl DeletedMessage {
    pub open spec fn reads(self, j: Json) -> bool {
        &&& j.id_at("id"@) == Some(self.id.0)
        &&& j.id_at("channel_id"@) == Some(self.channel_id.0)
        &&& j.opt_id_at("guild_id"@) == Some(opt_id(self.guild_id))
    }

    pub fn decode(j: &Json) -> (r: Option<DeletedMessage>)
        ensures
            r matches Some(v) ==> v.reads(*j),
            r is None ==> forall|v: DeletedMessage| !v.reads(*j),
    {
        let id = match j.read_id("id") {
            Some(v) => v,
            None => { return None; },
        };
        let channel_id = match j.read_id("channel_id") {
            Some(v) => v,
            None => { return None; },
        };
        let guild_id = match j.read_opt_id("guild_id") {
            Some(v) => to_opt_id(v),
            None => { return None; },
        };
        Some(DeletedMessage { id: Snowflake(id), channel_id: Snowflake(channel_id), guild_id })
    }
}

/// A role that a guild has gained.
#[derive(Debug, PartialEq, Eq)]
pub struct CreatedRole {
    pub guild_id: Snowflake,
    pub role: Role,
}

impl CreatedRole {
    pub open spec fn reads(self, j: Json) -> bool {
        &&& j.id_at("guild_id"@) == Some(self.guild_id.0)
        &&& j.field("role"@) matches Some(r) && self.role.reads(r)
    }

    pub fn decode(j: &Json) -> (r: Option<CreatedRole>)
        ensures
            r matches Some(v) ==> v.reads(*j),
            r is None ==> forall|v: CreatedRole| !v.reads(*j),
    {
        let guild_id = match j.read_id("guild_id") {
            Some(v) => v,
            None => { return None; },
        };
        let role = match j.get("role") {
            Some(v) => match Role::decode(v) {
                Some(x) => x,
                None => { return None; },
            },
            None => { return None; },
        };
        Some(CreatedRole { guild_id: Snowflake(guild_id), role })
    }
}

/// A role that a guild has lost.
#[derive(Debug, Clone, Copy, PartialEq, Eq)]
pub struct DeletedRole {
    pub guild_id: Snowflake,
    pub role_id: Snowflake,
}

impl DeletedRole {
    pub open spec fn reads(self, j: Json) -> bool {
        &&& j.id_at("guild_id"@) == Some(self.guild_id.0)
        &&& j.id_at("role_id"@) == Some(self.role_id.0)
    }

    pub fn decode(j: &Json) -> (r: Option<DeletedRole>)
        ensures
            r matches Some(v) ==> v.reads(*j),
            r is None ==> forall|v: DeletedRole| !v.reads(*j),
    {
        let guild_id = match j.read_id("guild_id") {
            Some(v) => v,
            None => { return None; },
        };
        let role_id = match j.read_id("role_id") {
            Some(v) => v,
            None => { return None; },
        };
        Some(DeletedRole { guild_id: Snowflake(guild_id), role_id: Snowflake(role_id) })
    }
}

} // verus!
