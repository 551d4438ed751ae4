//! The REST operations on channels, guild members, roles and reactions: the
//! request that each one sends and how its answer is read.
//!
//! Every request goes through the shared retry loop of
//! [`crate::send_message::Executor`]; here is only what differs between them.

use vstd::prelude::*;
use vstd::string::*;
use crate::decimal::{decimal, push_decimal};
use crate::discord::{
    decode_members, decode_opt_overwrites, decode_users, members_read, opt_id,
    opt_overwrites_read, opt_view, to_opt_id, users_read, GuildMember, Overwrite, Snowflake, User,
};
use crate::json::Json;
use crate::send_message::Error;

verus! {

/// The method of a request.
#[derive(Debug, Clone, Copy, PartialEq, Eq, Structural)]
pub enum Method {
    Get,
    Put,
    Delete,
}

/// A request without a body. Besides the authorization it carries the headers
/// `Content-Type: application/json` and `Content-Length: 0`.
#[derive(Debug, PartialEq, Eq)]
pub struct Request {
    pub method: Method,
    pub url: String,
    pub authorization: String,
}

impl Request {
    /// The request has this method, address and authorization.
    pub open spec fn is(self, method: Method, url: Seq<char>, authorization: Seq<char>) -> bool {
        self.method == method && self.url@ == url && self.authorization@ == authorization
    }
}

/// The character of one hexadecimal digit, in upper case.
pub open spec fn hex_upper(d: nat) -> char
    recommends
        d < 16,
{
    if d < 10 {
        crate::decimal::digit_char(d)
    } else if d == 10 {
        'A'
    } else if d == 11 {
        'B'
    } else if d == 12 {
        'C'
    } else if d == 13 {
        'D'
    } else if d == 14 {
        'E'
    } else {
        'F'
    }
}

/// The byte is an ASCII letter or digit.
pub open spec fn is_alphanumeric(b: u8) -> bool {
    (0x30 <= b <= 0x39) || (0x41 <= b <= 0x5A) || (0x61 <= b <= 0x7A)
}

/// A byte in a percent-encoded text: itself where it is an ASCII letter or digit,
/// else a percent sign and its two hexadecimal digits.
pub open spec fn percent_byte(b: u8) -> Seq<char> {
    if is_alphanumeric(b) {
        seq![b as char]
    } else {
        seq!['%', hex_upper((b / 16) as nat), hex_upper((b % 16) as nat)]
    }
}

/// Bytes, percent-encoded one by one.
pub open spec fn percent_encoded(bytes: Seq<u8>) -> Seq<char>
    decreases bytes.len(),
{
    if bytes.len() == 0 {
        Seq::empty()
    } else {
        percent_byte(bytes[0]) + percent_encoded(bytes.drop_first())
    }
}

/// Calls `percent_encoding::percent_encode` on the bytes of a text with the set
/// `NON_ALPHANUMERIC` and collects the pieces. The contract claims what the crate
/// documents: every byte that is no ASCII letter or digit comes out as a percent
/// sign and two upper-case hexadecimal digits, every other byte as it is.
#[verifier::external_body]
fn percent_encode_text(input: &str) -> (r: String)
    ensures
        r@ == percent_encoded(input.spec_bytes()),
{
    percent_encoding::percent_encode(input.as_bytes(), percent_encoding::NON_ALPHANUMERIC).collect()
}

/// The address of our own reaction with `emoji` to a message.
pub open spec fn reaction_url(base_url: Seq<char>, channel: Snowflake, msg: Snowflake, emoji: &str) -> Seq<
    char,
> {
    base_url + "/channels/"@ + decimal(channel.0 as nat) + "/messages/"@ + decimal(msg.0 as nat)
        + "/reactions/"@ + percent_encoded(emoji.spec_bytes()) + "/@me"@
}

/// The request that puts our reaction on a message.
pub fn set_reaction(channel: Snowflake, msg: Snowflake, emoji: &str, base_url: &str, auth: &str) -> (r:
    Request)
    ensures
        r.is(Method::Put, reaction_url(base_url@, channel, msg, emoji), auth@),
{
    let encoded = percent_encode_text(emoji);
    let mut url = String::from_str(base_url);
    url.append("/channels/");
    push_decimal(&mut url, channel.0);
    url.append("/messages/");
    push_decimal(&mut url, msg.0);
    url.append("/reactions/");
    url.append(encoded.as_str());
    url.append("/@me");
    Request { method: Method::Put, url, authorization: String::from_str(auth) }
}

/// The address of one role of one member of a guild.
pub open spec fn member_role_url(
    base_url: Seq<char>,
    guild_id: Snowflake,
    user_id: Snowflake,
    role_id: Snowflake,
) -> Seq<char> {
    base_url + "/guilds/"@ + decimal(guild_id.0 as nat) + "/members/"@ + decimal(user_id.0 as nat)
        + "/roles/"@ + decimal(role_id.0 as nat)
}

fn member_role_address(base_url: &str, guild_id: Snowflake, user_id: Snowflake, role_id: Snowflake) -> (r:
    String)
    ensures
        r@ == member_role_url(base_url@, guild_id, user_id, role_id),
{
    let mut url = String::from_str(base_url);
    url.append("/guilds/");
    push_decimal(&mut url, guild_id.0);
    url.append("/members/");
    push_decimal(&mut url, user_id.0);
    url.append("/roles/");
    push_decimal(&mut url, role_id.0);
    url
}

/// The request that grants a role to a member.
pub fn add_member_role(
    guild_id: Snowflake,
    user_id: Snowflake,
    role_id: Snowflake,
    base_url: &str,
    auth: &str,
) -> (r: Request)
    ensures
        r.is(Method::Put, member_role_url(base_url@, guild_id, user_id, role_id), auth@),
{
    Request {
        method: Method::Put,
        url: member_role_address(base_url, guild_id, user_id, role_id),
        authorization: String::from_str(auth),
    }
}

/// The request that takes a role from a member.
pub fn remove_member_role(
    guild_id: Snowflake,
    user_id: Snowflake,
    role_id: Snowflake,
    base_url: &str,
    auth: &str,
) -> (r: Request)
    ensures
        r.is(Method::Delete, member_role_url(base_url@, guild_id, user_id, role_id), auth@),
{
    Request {
        method: Method::Delete,
        url: member_role_address(base_url, guild_id, user_id, role_id),
        authorization: String::from_str(auth),
    }
}

/// The most members that one page of a guild's member list holds.
pub const LIMIT: usize = 1000;

/// The address of one page of a guild's members: the first page, or the page after
/// the member `after`.
pub open spec fn members_url(base_url: Seq<char>, server: Snowflake, after: Option<Snowflake>) -> Seq<
    char,
> {
    let first = base_url + "/guilds/"@ + decimal(server.0 as nat) + "/members?limit="@ + decimal(
        LIMIT as nat,
    );
    match after {
        Some(id) => first + "&after="@ + decimal(id.0 as nat),
        None => first,
    }
}

/// The request for one page of a guild's members.
pub fn get_members_inner(server: Snowflake, after: Option<Snowflake>, base_url: &str, auth: &str) -> (r:
    Request)
    ensures
        r.is(Method::Get, members_url(base_url@, server, after), auth@),
{
    let mut url = String::from_str(base_url);
    url.append("/guilds/");
    push_decimal(&mut url, server.0);
    url.append("/members?limit=");
    push_decimal(&mut url, LIMIT as u64);
    match after {
        Some(id) => {
            url.append("&after=");
            push_decimal(&mut url, id.0);
        },
        None => {},
    }
    Request { method: Method::Get, url, authorization: String::from_str(auth) }
}

/// Reads the body of a page of members; `json` is what the body parsed to.
pub fn members_from_json(json: Option<Json>) -> (r: Result<Vec<GuildMember>, Error>)
    ensures
        match r {
            Ok(list) => json matches Some(j) && j.items() matches Some(items) && members_read(
                items,
                list@,
            ),
            Err(e) => {
                &&& e matches Error::Other(m) && m@ == "Malformed get members"@
                &&& json matches Some(j) ==> (j.items() matches Some(items) ==> forall|
                    list: Seq<GuildMember>,
                | !members_read(items, list))
            },
        },
{
    let decoded = match &json {
        Some(j) => match j.as_items() {
            Some(items) => decode_members(items),
            None => None,
        },
        None => None,
    };
    match decoded {
        Some(list) => Ok(list),
        None => Err(Error::Other(String::from_str("Malformed get members"))),
    }
}

/// The largest user identifier among the members that name their user.
pub open spec fn max_user_id(page: Seq<GuildMember>) -> Option<u64>
    decreases page.len(),
{
    if page.len() == 0 {
        None
    } else {
        let before = max_user_id(page.drop_last());
        match page.last().user {
            Some(u) => match before {
                Some(m) => if m >= u.id.0 {
                    Some(m)
                } else {
                    Some(u.id.0)
                },
                None => Some(u.id.0),
            },
            None => before,
        }
    }
}

/// The walk through the pages of a guild's member list.
#[derive(Debug, PartialEq, Eq)]
pub struct MemberPages {
    /// The members of the pages read so far, in the order of their arrival.
    pub users: Vec<GuildMember>,
    /// The member after whom the next page begins.
    pub last: Option<Snowflake>,
    /// The last page is read.
    pub done: bool,
}

impl MemberPages {
    pub fn new() -> (r: MemberPages)
        ensures
            r.users@.len() == 0,
            r.last is None,
            !r.done,
    {
        MemberPages { users: Vec::new(), last: None, done: false }
    }

    /// The request for the page that comes next.
    pub fn get_members(&self, server: Snowflake, base_url: &str, auth: &str) -> (r: Request)
        ensures
            r.is(Method::Get, members_url(base_url@, server, self.last), auth@),
    {
        get_members_inner(server, self.last, base_url, auth)
    }

    /// Takes one page in. Its members follow those read before; a page that names a
    /// user moves the start of the next page behind the largest identifier in it; a
    /// page shorter than [`LIMIT`] is the last.
    pub fn absorb(&mut self, page: Vec<GuildMember>)
        ensures
            final(self).users@ == old(self).users@ + page@,
            final(self).done == (page@.len() < LIMIT),
            final(self).last == match max_user_id(page@) {
                Some(m) => Some(Snowflake(m)),
                None => old(self).last,
            },
    {
        let mut page = page;
        let mut best: Option<u64> = None;
        let mut i: usize = 0;
        assert(page@.take(0) =~= Seq::<GuildMember>::empty());
        while i < page.len()
            invariant
                i <= page.len(),
                best == max_user_id(page@.take(i as int)),
            decreases page.len() - i,
        {
            proof {
                assert(page@.take(i + 1).drop_last() =~= page@.take(i as int));
                assert(page@.take(i + 1).last() == page@[i as int]);
            }
            match page[i].user_id() {
                Some(id) => {
                    best = match best {
                        Some(m) => if m >= id {
                            Some(m)
                        } else {
                            Some(id)
                        },
                        None => Some(id),
                    };
                },
                None => {},
            }
            i = i + 1;
        }
        assert(page@.take(page.len() as int) =~= page@);
        self.done = page.len() < LIMIT;
        match best {
            Some(m) => {
                self.last = Some(Snowflake(m));
            },
            None => {},
        }
        self.users.append(&mut page);
    }
}

/// The kinds of channel, by their wire codes; a code that is not listed is `Unknown`.
#[derive(Debug, Clone, Copy, PartialEq, Eq, Structural)]
pub enum ChannelType {
    GuildText,
    Dm,
    GuildVoice,
    GroupDm,
    GuildCatagory,
    GuildNews,
    GuildStore,
    AnnouncementThread,
    PublicThread,
    PrivateThread,
    GuildStageVoice,
    GuildDirectory,
    GuildForum,
    GuildMedia,
    Unknown,
}

impl ChannelType {
    /// The kind that a wire code stands for.
    pub open spec fn of_code(code: u8) -> ChannelType {
        if code == 0 {
            ChannelType::GuildText
        } else if code == 1 {
            ChannelType::Dm
        } else if code == 2 {
            ChannelType::GuildVoice
        } else if code == 3 {
            ChannelType::GroupDm
        } else if code == 4 {
            ChannelType::GuildCatagory
        } else if code == 5 {
            ChannelType::GuildNews
        } else if code == 6 {
            ChannelType::GuildStore
        } else if code == 10 {
            ChannelType::AnnouncementThread
        } else if code == 11 {
            ChannelType::PublicThread
        } else if code == 12 {
            ChannelType::PrivateThread
        } else if code == 13 {
            ChannelType::GuildStageVoice
        } else if code == 14 {
            ChannelType::GuildDirectory
        } else if code == 15 {
            ChannelType::GuildForum
        } else if code == 16 {
            ChannelType::GuildMedia
        } else {
            ChannelType::Unknown
        }
    }

    pub fn from_code(code: u8) -> (r: ChannelType)
        ensures
            r == Self::of_code(code),
    {
        if code == 0 {
            ChannelType::GuildText
        } else if code == 1 {
            ChannelType::Dm
        } else if code == 2 {
            ChannelType::GuildVoice
        } else if code == 3 {
            ChannelType::GroupDm
        } else if code == 4 {
            ChannelType::GuildCatagory
        } else if code == 5 {
            ChannelType::GuildNews
        } else if code == 6 {
            ChannelType::GuildStore
        } else if code == 10 {
            ChannelType::AnnouncementThread
        } else if code == 11 {
            ChannelType::PublicThread
        } else if code == 12 {
            ChannelType::PrivateThread
        } else if code == 13 {
            ChannelType::GuildStageVoice
        } else if code == 14 {
            ChannelType::GuildDirectory
        } else if code == 15 {
            ChannelType::GuildForum
        } else if code == 16 {
            ChannelType::GuildMedia
        } else {
            ChannelType::Unknown
        }
    }

    /// The wire code of a kind; 255 for `Unknown`.
    pub fn code(&self) -> (r: u8)
        ensures
            *self != ChannelType::Unknown ==> Self::of_code(r) == *self,
            *self == ChannelType::Unknown ==> r == 255,
    {
        match self {
            ChannelType::GuildText => 0,
            ChannelType::Dm => 1,
            ChannelType::GuildVoice => 2,
            ChannelType::GroupDm => 3,
            ChannelType::GuildCatagory => 4,
            ChannelType::GuildNews => 5,
            ChannelType::GuildStore => 6,
            ChannelType::AnnouncementThread => 10,
            ChannelType::PublicThread => 11,
            ChannelType::PrivateThread => 12,
            ChannelType::GuildStageVoice => 13,
            ChannelType::GuildDirectory => 14,
            ChannelType::GuildForum => 15,
            ChannelType::GuildMedia => 16,
            ChannelType::Unknown => 255,
        }
    }
}

/// A member that may be missing, may be null, or may hold a text: `out` is `None`
/// for the first, `Some(None)` for the second, and the text for the third.
pub open spec fn double_text_read(j: Json, key: Seq<char>, out: Option<Option<String>>) -> bool {
    match j.field(key) {
        None => out is None,
        Some(Json::Null) => out == Some(None::<String>),
        Some(v) => v.text() matches Some(t) && out matches Some(Some(s)) && s@ == t,
    }
}

/// As [`double_text_read`], for an identifier.
pub open spec fn double_id_read(j: Json, key: Seq<char>, out: Option<Option<Snowflake>>) -> bool {
    match j.field(key) {
        None => out is None,
        Some(Json::Null) => out == Some(None::<Snowflake>),
        Some(v) => v.id() matches Some(n) && out == Some(Some(Snowflake(n))),
    }
}

/// Reads a member that may be missing or null; the outermost `None` says that it is
/// there and no text.
pub fn read_double_text(j: &Json, key: &str) -> (r: Option<Option<Option<String>>>)
    ensures
        r matches Some(out) ==> double_text_read(*j, key@, out),
        r is None ==> forall|out: Option<Option<String>>| !double_text_read(*j, key@, out),
{
    match j.get(key) {
        None => Some(None),
        Some(Json::Null) => Some(Some(None)),
        Some(v) => match v.as_text() {
            Some(t) => Some(Some(Some(t.to_owned()))),
            None => None,
        },
    }
}

/// Reads an identifier that may be missing or null; the outermost `None` says that
/// it is there and no identifier.
pub fn read_double_id(j: &Json, key: &str) -> (r: Option<Option<Option<Snowflake>>>)
    ensures
        r matches Some(out) ==> double_id_read(*j, key@, out),
        r is None ==> forall|out: Option<Option<Snowflake>>| !double_id_read(*j, key@, out),
{
    match j.get(key) {
        None => Some(None),
        Some(Json::Null) => Some(Some(None)),
        Some(v) => match v.as_id() {
            Some(n) => Some(Some(Some(Snowflake(n)))),
            None => None,
        },
    }
}

/// The users of an optional array member: none where it is missing or null.
pub open spec fn opt_users_read(j: Json, key: Seq<char>, out: Option<Vec<User>>) -> bool {
    match j.present(key) {
        Some(v) => v.items() matches Some(items) && out matches Some(list) && users_read(
            items,
            list@,
        ),
        None => out is None,
    }
}

/// Reads an optional array of users; the outer `None` says that it is malformed.
pub fn decode_opt_users(j: &Json, key: &str) -> (r: Option<Option<Vec<User>>>)
    ensures
        r matches Some(out) ==> opt_users_read(*j, key@, out),
        r is None ==> forall|out: Option<Vec<User>>| !opt_users_read(*j, key@, out),
{
    match j.get_present(key) {
        Some(v) => match v.as_items() {
            Some(items) => match decode_users(items) {
                Some(list) => Some(Some(list)),
                None => {
                    assert forall|out: Option<Vec<User>>| !opt_users_read(*j, key@, out) by {
                        if opt_users_read(*j, key@, out) {
                            assert(users_read(items@, out->0@));
                        }
                    }
                    None
                },
            },
            None => None,
        },
        None => Some(None),
    }
}

/// A channel as the platform describes it on request.
#[derive(Debug, PartialEq, Eq)]
pub struct Channel {
    pub id: Snowflake,
    pub kind: ChannelType,
    pub guild_id: Option<Snowflake>,
    pub position: Option<i64>,
    pub permission_overwrites: Option<Vec<Overwrite>>,
    pub name: Option<String>,
    pub topic: Option<Option<String>>,
    pub nsfw: Option<bool>,
    pub last_message_id: Option<Option<Snowflake>>,
    pub bitrate: Option<i64>,
    pub user_limit: Option<i64>,
    pub rate_limit_per_user: Option<i64>,
    pub recipients: Option<Vec<User>>,
    pub icon: Option<Option<String>>,
    pub owner_id: Option<Snowflake>,
    pub application_id: Option<Snowflake>,
    pub parent_id: Option<Option<Snowflake>>,
}

impl Channel {
    pub open spec fn reads(self, j: Json) -> bool {
        &&& j.id_at("id"@) == Some(self.id.0)
        &&& j.unsigned_at("type"@) matches Some(code) && code <= 255 && self.kind
            == ChannelType::of_code(code as u8)
        &&& j.opt_id_at("guild_id"@) == Some(opt_id(self.guild_id))
        &&& j.opt_signed_at("position"@) == Some(self.position)
        &&& opt_overwrites_read(j, "permission_overwrites"@, self.permission_overwrites)
        &&& j.opt_text_at("name"@) == Some(opt_view(self.name))
        &&& double_text_read(j, "topic"@, self.topic)
        &&& j.opt_boolean_at("nsfw"@) == Some(self.nsfw)
        &&& double_id_read(j, "last_message_id"@, self.last_message_id)
        &&& j.opt_signed_at("bitrate"@) == Some(self.bitrate)
        &&& j.opt_signed_at("user_limit"@) == Some(self.user_limit)
        &&& j.opt_signed_at("rate_limit_per_user"@) == Some(self.rate_limit_per_user)
        &&& opt_users_read(j, "recipients"@, self.recipients)
        &&& double_text_read(j, "icon"@, self.icon)
        &&& j.opt_id_at("owner_id"@) == Some(opt_id(self.owner_id))
        &&& j.opt_id_at("application_id"@) == Some(opt_id(self.application_id))
        &&& double_id_read(j, "parent_id"@, self.parent_id)
    }

    pub fn decode(j: &Json) -> (r: Option<Channel>)
        ensures
            r matches Some(v) ==> v.reads(*j),
            r is None ==> forall|v: Channel| !v.reads(*j),
    {
        let id = match j.read_id("id") {
            Some(v) => v,
            None => { return None; },
        };
        let code = match j.read_unsigned("type") {
            Some(v) => v,
            None => { return None; },
        };
        if code > 255 {
            return None;
        }
        let guild_id = match j.read_opt_id("guild_id") {
            Some(v) => to_opt_id(v),
            None => { return None; },
        };
        let position = match j.read_opt_signed("position") {
            Some(v) => v,
            None => { return None; },
        };
        let permission_overwrites = match decode_opt_overwrites(j, "permission_overwrites") {
            Some(v) => v,
            None => { return None; },
        };
        let name = match j.read_opt_text("name") {
            Some(v) => v,
            None => { return None; },
        };
        let topic = match read_double_text(j, "topic") {
            Some(v) => v,
            None => { return None; },
        };
        let nsfw = match j.read_opt_boolean("nsfw") {
            Some(v) => v,
            None => { return None; },
        };
        let last_message_id = match read_double_id(j, "last_message_id") {
            Some(v) => v,
            None => { return None; },
        };
        let bitrate = match j.read_opt_signed("bitrate") {
            Some(v) => v,
            None => { return None; },
        };
        let user_limit = match j.read_opt_signed("user_limit") {
            Some(v) => v,
            None => { return None; },
        };
        let rate_limit_per_user = match j.read_opt_signed("rate_limit_per_user") {
            Some(v) => v,
            None => { return None; },
        };
        let recipients = match decode_opt_users(j, "recipients") {
            Some(v) => v,
            None => { return None; },
        };
        let icon = match read_double_text(j, "icon") {
            Some(v) => v,
            None => { return None; },
        };
        let owner_id = match j.read_opt_id("owner_id") {
            Some(v) => to_opt_id(v),
            None => { return None; },
        };
        let application_id = match j.read_opt_id("application_id") {
            Some(v) => to_opt_id(v),
            None => { return None; },
        };
        let parent_id = match read_double_id(j, "parent_id") {
            Some(v) => v,
            None => { return None; },
        };
        Some(
            Channel {
                id: Snowflake(id),
                kind: ChannelType::from_code(code as u8),
                guild_id,
                position,
                permission_overwrites,
                name,
                topic,
                nsfw,
                last_message_id,
                bitrate,
                user_limit,
                rate_limit_per_user,
                recipients,
                icon,
                owner_id,
                application_id,
                parent_id,
            },
        )
    }

    /// Reads the body of the answer to [`get_channel`]; `json` is what it parsed to.
    pub fn from_json(json: Option<Json>) -> (r: Result<Channel, Error>)
        ensures
            match r {
                Ok(c) => json matches Some(j) && c.reads(j),
                Err(e) => {
                    &&& e matches Error::Other(m) && m@ == "Malformed get channel"@
                    &&& json matches Some(j) ==> forall|c: Channel| !c.reads(j)
                },
            },
    {
        let decoded = match &json {
            Some(j) => Channel::decode(j),
            None => None,
        };
        match decoded {
            Some(c) => Ok(c),
            None => Err(Error::Other(String::from_str("Malformed get channel"))),
        }
    }
}

/// The address of a channel.
pub open spec fn channel_url(base_url: Seq<char>, channel: Snowflake) -> Seq<char> {
    base_url + "/channels/"@ + decimal(channel.0 as nat)
}

/// The request that fetches a channel.
pub fn get_channel(channel: Snowflake, base_url: &str, auth: &str) -> (r: Request)
    ensures
        r.is(Method::Get, channel_url(base_url@, channel), auth@),
{
    let mut url = String::from_str(base_url);
    url.append("/channels/");
    push_decimal(&mut url, channel.0);
    Request { method: Method::Get, url, authorization: String::from_str(auth) }
}

} // verus!
