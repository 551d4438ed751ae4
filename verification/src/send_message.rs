//! Messages to post: how one is built, what is posted for it, and how the answer
//! to a REST request is judged.
//!
//! Nothing here sends a request. [`send`] says what to post; the caller posts each
//! body and gives every answer to an [`Executor`], which says whether to return,
//! to wait and try again, or to fail.

use vstd::prelude::*;
use vstd::string::*;
use std::borrow::Cow;
use crate::decimal::{decimal, push_decimal};
use crate::discord::Snowflake;
use crate::gateway::bot_authorization;
use crate::json::{json_of_text, quote, quoted, Json, JsonNumber};
pub use crate::split::split_msg;
use crate::split::{split, views};

verus! {

/// An owned copy of a text that may be borrowed.
pub fn own_cow(cow: Cow<'_, str>) -> (r: Cow<'static, str>)
    ensures
        r@ == cow@,
        r is Owned,
{
    match cow {
        Cow::Borrowed(b) => Cow::Owned(b.to_owned()),
        Cow::Owned(o) => Cow::Owned(o),
    }
}

/// The characters of an optional text.
pub open spec fn text_of(t: Option<Cow<'_, str>>) -> Option<Seq<char>> {
    match t {
        Some(c) => Some(c@),
        None => None,
    }
}

fn own_opt(t: Option<Cow<'_, str>>) -> (r: Option<Cow<'static, str>>)
    ensures
        text_of(r) == text_of(t),
{
    match t {
        Some(c) => Some(own_cow(c)),
        None => None,
    }
}

fn copy_opt<'a>(t: &'a Option<Cow<'a, str>>) -> (r: Option<Cow<'a, str>>)
    ensures
        text_of(r) == text_of(*t),
{
    match t {
        Some(c) => {
            let s: &'a str = match c {
                Cow::Borrowed(b) => b,
                Cow::Owned(o) => o.as_str(),
            };
            Some(Cow::Borrowed(s))
        },
        None => None,
    }
}

/// A box with a title and a description, shown under a message.
#[derive(Debug, PartialEq, Eq)]
pub struct Embed<'a> {
    pub title: Option<Cow<'a, str>>,
    pub description: Option<Cow<'a, str>>,
}

/// What an embed holds.
pub struct EmbedView {
    pub title: Option<Seq<char>>,
    pub description: Option<Seq<char>>,
}

impl<'a> View for Embed<'a> {
    type V = EmbedView;

    open spec fn view(&self) -> EmbedView {
        EmbedView { title: text_of(self.title), description: text_of(self.description) }
    }
}

impl<'a> Embed<'a> {
    pub fn into_owned(self) -> (r: Embed<'static>)
        ensures
            r@ == self@,
    {
        Embed { title: own_opt(self.title), description: own_opt(self.description) }
    }
}

/// A kind of mention that a message may raise.
#[derive(Debug, Clone, Copy, PartialEq, Eq, Structural)]
pub enum MentionTypes {
    Users,
    Roles,
    Everyone,
}

/// Which mentions in a message may notify anyone.
#[derive(Debug, PartialEq, Eq)]
pub struct AllowedMentions {
    pub parse: Vec<MentionTypes>,
    pub users: Option<Vec<Snowflake>>,
    pub roles: Option<Vec<Snowflake>>,
}

/// What the rules for mentions hold.
pub struct MentionsView {
    pub parse: Seq<MentionTypes>,
    pub users: Option<Seq<Snowflake>>,
    pub roles: Option<Seq<Snowflake>>,
}

/// The identifiers of an optional list.
pub open spec fn ids_of(list: Option<Vec<Snowflake>>) -> Option<Seq<Snowflake>> {
    match list {
        Some(v) => Some(v@),
        None => None,
    }
}

impl View for AllowedMentions {
    type V = MentionsView;

    open spec fn view(&self) -> MentionsView {
        MentionsView { parse: self.parse@, users: ids_of(self.users), roles: ids_of(self.roles) }
    }
}

fn copy_ids(list: &Option<Vec<Snowflake>>) -> (r: Option<Vec<Snowflake>>)
    ensures
        ids_of(r) == ids_of(*list),
{
    match list {
        Some(v) => {
            let mut out: Vec<Snowflake> = Vec::new();
            let mut i: usize = 0;
            while i < v.len()
                invariant
                    i <= v.len(),
                    out@ == v@.take(i as int),
                decreases v.len() - i,
            {
                out.push(v[i]);
                assert(v@.take(i as int).push(v@[i as int]) =~= v@.take(i + 1));
                i = i + 1;
            }
            assert(v@.take(v.len() as int) =~= v@);
            Some(out)
        },
        None => None,
    }
}

impl AllowedMentions {
    /// A copy with the same items.
    pub fn duplicate(&self) -> (r: AllowedMentions)
        ensures
            r@ == self@,
    {
        let mut parse: Vec<MentionTypes> = Vec::new();
        let mut i: usize = 0;
        while i < self.parse.len()
            invariant
                i <= self.parse.len(),
                parse@ == self.parse@.take(i as int),
            decreases self.parse.len() - i,
        {
            parse.push(self.parse[i]);
            assert(self.parse@.take(i as int).push(self.parse@[i as int]) =~= self.parse@.take(
                i + 1,
            ));
            i = i + 1;
        }
        assert(self.parse@.take(self.parse.len() as int) =~= self.parse@);
        AllowedMentions { parse, users: copy_ids(&self.users), roles: copy_ids(&self.roles) }
    }
}

/// What an optional embed holds.
pub open spec fn embed_of(e: Option<Embed<'_>>) -> Option<EmbedView> {
    match e {
        Some(x) => Some(x@),
        None => None,
    }
}

/// What optional rules for mentions hold.
pub open spec fn mentions_of(m: Option<AllowedMentions>) -> Option<MentionsView> {
    match m {
        Some(x) => Some(x@),
        None => None,
    }
}

fn copy_mentions(m: &Option<AllowedMentions>) -> (r: Option<AllowedMentions>)
    ensures
        mentions_of(r) == mentions_of(*m),
{
    match m {
        Some(x) => Some(x.duplicate()),
        None => None,
    }
}

/// A message to post: a text, an embed, or both, and the rules for its mentions.
#[derive(Debug, PartialEq, Eq)]
pub struct NewMessage<'a> {
    pub content: Option<Cow<'a, str>>,
    pub embed: Option<Embed<'a>>,
    pub allowed_mentions: Option<AllowedMentions>,
}

/// What a message holds.
pub struct NewMessageView {
    pub content: Option<Seq<char>>,
    pub embed: Option<EmbedView>,
    pub allowed_mentions: Option<MentionsView>,
}

impl<'a> View for NewMessage<'a> {
    type V = NewMessageView;

    open spec fn view(&self) -> NewMessageView {
        NewMessageView {
            content: text_of(self.content),
            embed: embed_of(self.embed),
            allowed_mentions: mentions_of(self.allowed_mentions),
        }
    }
}

impl<'a> NewMessage<'a> {
    /// A message with a text and nothing else.
    pub fn new(msg: String) -> (r: Self)
        ensures
            r@ == (NewMessageView { content: Some(msg@), embed: None, allowed_mentions: None }),
    {
        NewMessage { content: Some(Cow::Owned(msg)), embed: None, allowed_mentions: None }
    }

    /// Lets no mention in the message notify anyone.
    pub fn suppress_mentions(&mut self)
        ensures
            final(self)@ == (NewMessageView {
                allowed_mentions: Some(
                    MentionsView { parse: Seq::empty(), users: None, roles: None },
                ),
                ..old(self)@
            }),
    {
        self.allowed_mentions = Some(AllowedMentions { parse: Vec::new(), users: None, roles: None });
    }

    /// A message that is an embed with a description and, if given, a title.
    pub fn embed_desc(title: Option<Cow<'a, str>>, msg: Cow<'a, str>) -> (r: Self)
        ensures
            r@ == (NewMessageView {
                content: None,
                embed: Some(EmbedView { title: text_of(title), description: Some(msg@) }),
                allowed_mentions: None,
            }),
    {
        NewMessage {
            content: None,
            embed: Some(Embed { title, description: Some(msg) }),
            allowed_mentions: None,
        }
    }

    /// A message that is an embed with a description only.
    pub fn embed_temp(msg: String) -> (r: Self)
        ensures
            r@ == (NewMessageView {
                content: None,
                embed: Some(EmbedView { title: None, description: Some(msg@) }),
                allowed_mentions: None,
            }),
    {
        NewMessage {
            content: None,
            embed: Some(Embed { title: None, description: Some(Cow::Owned(msg)) }),
            allowed_mentions: None,
        }
    }

    /// The same message, borrowing nothing.
    pub fn into_owned(self) -> (r: NewMessage<'static>)
        ensures
            r@ == self@,
    {
        let embed = match self.embed {
            Some(e) => Some(e.into_owned()),
            None => None,
        };
        NewMessage {
            content: own_opt(self.content),
            embed,
            allowed_mentions: self.allowed_mentions,
        }
    }

    /// A copy that borrows the texts of this message.
    pub fn borrowed(&'a self) -> (r: NewMessage<'a>)
        ensures
            r@ == self@,
    {
        let embed = match &self.embed {
            Some(e) => Some(Embed { title: copy_opt(&e.title), description: copy_opt(&e.description) }),
            None => None,
        };
        NewMessage {
            content: copy_opt(&self.content),
            embed,
            allowed_mentions: copy_mentions(&self.allowed_mentions),
        }
    }
}

impl From<String> for NewMessage<'static> {
    fn from(x: String) -> (r: NewMessage<'static>) {
        NewMessage { content: Some(Cow::Owned(x)), embed: None, allowed_mentions: None }
    }
}

impl vstd::std_specs::convert::FromSpecImpl<String> for NewMessage<'static> {
    open spec fn obeys_from_spec() -> bool {
        true
    }

    open spec fn from_spec(x: String) -> NewMessage<'static> {
        NewMessage { content: Some(Cow::Owned(x)), embed: None, allowed_mentions: None }
    }
}

impl<'a> From<&'a str> for NewMessage<'a> {
    fn from(x: &'a str) -> (r: NewMessage<'a>) {
        NewMessage { content: Some(Cow::Borrowed(x)), embed: None, allowed_mentions: None }
    }
}

impl<'a> vstd::std_specs::convert::FromSpecImpl<&'a str> for NewMessage<'a> {
    open spec fn obeys_from_spec() -> bool {
        true
    }

    open spec fn from_spec(x: &'a str) -> NewMessage<'a> {
        NewMessage { content: Some(Cow::Borrowed(x)), embed: None, allowed_mentions: None }
    }
}

/// Texts with a comma between each two.
pub open spec fn comma_joined(items: Seq<Seq<char>>) -> Seq<char>
    decreases items.len(),
{
    if items.len() == 0 {
        Seq::empty()
    } else if items.len() == 1 {
        items[0]
    } else {
        comma_joined(items.drop_last()) + seq![','] + items.last()
    }
}

/// A JSON array of items that are JSON texts already.
pub open spec fn listed(items: Seq<Seq<char>>) -> Seq<char> {
    seq!['['] + comma_joined(items) + seq![']']
}

/// An optional text as JSON: a string, or null.
pub open spec fn opt_quoted(t: Option<Seq<char>>) -> Seq<char> {
    match t {
        Some(s) => quoted(s),
        None => "null"@,
    }
}

/// A kind of mention as JSON.
pub open spec fn mention_json(m: MentionTypes) -> Seq<char> {
    match m {
        MentionTypes::Users => "\"users\""@,
        MentionTypes::Roles => "\"roles\""@,
        MentionTypes::Everyone => "\"everyone\""@,
    }
}

/// An identifier as JSON: its decimal digits as a string.
pub open spec fn id_json(id: Snowflake) -> Seq<char> {
    seq!['"'] + decimal(id.0 as nat) + seq!['"']
}

/// An optional list of identifiers as JSON.
pub open spec fn opt_ids_json(ids: Option<Seq<Snowflake>>) -> Seq<char> {
    match ids {
        Some(list) => listed(list.map_values(|id: Snowflake| id_json(id))),
        None => "null"@,
    }
}

/// The rules for mentions as a JSON object.
pub open spec fn mentions_json(m: Option<MentionsView>) -> Seq<char> {
    match m {
        Some(v) => "{\"parse\":"@ + listed(v.parse.map_values(|k: MentionTypes| mention_json(k)))
            + ",\"users\":"@ + opt_ids_json(v.users) + ",\"roles\":"@ + opt_ids_json(v.roles)
            + "}"@,
        None => "null"@,
    }
}

/// An embed as a JSON object.
pub open spec fn embed_json(e: Option<EmbedView>) -> Seq<char> {
    match e {
        Some(v) => "{\"title\":"@ + opt_quoted(v.title) + ",\"description\":"@ + opt_quoted(
            v.description,
        ) + "}"@,
        None => "null"@,
    }
}

/// The body of the request that posts a message: a JSON object with the members
/// `content`, `embed` and `allowed_mentions`, each null where the message has none.
pub open spec fn body_json(m: NewMessageView) -> Seq<char> {
    "{\"content\":"@ + opt_quoted(m.content) + ",\"embed\":"@ + embed_json(m.embed)
        + ",\"allowed_mentions\":"@ + mentions_json(m.allowed_mentions) + "}"@
}

/// What is posted, one after the other, for a message: for a text without an embed
/// one message per chunk of the text, each with the rules of the whole; for any other
/// message the message itself.
pub open spec fn postings(m: NewMessageView) -> Seq<NewMessageView> {
    match (m.content, m.embed) {
        (Some(text), None) => split(text).map_values(
            |chunk: Seq<char>|
                NewMessageView {
                    content: Some(chunk),
                    embed: None,
                    allowed_mentions: m.allowed_mentions,
                },
        ),
        _ => seq![m],
    }
}

/// Appends the JSON array of `items` to `out`.
fn push_listed(out: &mut String, items: &Vec<String>)
    ensures
        final(out)@ == old(out)@ + listed(views(items@)),
{
    let ghost texts = views(items@);
    out.push('[');
    let mut i: usize = 0;
    assert(texts.take(0) =~= Seq::<Seq<char>>::empty());
    assert(out@ =~= old(out)@ + seq!['['] + comma_joined(texts.take(0)));
    while i < items.len()
        invariant
            i <= items.len(),
            texts == views(items@),
            out@ == old(out)@ + seq!['['] + comma_joined(texts.take(i as int)),
        decreases items.len() - i,
    {
        let ghost before = out@;
        if i > 0 {
            out.push(',');
        }
        out.append(items[i].as_str());
        proof {
            let now = texts.take(i + 1);
            assert(now.drop_last() =~= texts.take(i as int));
            assert(now.last() == items@[i as int]@);
            if i == 0 {
                assert(comma_joined(now) == now[0]);
                assert(comma_joined(texts.take(0)) =~= Seq::<char>::empty());
                assert(out@ =~= old(out)@ + seq!['['] + comma_joined(now));
            } else {
                assert(comma_joined(now) == comma_joined(texts.take(i as int)) + seq![','] + now.last());
                assert(out@ =~= old(out)@ + seq!['['] + comma_joined(now));
            }
        }
        i = i + 1;
    }
    assert(texts.take(items.len() as int) =~= texts);
    out.push(']');
    assert(out@ =~= old(out)@ + listed(texts));
}

/// Appends an optional text as JSON.
fn push_opt_quoted(out: &mut String, t: &Option<Cow<'_, str>>)
    ensures
        final(out)@ == old(out)@ + opt_quoted(text_of(*t)),
{
    match t {
        Some(c) => {
            let text: &str = match c {
                Cow::Borrowed(b) => b,
                Cow::Owned(o) => o.as_str(),
            };
            let q = quote(text);
            out.append(q.as_str());
        },
        None => {
            out.append("null");
        },
    }
}

fn push_opt_ids(out: &mut String, ids: &Option<Vec<Snowflake>>)
    ensures
        final(out)@ == old(out)@ + opt_ids_json(ids_of(*ids)),
{
    match ids {
        Some(list) => {
            let mut texts: Vec<String> = Vec::new();
            let mut i: usize = 0;
            let ghost want = list@.map_values(|id: Snowflake| id_json(id));
            while i < list.len()
                invariant
                    i <= list.len(),
                    want == list@.map_values(|id: Snowflake| id_json(id)),
                    views(texts@) == want.take(i as int),
                decreases list.len() - i,
            {
                let mut t = String::new();
                t.push('"');
                push_decimal(&mut t, list[i].0);
                t.push('"');
                let ghost before = texts@;
                texts.push(t);
                proof {
                    assert(t@ =~= id_json(list@[i as int]));
                    assert(views(before.push(t)) =~= views(before).push(t@));
                    assert(want.take(i as int).push(want[i as int]) =~= want.take(i + 1));
                }
                i = i + 1;
            }
            assert(want.take(list.len() as int) =~= want);
            push_listed(out, &texts);
        },
        None => {
            out.append("null");
        },
    }
}

fn push_mentions(out: &mut String, m: &Option<AllowedMentions>)
    ensures
        final(out)@ == old(out)@ + mentions_json(mentions_of(*m)),
{
    match m {
        Some(rules) => {
            let mut kinds: Vec<String> = Vec::new();
            let mut i: usize = 0;
            let ghost want = rules.parse@.map_values(|k: MentionTypes| mention_json(k));
            while i < rules.parse.len()
                invariant
                    i <= rules.parse.len(),
                    want == rules.parse@.map_values(|k: MentionTypes| mention_json(k)),
                    views(kinds@) == want.take(i as int),
                decreases rules.parse.len() - i,
            {
                let t = match rules.parse[i] {
                    MentionTypes::Users => String::from_str("\"users\""),
                    MentionTypes::Roles => String::from_str("\"roles\""),
                    MentionTypes::Everyone => String::from_str("\"everyone\""),
                };
                let ghost before = kinds@;
                kinds.push(t);
                proof {
                    assert(views(before.push(t)) =~= views(before).push(t@));
                    assert(want.take(i as int).push(want[i as int]) =~= want.take(i + 1));
                }
                i = i + 1;
            }
            assert(want.take(rules.parse.len() as int) =~= want);
            let ghost start = out@;
            out.append("{\"parse\":");
            push_listed(out, &kinds);
            out.append(",\"users\":");
            push_opt_ids(out, &rules.users);
            out.append(",\"roles\":");
            push_opt_ids(out, &rules.roles);
            out.append("}");
            assert(out@ =~= start + mentions_json(mentions_of(*m)));
        },
        None => {
            out.append("null");
        },
    }
}

impl<'a> NewMessage<'a> {
    /// The body of the request that posts this message.
    pub fn to_json(&self) -> (r: String)
        ensures
            r@ == body_json(self@),
    {
        let mut out = String::from_str("{\"content\":");
        push_opt_quoted(&mut out, &self.content);
        out.append(",\"embed\":");
        match &self.embed {
            Some(e) => {
                let ghost start = out@;
                out.append("{\"title\":");
                push_opt_quoted(&mut out, &e.title);
                out.append(",\"description\":");
                push_opt_quoted(&mut out, &e.description);
                out.append("}");
                assert(out@ =~= start + embed_json(embed_of(self.embed)));
            },
            None => {
                out.append("null");
            },
        }
        out.append(",\"allowed_mentions\":");
        push_mentions(&mut out, &self.allowed_mentions);
        out.append("}");
        assert(out@ =~= body_json(self@));
        out
    }

    /// The messages that are posted for this one, in their order.
    pub fn parts(&'a self) -> (r: Vec<NewMessage<'a>>)
        ensures
            r@.len() == postings(self@).len(),
            forall|i: int| 0 <= i < r@.len() ==> (#[trigger] r@[i])@ == postings(self@)[i],
    {
        let mut out: Vec<NewMessage<'a>> = Vec::new();
        match (&self.content, &self.embed) {
            (Some(content), None) => {
                let text: &'a str = match content {
                    Cow::Borrowed(b) => b,
                    Cow::Owned(o) => o.as_str(),
                };
                let chunks = split_msg(text);
                let mut chunks = chunks;
                let ghost all = chunks@;
                let ghost want = postings(self@);
                let mut built: Vec<NewMessage<'a>> = Vec::new();
                // The chunks are taken from the end, so the parts come out reversed.
                while chunks.len() > 0
                    invariant
                        chunks@ == all.take(chunks@.len() as int),
                        all.len() == want.len(),
                        built@.len() == all.len() - chunks@.len(),
                        want == postings(self@),
                        text_of(self.content) == Some(text@),
                        self.embed is None,
                        forall|k: int| 0 <= k < all.len() ==> (#[trigger] all[k])@ == split(text@)[k],
                        forall|k: int|
                            0 <= k < built@.len() ==> (#[trigger] built@[k])@ == want[all.len() - 1
                                - k],
                    decreases chunks.len(),
                {
                    let ghost n = chunks@.len();
                    let chunk = chunks.pop().unwrap();
                    let part = NewMessage {
                        content: Some(chunk),
                        embed: None,
                        allowed_mentions: copy_mentions(&self.allowed_mentions),
                    };
                    proof {
                        assert(chunk == all[n - 1]);
                        assert(chunks@ =~= all.take(n - 1));
                    }
                    built.push(part);
                }
                while built.len() > 0
                    invariant
                        out@.len() + built@.len() == want.len(),
                        forall|k: int|
                            0 <= k < built@.len() ==> (#[trigger] built@[k])@ == want[want.len() - 1
                                - k],
                        forall|k: int| 0 <= k < out@.len() ==> (#[trigger] out@[k])@ == want[k],
                    decreases built.len(),
                {
                    let part = built.pop().unwrap();
                    out.push(part);
                }
            },
            _ => {
                out.push(self.borrowed());
            },
        }
        out
    }
}

/// Why a REST operation failed.
#[derive(Debug, PartialEq, Eq)]
pub enum Error {
    /// The platform answered with a status that is neither a success nor a rate
    /// limit.
    DiscordError { msg: String, status_code: u16, body: String },
    /// The request could not be carried out.
    TransportError(String),
    /// The request could not be built.
    HttpError(String),
    /// The body of the answer is no UTF-8 text.
    DecodeError(String),
    RateLimited { retry_after: u64 },
    Other(String),
}

impl Error {
    /// The error as a line of text.
    pub open spec fn description(self) -> Seq<char> {
        match self {
            Error::DiscordError { msg, status_code, body } => msg@ + ": "@ + body@,
            Error::TransportError(m) => "Transport Error: "@ + m@,
            Error::HttpError(m) => "Http Error: "@ + m@,
            Error::DecodeError(m) => "Decode Error: "@ + m@,
            Error::RateLimited { retry_after } => "Rate Limited: "@ + decimal(retry_after as nat),
            Error::Other(m) => m@,
        }
    }

    pub fn describe(&self) -> (r: String)
        ensures
            r@ == self.description(),
    {
        match self {
            Error::DiscordError { msg, status_code, body } => {
                let mut out = msg.clone();
                out.append(": ");
                out.append(body.as_str());
                out
            },
            Error::TransportError(m) => {
                let mut out = String::from_str("Transport Error: ");
                out.append(m.as_str());
                out
            },
            Error::HttpError(m) => {
                let mut out = String::from_str("Http Error: ");
                out.append(m.as_str());
                out
            },
            Error::DecodeError(m) => {
                let mut out = String::from_str("Decode Error: ");
                out.append(m.as_str());
                out
            },
            Error::RateLimited { retry_after } => {
                let mut out = String::from_str("Rate Limited: ");
                push_decimal(&mut out, *retry_after);
                out
            },
            Error::Other(m) => m.clone(),
        }
    }
}

/// Everything that posting a message needs: where to post, with which headers, and
/// the bodies to post one after the other.
#[derive(Debug, PartialEq, Eq)]
pub struct Posting {
    pub url: String,
    pub authorization: String,
    pub content_type: &'static str,
    pub bodies: Vec<String>,
}

/// The address at which messages are posted to a channel.
pub open spec fn messages_url(base_url: Seq<char>, to: Snowflake) -> Seq<char> {
    base_url + "/channels/"@ + decimal(to.0 as nat) + "/messages"@
}

/// `bodies` are the request bodies of `messages`, one for one.
pub open spec fn bodies_of(messages: Seq<NewMessageView>, bodies: Seq<String>) -> bool {
    &&& bodies.len() == messages.len()
    &&& forall|i: int| 0 <= i < bodies.len() ==> (#[trigger] bodies[i])@ == body_json(messages[i])
}

/// What sending `msg` to the channel `to` posts.
pub fn send<'a>(to: Snowflake, msg: &'a NewMessage<'a>, base_url: &'a str, token: &'a str) -> (p:
    Posting)
    ensures
        p.url@ == messages_url(base_url@, to),
        p.authorization@ == "Bot "@ + token@,
        p.content_type@ == "application/json"@,
        bodies_of(postings(msg@), p.bodies@),
{
    let mut url = String::from_str(base_url);
    url.append("/channels/");
    push_decimal(&mut url, to.0);
    url.append("/messages");
    let authorization = bot_authorization(token);
    let parts = msg.parts();
    let mut bodies: Vec<String> = Vec::new();
    let mut i: usize = 0;
    while i < parts.len()
        invariant
            i <= parts.len(),
            bodies@.len() == i,
            parts@.len() == postings(msg@).len(),
            forall|k: int| 0 <= k < parts@.len() ==> (#[trigger] parts@[k])@ == postings(msg@)[k],
            forall|k: int| 0 <= k < i ==> (#[trigger] bodies@[k])@ == body_json(postings(msg@)[k]),
        decreases parts.len() - i,
    {
        bodies.push(parts[i].to_json());
        i = i + 1;
    }
    Posting { url, authorization, content_type: "application/json", bodies }
}

/// The status with which the platform says that a request came too early.
pub const TOO_MANY_REQUESTS: u16 = 429;

/// The body of an answer with status 429: how long to wait, in seconds and as the
/// number that the platform sent, and whether the limit is the global one.
#[derive(Debug, PartialEq, Eq)]
pub struct DiscordRateLimitResponse {
    pub retry_after: JsonNumber,
    pub global: bool,
}

impl DiscordRateLimitResponse {
    pub open spec fn reads(self, j: Json) -> bool {
        &&& j.field("retry_after"@) == Some(Json::Number(self.retry_after))
        &&& j.boolean_at("global"@) == Some(self.global)
    }

    pub fn decode(j: Json) -> (r: Option<DiscordRateLimitResponse>)
        ensures
            r matches Some(v) ==> v.reads(j),
            r is None ==> forall|v: DiscordRateLimitResponse| !v.reads(j),
    {
        let global = match j.read_boolean("global") {
            Some(v) => v,
            None => { return None; },
        };
        match j.take("retry_after") {
            Some(Json::Number(retry_after)) => Some(DiscordRateLimitResponse { retry_after, global }),
            _ => None,
        }
    }
}

/// What to do with one answer.
#[derive(Debug, PartialEq, Eq)]
pub enum Verdict {
    /// The request is done: return the body.
    Return(String),
    /// Wait as long as the limit says, then build the request anew and send it again.
    Retry(DiscordRateLimitResponse),
    /// The request has failed: return the error, and do not try again.
    Fail(Error),
}

/// `v` is the verdict on an answer with `status` and `body`, where `json` is what
/// the body parsed to. A 429 asks for another try, or fails where its body is no
/// rate limit; a status from 200 to 299 returns the body; every other status fails
/// with the status and the body as they came.
pub open spec fn judged(status: u16, body: String, json: Option<Json>, v: Verdict) -> bool {
    if status == TOO_MANY_REQUESTS {
        match v {
            Verdict::Retry(limit) => json matches Some(j) && limit.reads(j),
            Verdict::Fail(Error::Other(m)) => {
                &&& m@ == "Malformed rate limit message"@
                &&& json matches Some(j) ==> forall|l: DiscordRateLimitResponse| !l.reads(j)
            },
            _ => false,
        }
    } else if 200 <= status < 300 {
        v == Verdict::Return(body)
    } else {
        v matches Verdict::Fail(Error::DiscordError { msg, status_code, body: b }) && msg@
            == "Status Code "@ + decimal(status as nat) && status_code == status && b == body
    }
}

/// The retry loop that every REST request shares, by its decisions. It counts the
/// retries and how many of them a global limit caused; neither count changes what
/// it decides, and no number of retries makes it give up.
#[derive(Debug, Clone, Copy, PartialEq, Eq, Structural)]
pub struct Executor {
    pub retries: u64,
    pub global_limits: u64,
}

/// A count one higher, as far as the type goes.
pub open spec fn bumped(n: u64) -> u64 {
    if n < u64::MAX {
        (n + 1) as u64
    } else {
        n
    }
}

fn bump(n: u64) -> (r: u64)
    ensures
        r == bumped(n),
{
    if n < u64::MAX {
        n + 1
    } else {
        n
    }
}

impl Executor {
    pub fn new() -> (r: Executor)
        ensures
            r.retries == 0,
            r.global_limits == 0,
    {
        Executor { retries: 0, global_limits: 0 }
    }

    /// The counts after the verdict `v`.
    pub open spec fn counted(self, v: Verdict) -> Executor {
        match v {
            Verdict::Retry(limit) => Executor {
                retries: bumped(self.retries),
                global_limits: if limit.global {
                    bumped(self.global_limits)
                } else {
                    self.global_limits
                },
            },
            _ => self,
        }
    }

    /// Judges one answer, given what its body parsed to.
    pub fn judge(&mut self, status: u16, body: String, json: Option<Json>) -> (v: Verdict)
        ensures
            judged(status, body, json, v),
            *final(self) == old(self).counted(v),
    {
        if status == TOO_MANY_REQUESTS {
            let limit = match json {
                Some(j) => DiscordRateLimitResponse::decode(j),
                None => None,
            };
            match limit {
                Some(limit) => {
                    self.retries = bump(self.retries);
                    if limit.global {
                        self.global_limits = bump(self.global_limits);
                    }
                    Verdict::Retry(limit)
                },
                None => Verdict::Fail(
                    Error::Other(String::from_str("Malformed rate limit message")),
                ),
            }
        } else if 200 <= status && status < 300 {
            Verdict::Return(body)
        } else {
            let mut msg = String::from_str("Status Code ");
            push_decimal(&mut msg, status as u64);
            Verdict::Fail(Error::DiscordError { msg, status_code: status, body })
        }
    }
}

/// Judges the answer to one attempt of a request: return its body, wait and try
/// again, or fail. The body of a 429 is read as JSON; no other body is looked into.
pub fn send_retry_rate_limit(executor: &mut Executor, status: u16, body: String) -> (v: Verdict)
    ensures
        judged(status, body, json_of_text(body@), v),
        *final(executor) == old(executor).counted(v),
{
    let json = if status == TOO_MANY_REQUESTS {
        Json::parse(body.as_str())
    } else {
        None
    };
    let v = executor.judge(status, body, json);
    v
}

} // verus!
