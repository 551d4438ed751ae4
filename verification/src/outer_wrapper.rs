//! The client as its user sees it: one session with the gateway that is opened,
//! watched and reopened, and a handle for REST requests beside it.
//!
//! The types here hold the state and take the decisions. Their caller owns the
//! HTTP client and the transport, carries out each plan, and reports back.

use vstd::prelude::*;
use vstd::string::*;
use crate::discord::Snowflake;
use crate::discord_api::{
    add_member_role, channel_url, get_channel, get_members_inner, member_role_url, members_url,
    reaction_url, remove_member_role, set_reaction, MemberPages, Method, Request,
};
use crate::events::Event;
use crate::gateway::{
    bot_authorization, Bootstrap, Gateway, GatewayBuilder, GatewayError, GatewayMessage,
};
use crate::gateway_ws::Message;
use crate::send_message::{bodies_of, messages_url, postings, send, NewMessage, Posting};

verus! {

/// The state of a client: where the platform is, who we are, the session with the
/// gateway once there is one, and the id under which the server knows it.
#[derive(Debug, PartialEq, Eq)]
pub struct Discord {
    pub gateway: Option<Gateway>,
    pub base_url: String,
    pub token: String,
    pub session_id: Option<String>,
}

/// What a receive of the client does with a message of its session.
#[derive(Debug, PartialEq, Eq)]
pub enum Received {
    /// Return this to the user.
    Return(Result<GatewayMessage, GatewayError>),
    /// Open a new session as `plan` says and attach it; then return the server's
    /// request to reconnect to the user, or the error that opening met.
    Reconnect { plan: Bootstrap, resumed: bool },
}

impl Discord {
    pub fn new(base_url: String, token: String) -> (r: Discord)
        ensures
            r.gateway is None,
            r.base_url == base_url,
            r.token == token,
            r.session_id is None,
    {
        Discord { gateway: None, base_url, token, session_id: None }
    }

    /// The sequence number that the session saw last.
    pub fn seq(&self) -> (r: Option<u64>)
        ensures
            r == match self.gateway {
                Some(g) => g.seq_num,
                None => None,
            },
    {
        match &self.gateway {
            Some(g) => g.seq_num,
            None => None,
        }
    }

    /// Whether the session answered its hello with a resume; `None` before the hello.
    pub fn did_resume(&self) -> (r: Option<bool>)
        ensures
            r == match self.gateway {
                Some(g) => g.did_resume,
                None => None,
            },
    {
        match &self.gateway {
            Some(g) => g.did_resume,
            None => None,
        }
    }

    /// `plan` opens a session for this client that resumes what `resume` names, or
    /// identifies anew where it names nothing.
    pub open spec fn opens(self, plan: Bootstrap, resume: Option<(Seq<char>, u64)>) -> bool {
        &&& plan.url@ == self.base_url@ + "/gateway/bot"@
        &&& plan.authorization@ == "Bot "@ + self.token@
        &&& plan.gateway.token@ == self.token@
        &&& plan.gateway.seq_num is None
        &&& plan.gateway.did_resume is None
        &&& match resume {
            Some((session_id, seq)) => plan.gateway.resume matches Some(info) && info.session_id@
                == session_id && info.seq == seq,
            None => plan.gateway.resume is None,
        }
    }

    /// The plan for a first connection: a session that identifies anew.
    pub fn connect(&self) -> (plan: Bootstrap)
        ensures
            self.opens(plan, None),
    {
        GatewayBuilder::new().base_url(self.base_url.clone()).connect(self.token.clone())
    }

    /// The plan for a connection that resumes the session `session_id` after the
    /// sequence number `seq`.
    pub fn reconnect_with(&self, session_id: String, seq: u64) -> (plan: Bootstrap)
        ensures
            self.opens(plan, Some((session_id@, seq))),
    {
        GatewayBuilder::new().base_url(self.base_url.clone()).resume(session_id, seq).connect(
            self.token.clone(),
        )
    }

    /// What a reconnect resumes: the session id of the last ready event together
    /// with the last sequence number, where both are known.
    pub open spec fn resumable(self) -> Option<(Seq<char>, u64)> {
        match (self.session_id, self.gateway) {
            (Some(id), Some(g)) => match g.seq_num {
                Some(seq) => Some((id@, seq)),
                None => None,
            },
            _ => None,
        }
    }

    /// The plan for a reconnect, and whether it resumes.
    pub fn reconnect(&self) -> (r: (Bootstrap, bool))
        ensures
            self.opens(r.0, self.resumable()),
            r.1 == self.resumable() is Some,
    {
        match (&self.session_id, self.seq()) {
            (Some(id), Some(seq)) => (self.reconnect_with(id.clone(), seq), true),
            _ => (self.connect(), false),
        }
    }

    /// Puts a session that was opened in the place of the one before.
    pub fn attach(&mut self, gateway: Gateway)
        ensures
            final(self).gateway == Some(gateway),
            final(self).base_url == old(self).base_url,
            final(self).token == old(self).token,
            final(self).session_id == old(self).session_id,
    {
        self.gateway = Some(gateway);
    }

    /// Takes what the session received. A ready event leaves its session id with
    /// the client. An invalid session clears the session id and the sequence
    /// number, and is returned as an error. A request to reconnect asks for the
    /// plan of [`Discord::reconnect`]. Everything else is returned as it is.
    pub fn recv(&mut self, msg: Result<GatewayMessage, GatewayError>) -> (r: Received)
        ensures
            final(self).base_url == old(self).base_url,
            final(self).token == old(self).token,
            match msg {
                Ok(GatewayMessage::Event(Event::Ready(ready))) => {
                    &&& final(self).session_id matches Some(id) && id@ == ready.session_id@
                    &&& final(self).gateway == old(self).gateway
                    &&& r == Received::Return(msg)
                },
                Ok(GatewayMessage::InvalidSession) => {
                    &&& final(self).session_id is None
                    &&& match old(self).gateway {
                        Some(g) => final(self).gateway == Some(Gateway { seq_num: None, ..g }),
                        None => final(self).gateway is None,
                    }
                    &&& r == Received::Return(
                        Err::<GatewayMessage, _>(GatewayError::InvalidSession),
                    )
                },
                Ok(GatewayMessage::Reconnect) => {
                    &&& *final(self) == *old(self)
                    &&& r matches Received::Reconnect { plan, resumed }
                    &&& old(self).opens(plan, old(self).resumable())
                    &&& resumed == old(self).resumable() is Some
                },
                _ => *final(self) == *old(self) && r == Received::Return(msg),
            },
    {
        match msg {
            Ok(GatewayMessage::Event(Event::Ready(ready))) => {
                self.session_id = Some(ready.session_id.clone());
                Received::Return(Ok(GatewayMessage::Event(Event::Ready(ready))))
            },
            Ok(GatewayMessage::InvalidSession) => {
                self.session_id = None;
                match &mut self.gateway {
                    Some(g) => {
                        g.seq_num = None;
                    },
                    None => {},
                }
                Received::Return(Err(GatewayError::InvalidSession))
            },
            Ok(GatewayMessage::Reconnect) => {
                let (plan, resumed) = self.reconnect();
                Received::Reconnect { plan, resumed }
            },
            other => Received::Return(other),
        }
    }

    /// The frame that carries a raw text to the gateway.
    pub fn send_gateway_raw(&self, msg: &str) -> (r: Message)
        ensures
            r matches Message::Text(t) && t@ == msg@,
    {
        Message::Text(msg.to_owned())
    }

    /// What sending `msg` to the channel `to` posts.
    pub fn send<'a>(&'a self, to: Snowflake, msg: &'a NewMessage<'a>) -> (p: Posting)
        ensures
            p.url@ == messages_url(self.base_url@, to),
            p.authorization@ == "Bot "@ + self.token@,
            p.content_type@ == "application/json"@,
            bodies_of(postings(msg@), p.bodies@),
    {
        send(to, msg, self.base_url.as_str(), self.token.as_str())
    }

    /// A handle for REST requests that lives on its own.
    pub fn get_send_handle(&self) -> (r: SendHandle)
        ensures
            r.base_url@ == self.base_url@,
            r.token@ == self.token@,
            r.auth@ == "Bot "@ + self.token@,
    {
        SendHandle {
            base_url: self.base_url.clone(),
            token: self.token.clone(),
            auth: bot_authorization(self.token.as_str()),
        }
    }
}

/// What REST requests need: the base address, the token, and the authorization
/// made from it.
#[derive(Debug, PartialEq, Eq)]
pub struct SendHandle {
    pub base_url: String,
    pub token: String,
    pub auth: String,
}

impl SendHandle {
    /// What sending `msg` to the channel `to` posts.
    pub fn send<'a>(&'a self, to: Snowflake, msg: &'a NewMessage<'a>) -> (p: Posting)
        ensures
            p.url@ == messages_url(self.base_url@, to),
            p.authorization@ == "Bot "@ + self.token@,
            p.content_type@ == "application/json"@,
            bodies_of(postings(msg@), p.bodies@),
    {
        send(to, msg, self.base_url.as_str(), self.token.as_str())
    }

    /// The request that puts our reaction on a message.
    pub fn set_reaction(&self, channel: Snowflake, msg: Snowflake, emoji: &str) -> (r: Request)
        ensures
            r.is(Method::Put, reaction_url(self.base_url@, channel, msg, emoji), self.auth@),
    {
        set_reaction(channel, msg, emoji, self.base_url.as_str(), self.auth.as_str())
    }

    /// The request that fetches a channel.
    pub fn get_channel(&self, channel: Snowflake) -> (r: Request)
        ensures
            r.is(Method::Get, channel_url(self.base_url@, channel), self.auth@),
    {
        get_channel(channel, self.base_url.as_str(), self.auth.as_str())
    }

    /// The request for the page of a guild's members that comes next in `pages`.
    pub fn get_guild_members(&self, guild: Snowflake, pages: &MemberPages) -> (r: Request)
        ensures
            r.is(Method::Get, members_url(self.base_url@, guild, pages.last), self.auth@),
    {
        get_members_inner(guild, pages.last, self.base_url.as_str(), self.auth.as_str())
    }

    /// The request that grants a role to a member.
    pub fn add_member_role(&self, guild: Snowflake, user: Snowflake, role: Snowflake) -> (r: Request)
        ensures
            r.is(Method::Put, member_role_url(self.base_url@, guild, user, role), self.auth@),
    {
        add_member_role(guild, user, role, self.base_url.as_str(), self.auth.as_str())
    }

    /// The request that takes a role from a member.
    pub fn remove_member_role(&self, guild: Snowflake, user: Snowflake, role: Snowflake) -> (r: Request)
        ensures
            r.is(Method::Delete, member_role_url(self.base_url@, guild, user, role), self.auth@),
    {
        remove_member_role(guild, user, role, self.base_url.as_str(), self.auth.as_str())
    }
}

} // verus!
