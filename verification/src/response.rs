//! The inbound message envelope.
//!
//! Every frame the server sends is one of four shapes: a correlated reply
//! (carries the id of the request it answers), a push notification (carries a
//! channel key), a structured server error (carries a code and possibly an
//! id), or something unrecognized. Exactly one of id and channel key is
//! authoritative for routing; the accessors here expose them and are what the
//! dispatcher routes by. Payloads that the core never inspects travel as raw
//! text and are decoded by the layer around the library.

use vstd::prelude::*;

use crate::api;
use crate::api::IncomeMethods;

verus! {

/// An active-subscription listing returned after a subscribe request.
#[derive(Clone, Debug, PartialEq, Eq)]
pub struct Subscriptions {
    pub ch: String,
    pub subscriptions: Vec<String>,
}

/// The payload of a correlated reply.
#[derive(Clone, Debug, PartialEq, Eq)]
pub enum ResultVariant {
    /// A bare boolean acknowledgement.
    Success(bool),
    /// The listing of active subscriptions on a channel.
    Subscriptions(Subscriptions),
    /// Any other payload, carried as raw text for the caller to decode.
    Raw(String),
}

/// A correlated reply: the id of the request it answers and its payload.
#[derive(Clone, Debug, PartialEq, Eq)]
pub struct APIResult {
    pub id: i64,
    pub result: ResultVariant,
}

/// A push notification on a subscribed channel, payload carried as raw text.
#[derive(Clone, Debug, PartialEq, Eq)]
pub struct ChannelMessage {
    pub ch: String,
    pub payload: String,
}

/// One inbound frame, already shaped into the envelope the dispatcher routes.
#[derive(Clone, Debug, PartialEq, Eq)]
pub enum Response {
    /// A push notification carrying a channel key.
    Channel(ChannelMessage),
    /// An unsolicited message carrying a method name instead of a channel.
    Income { method: IncomeMethods, payload: String },
    /// A structured server error.
    Error(api::Error),
    /// A correlated reply to an outstanding request.
    Reply(APIResult),
    /// Anything else; an id is still honoured if one was present.
    Unknown { id: Option<i64>, raw: String },
}

impl Response {
    /// The correlation id this frame answers, when it answers one.
    pub open spec fn spec_id(&self) -> Option<i64> {
        match *self {
            Response::Error(api::Error { id, .. }) => id,
            Response::Income { .. } => None,
            Response::Channel(_) => None,
            Response::Reply(APIResult { id, .. }) => Some(id),
            Response::Unknown { id, .. } => id,
        }
    }

    /// The routing key for the subscription registry, when the frame has one:
    /// the channel key of a push, or the method name of an unsolicited message.
    pub open spec fn spec_method(&self) -> Option<Seq<char>> {
        match *self {
            Response::Channel(ChannelMessage { ch, .. }) => Some(ch@),
            Response::Income { method, .. } => Some(method.method_spec()),
            _ => None,
        }
    }

    /// Whether this frame is a reply acknowledging success.
    pub open spec fn spec_success(&self) -> bool {
        match *self {
            Response::Reply(APIResult { result: ResultVariant::Success(b), .. }) => b,
            _ => false,
        }
    }

    /// The correlation id carried by the frame, if any.
    pub fn id(&self) -> (r: Option<i64>)
        ensures
            r == self.spec_id(),
    {
        match self {
            Response::Error(e) => e.id,
            Response::Income { .. } => None,
            Response::Channel(_) => None,
            Response::Reply(result) => Some(result.id),
            Response::Unknown { id, .. } => *id,
        }
    }

    /// The registry key carried by the frame, if any.
    pub fn method(&self) -> (r: Option<String>)
        ensures
            r is Some <==> self.spec_method() is Some,
            r matches Some(m) ==> self.spec_method() matches Some(s) && m@ == s,
    {
        match self {
            Response::Channel(channel) => Some(channel.ch.clone()),
            Response::Income { method, .. } => Some(method.method().to_owned()),
            _ => None,
        }
    }

    /// Whether the frame is a reply acknowledging success; any other shape,
    /// including a reply with a payload, counts as no acknowledgement.
    pub fn success(&self) -> (r: bool)
        ensures
            r == self.spec_success(),
    {
        match self {
            Response::Reply(APIResult { result: ResultVariant::Success(b), .. }) => *b,
            _ => false,
        }
    }

    /// The reply inside the frame, or the frame back when it is not a reply.
    pub fn as_result(self) -> (r: Result<APIResult, Response>)
        ensures
            match r {
                Ok(res) => self == Response::Reply(res),
                Err(other) => other == self && !(self is Reply),
            },
    {
        match self {
            Response::Reply(result) => Ok(result),
            res => Err(res),
        }
    }

    /// The subscription listing inside the frame, or the frame back when it
    /// carries none.
    pub fn as_subscriptions(self) -> (r: Result<Subscriptions, Response>)
        ensures
            match r {
                Ok(subs) => (self matches Response::Reply(
                    APIResult { id: _, result: ResultVariant::Subscriptions(s) },
                ) && s == subs),
                Err(other) => other == self && !(self matches Response::Reply(
                    APIResult { id: _, result: ResultVariant::Subscriptions(_) },
                )),
            },
    {
        match self {
            Response::Reply(APIResult { result: ResultVariant::Subscriptions(subs), .. }) => Ok(
                subs,
            ),
            res => Err(res),
        }
    }
}

} // verus!
