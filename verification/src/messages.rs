//! The messages exchanged with the peer, as records.
//!
//! Outbound commands carry a nonce that correlates a later reply with the
//! request. Inbound messages hold what the session reads of them.

use vstd::prelude::*;
use crate::connection::StreamError;
use crate::presence::{Presence, User};

verus! {

/// `SET_ACTIVITY`: show `presence` for the process `pid`, or clear it.
#[derive(Clone, Copy, Debug)]
pub struct SetActivity<'a> {
    pub pid: u32,
    pub nonce: i32,
    pub presence: Option<&'a Presence>,
}

/// The first frame on a fresh stream: protocol version and application id.
#[derive(Clone, Copy, Debug, PartialEq, Eq)]
pub struct Handshake<'a> {
    pub version: i32,
    pub app_id: &'a str,
}

/// `SUBSCRIBE` to an event when `ENABLED`, `UNSUBSCRIBE` from it otherwise.
#[derive(Clone, Copy, Debug, PartialEq, Eq)]
pub struct ToggleSubscription<'a, const ENABLED: bool> {
    pub nonce: i32,
    pub event: &'a str,
}

/// The answer to a join request: an invite when `accepted`, a refusal otherwise.
#[derive(Clone, Copy, Debug, PartialEq, Eq)]
pub struct JoinReply<'a> {
    pub nonce: i32,
    pub accepted: bool,
    pub user_id: &'a str,
}

/// The peer's answer to the handshake.
#[derive(Clone, Debug, PartialEq, Eq)]
pub struct HandshakeReply {
    pub command: String,
    pub event: String,
    pub data: HandshakeReplyData,
}

#[derive(Clone, Debug, PartialEq, Eq)]
pub struct HandshakeReplyData {
    pub user: Option<User>,
}

/// What the session reads of an inbound message's `data` object: the object
/// as a whole read as an error, its `secret` member if that is a string, and
/// its `user` member if that is a user record.
#[derive(Clone, Debug, PartialEq, Eq)]
pub struct EventData {
    pub error: Option<StreamError>,
    pub secret: Option<String>,
    pub user: Option<User>,
}

/// An inbound message: the name of the event and its data.
#[derive(Clone, Debug, PartialEq, Eq)]
pub struct Event {
    pub event: String,
    pub data: EventData,
}

} // verus!
