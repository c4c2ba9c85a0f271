//! Client core for a persistent duplex connection to a trading venue.
//!
//! The crate verifies the communication layer of the client: the request
//! correlator that matches replies to outstanding requests, the subscription
//! registry that fans out push notifications, the dispatcher that routes each
//! inbound frame, and the authenticator that builds the signed login request.
//! The physical websocket transport and the async runtime live outside the
//! verified library and hand it plain values.

use vstd::prelude::*;

pub mod api;
pub mod codec;
pub mod correlator;
pub mod dispatcher;
pub mod error;
pub mod json;
pub mod registry;
pub mod request;
pub mod response;
pub mod signing;
pub mod text;

verus! {

/// Seconds a caller waits for a reply before giving up.
pub const REQUEST_TIMEOUT_SECS: i64 = 5;

/// Seconds after which a pending request is swept from the correlator table.
pub const EXPIRY_HORIZON_SECS: i64 = 20;

} // verus!
