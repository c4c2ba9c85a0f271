//! The dispatcher and the session's authentication state.
//!
//! A single reader loop owns the inbound side of the connection. Each frame
//! it receives is routed here: the correlator first, by id; then the
//! registry, by channel key; a frame neither claims is handed back to be
//! logged and dropped. The session records whether authentication has
//! succeeded; a transport failure clears it, and only a successful login
//! reply sets it again, so after a reconnect the reader loop knows whether to
//! replay authentication before resuming.

use vstd::prelude::*;

use crate::api;
use crate::correlator::pending;
use crate::correlator::spec_resolve;
use crate::correlator::Delivery;
use crate::correlator::Requests;
use crate::error::Error;
use crate::registry::handler_of;
use crate::registry::registered;
use crate::registry::Dispatch;
use crate::registry::Subscriptions;
use crate::response::Response;

verus! {

/// Where one inbound frame went.
#[derive(Clone, Debug, PartialEq, Eq)]
pub enum Routed {
    /// The frame answered a pending request; deliver it to that waiter.
    Delivered(Delivery),
    /// The frame belongs to a subscribed channel; invoke its handler.
    Dispatched(Dispatch),
    /// Nobody claimed the frame; log it and carry on.
    Unhandled(Response),
}

/// Routes one inbound frame: the correlator first, by id; then the registry,
/// by channel key; otherwise unhandled. A frame that resolves a request
/// leaves the registry alone, and a frame dispatched to a channel leaves the
/// correlator untouched.
pub fn route(requests: &mut Requests, subscriptions: &Subscriptions, response: Response) -> (r:
    Routed)
    requires
        old(requests).wf(),
        subscriptions.wf(),
    ensures
        final(requests).wf(),
        match r {
            Routed::Delivered(d) => response.spec_id() matches Some(i) && pending(
                old(requests)@,
                i as int,
            ) && d == (Delivery { id: i, response }) && final(requests)@ == spec_resolve(
                old(requests)@,
                i as int,
            ),
            Routed::Dispatched(d) => final(requests)@ == old(requests)@ && !(
            response.spec_id() matches Some(i) && pending(old(requests)@, i as int)) && (
            response.spec_method() matches Some(key) && registered(subscriptions@, key) && d
                == (Dispatch { handler: handler_of(subscriptions@, key), response })),
            Routed::Unhandled(res) => res == response && final(requests)@ == old(requests)@ && !(
            response.spec_id() matches Some(i) && pending(old(requests)@, i as int)) && !(
            response.spec_method() matches Some(key) && registered(subscriptions@, key)),
        },
{
    match requests.intercept(response) {
        Ok(delivery) => Routed::Delivered(delivery),
        Err(unclaimed) => match subscriptions.intercept(unclaimed) {
            Ok(dispatch) => Routed::Dispatched(dispatch),
            Err(unhandled) => Routed::Unhandled(unhandled),
        },
    }
}

/// The authentication state of one connection.
#[derive(Clone, Copy, Debug, PartialEq, Eq, Structural)]
pub struct Session {
    pub authenticated: bool,
}

impl Session {
    /// A fresh session: not authenticated until a login succeeds.
    pub fn new() -> (r: Self)
        ensures
            !r.authenticated,
    {
        Session { authenticated: false }
    }

    /// Whether the session is authenticated.
    pub fn is_auth(&self) -> (r: bool)
        ensures
            r == self.authenticated,
    {
        self.authenticated
    }

    /// Applies the reply to a login request: a server error surfaces as an
    /// API failure and leaves the state alone; any other reply sets the flag
    /// if and only if the server acknowledged success.
    pub fn on_auth_response(&mut self, response: Response) -> (r: Result<(), Error>)
        ensures
            match response {
                Response::Error(e) => r == Err::<(), Error>(Error::APIResponse(e)) && *final(self)
                    == *old(self),
                _ => r == Ok::<(), Error>(()) && final(self).authenticated
                    == response.spec_success(),
            },
    {
        match response {
            Response::Error(error) => Err(Error::APIResponse(error)),
            other => {
                self.authenticated = other.success();
                Ok(())
            },
        }
    }

    /// Records a transport failure: the session is no longer authenticated,
    /// and the returned flag says whether the reader loop must replay
    /// authentication once the reconnect succeeds.
    pub fn on_transport_failure(&mut self) -> (reauth: bool)
        ensures
            !final(self).authenticated,
            reauth == old(self).authenticated,
    {
        let was = self.authenticated;
        self.authenticated = false;
        was
    }
}

impl Default for Session {
    /// A fresh session: not authenticated until a login succeeds.
    fn default() -> (r: Self)
        ensures
            !r.authenticated,
    {
        Session::new()
    }
}

} // verus!
