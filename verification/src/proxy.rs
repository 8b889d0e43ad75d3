//! The reactor's dispatch rules.
//!
//! A single polling loop owns the listening socket and every session
//! socket.  Each readiness notification carries the token the socket was
//! registered under: the reserved [`SERVER`] token for the listener, a
//! session handle for everything else.  [`Proxy::ready`] turns one
//! notification into routing instructions; the surrounding loop performs
//! the socket work those instructions call for and feeds the outcomes to
//! the session table held in [`Proxy::server`].

use vstd::prelude::*;

use crate::server::{Server, MAX_CONNECTIONS};

verus! {

/// Token reserved for the listening socket; never used for a session.
pub const SERVER: usize = 0;

/// Where a readable notification is routed.
#[derive(Clone, Copy, Debug, PartialEq, Eq, Structural)]
pub enum ReadRoute {
    /// The listener is readable: accept one pending client connection,
    /// then re-arm the listener for readable readiness, edge-triggered.
    Accept,
    /// A session socket is readable: attempt one non-blocking read and
    /// report the outcome to the session behind this handle.
    Session(usize),
}

/// Where a writable notification is routed.
#[derive(Clone, Copy, Debug, PartialEq, Eq, Structural)]
pub enum WriteRoute {
    /// The listener reported writable.  A listening socket is never
    /// registered for write readiness, so this indicates a broken poller
    /// contract, not a runtime condition to recover from; the caller
    /// aborts.
    ListenerViolation,
    /// A session socket is writable: attempt one non-blocking write of the
    /// session's staged bytes and report the outcome to the session behind
    /// this handle.
    Session(usize),
}

/// Instructions for one readiness notification: what to do about its
/// readable half and about its writable half, in that order.
#[derive(Clone, Copy, Debug, PartialEq, Eq, Structural)]
pub struct RouteDecision {
    pub read_route: Option<ReadRoute>,
    pub write_route: Option<WriteRoute>,
}

/// The routing rule: readable on the reserved token means accept, readable
/// elsewhere goes to that session; writable on the reserved token is a
/// fatal contract violation, writable elsewhere goes to that session.
pub open spec fn route(token: usize, readable: bool, writable: bool) -> RouteDecision {
    RouteDecision {
        read_route: if readable {
            if token == SERVER {
                Some(ReadRoute::Accept)
            } else {
                Some(ReadRoute::Session(token))
            }
        } else {
            None
        },
        write_route: if writable {
            if token == SERVER {
                Some(WriteRoute::ListenerViolation)
            } else {
                Some(WriteRoute::Session(token))
            }
        } else {
            None
        },
    }
}

/// The reactor state: the session table behind the single polling loop.
pub struct Proxy {
    pub server: Server,
}

impl Proxy {
    /// A proxy with an empty session table of the standard capacity.
    pub fn new() -> (p: Proxy)
        ensures
            p.server.wf(),
            p.server@.conns.len() == 0,
            p.server@.free.len() == 0,
            p.server@.capacity == MAX_CONNECTIONS,
    {
        Proxy { server: Server::new(MAX_CONNECTIONS) }
    }

    /// Turn one readiness notification into routing instructions; proved to
    /// follow [`route`] exactly.
    pub fn ready(&self, token: usize, readable: bool, writable: bool) -> (r: RouteDecision)
        ensures
            r == route(token, readable, writable),
    {
        let read_route = if readable {
            if token == SERVER {
                Some(ReadRoute::Accept)
            } else {
                Some(ReadRoute::Session(token))
            }
        } else {
            None
        };
        let write_route = if writable {
            if token == SERVER {
                Some(WriteRoute::ListenerViolation)
            } else {
                Some(WriteRoute::Session(token))
            }
        } else {
            None
        };
        RouteDecision { read_route, write_route }
    }
}

/// How much the logger should let through, picked from the number of
/// stacked verbosity flags: none means informational, one adds debugging,
/// more adds tracing.
#[derive(Clone, Copy, Debug, PartialEq, Eq, Structural)]
pub enum Verbosity {
    Info,
    Debug,
    Trace,
}

/// The verbosity that `count` stacked verbosity flags select.
pub open spec fn verbosity_spec(count: usize) -> Verbosity {
    if count == 0 {
        Verbosity::Info
    } else if count == 1 {
        Verbosity::Debug
    } else {
        Verbosity::Trace
    }
}

/// Executable form of [`verbosity_spec`].
pub fn verbosity_for(count: usize) -> (v: Verbosity)
    ensures
        v == verbosity_spec(count),
{
    if count == 0 {
        Verbosity::Info
    } else if count == 1 {
        Verbosity::Debug
    } else {
        Verbosity::Trace
    }
}

} // verus!
