//! The session table.
//!
//! A [`Server`] owns every live [`Connection`], keyed by a small integer
//! handle that doubles as the poller token of both of the session's sockets.
//! Handle `0` is reserved for the listening socket (see [`crate::proxy`]),
//! so sessions are numbered from `1`: handle `i + 1` lives in slot `i`.
//! Slots of removed sessions are kept on a free list and reused, newest
//! first, so the table never grows past its fixed capacity.
//!
//! Admission is the decision half of accepting a connection: the caller
//! accepts the client socket and dials the backend, then asks the table for
//! a slot.  At capacity the admission is rejected — the caller closes the
//! new connection — rather than taking the whole process down.  Dispatching
//! routes one readiness outcome to the session it belongs to and, when the
//! session closes, removes it and tells the caller to deregister and drop
//! both of its sockets.

use vstd::prelude::*;

use crate::connection::{
    connection_wf, fresh_connection, read_step, write_step, Connection, ConnectionModel,
    Directive, InterestSet, ReadEvent, ReadEventModel, Rearm, SocketSide, WriteEvent,
    BUFFER_CAPACITY,
};
use crate::metrics::Sample;

verus! {

/// Upper bound on concurrent sessions used by the standard proxy
/// configuration.
pub const MAX_CONNECTIONS: usize = 32768;

/// Mathematical shape of a [`Server`].
#[verifier::ext_equal]
pub ghost struct ServerModel {
    /// Slot `i` holds the session with handle `i + 1`, or nothing.
    pub conns: Seq<Option<ConnectionModel>>,
    /// Indices of vacant slots, reused newest-first.
    pub free: Seq<usize>,
    /// Fixed upper bound on `conns.len()`.
    pub capacity: usize,
}

/// Number of occupied slots.
pub open spec fn count_some(s: Seq<Option<ConnectionModel>>) -> int
    decreases s.len(),
{
    if s.len() == 0 {
        0
    } else {
        count_some(s.drop_last()) + if s.last() is Some {
            1int
        } else {
            0
        }
    }
}

/// The table invariant: the slot array never outgrows the capacity, the
/// free list holds exactly the vacant slots (each once), and every stored
/// session is well formed and carries its own handle.
pub open spec fn table_wf(t: ServerModel) -> bool {
    &&& t.conns.len() <= t.capacity
    &&& count_some(t.conns) == t.conns.len() - t.free.len()
    &&& forall|k: int|
        0 <= k < t.free.len() ==> (#[trigger] t.free[k]) < t.conns.len() && t.conns[t.free[k] as int] is None
    &&& forall|k1: int, k2: int|
        0 <= k1 < k2 < t.free.len() ==> t.free[k1] != t.free[k2]
    &&& forall|i: int|
        0 <= i < t.conns.len() && (#[trigger] t.conns[i]) is None ==> t.free.contains(i as usize)
    &&& forall|i: int|
        0 <= i < t.conns.len() ==> ((#[trigger] t.conns[i]) matches Some(c) ==> c.token == Some(
            (i + 1) as usize,
        ) && connection_wf(c))
}

/// Whether `tok` is the handle of a live session.
pub open spec fn live(t: ServerModel, tok: usize) -> bool {
    1 <= tok <= t.conns.len() && t.conns[tok - 1] is Some
}

/// The session behind a live handle.
pub open spec fn session_at(t: ServerModel, tok: usize) -> ConnectionModel {
    t.conns[tok - 1].unwrap()
}

/// The session a fresh admission stores under `handle`.
pub open spec fn admitted_connection(handle: usize) -> ConnectionModel {
    ConnectionModel { token: Some(handle), ..fresh_connection() }
}

/// What an accepted connection pair needs from its caller: the handle both
/// sockets are registered under, the client socket registered for readable
/// readiness, and the backend socket watched for hangup only — the backend
/// is not polled for read or write until the state machine asks for it.
/// Both registrations are edge-triggered with auto-rearm-once semantics.
#[derive(Clone, Copy, Debug, PartialEq, Eq, Structural)]
pub struct Admission {
    pub handle: usize,
    pub client_registration: Rearm,
    pub backend_registration: Rearm,
}

/// The registrations handed out for a new session under `handle`.
pub open spec fn accept_registrations(handle: usize) -> Admission {
    Admission {
        handle,
        client_registration: Rearm {
            side: SocketSide::ClientSock,
            interest: InterestSet { readable: true, writable: false, hangup: false },
            oneshot: true,
        },
        backend_registration: Rearm {
            side: SocketSide::BackendSock,
            interest: InterestSet { readable: false, writable: false, hangup: true },
            oneshot: true,
        },
    }
}

/// Admission: reuse the most recently freed slot if any, else grow the slot
/// array while it is below capacity, else reject.
pub open spec fn accept_step(t: ServerModel) -> (ServerModel, Option<Admission>) {
    if t.free.len() > 0 {
        let idx = t.free.last();
        let handle = (idx + 1) as usize;
        (
            ServerModel {
                conns: t.conns.update(idx as int, Some(admitted_connection(handle))),
                free: t.free.drop_last(),
                ..t
            },
            Some(accept_registrations(handle)),
        )
    } else if t.conns.len() < t.capacity {
        let handle = (t.conns.len() + 1) as usize;
        (
            ServerModel { conns: t.conns.push(Some(admitted_connection(handle))), ..t },
            Some(accept_registrations(handle)),
        )
    } else {
        (t, None)
    }
}

/// Removal of a live session: the slot is vacated and its index joins the
/// free list.
pub open spec fn remove_step(t: ServerModel, tok: usize) -> ServerModel {
    ServerModel {
        conns: t.conns.update(tok - 1, None),
        free: t.free.push((tok - 1) as usize),
        ..t
    }
}

/// Result of dispatching one readiness outcome to a session.
pub ghost struct DispatchModel {
    pub next: ServerModel,
    pub rearm: Option<Rearm>,
    pub sample: Option<Sample>,
    /// True when the session closed and was removed; the caller must then
    /// deregister both of its sockets from the poller and drop them.
    pub removed: bool,
}

/// Dispatch of a read outcome: step the session; if the step leaves it
/// closed, remove it from the table.
pub open spec fn dispatch_read_step(
    t: ServerModel,
    tok: usize,
    ev: ReadEventModel,
    now: u64,
) -> DispatchModel {
    let step = read_step(session_at(t, tok), ev, now);
    if step.next.state is Closed {
        DispatchModel {
            next: remove_step(t, tok),
            rearm: step.rearm,
            sample: step.sample,
            removed: true,
        }
    } else {
        DispatchModel {
            next: ServerModel { conns: t.conns.update(tok - 1, Some(step.next)), ..t },
            rearm: step.rearm,
            sample: step.sample,
            removed: false,
        }
    }
}

/// Dispatch of a write outcome: step the session in place.  A write
/// transition never closes a session, so nothing is removed.
pub open spec fn dispatch_write_step(
    t: ServerModel,
    tok: usize,
    ev: WriteEvent,
    now: u64,
) -> DispatchModel {
    let step = write_step(session_at(t, tok), ev, now);
    DispatchModel {
        next: ServerModel { conns: t.conns.update(tok - 1, Some(step.next)), ..t },
        rearm: step.rearm,
        sample: step.sample,
        removed: false,
    }
}

proof fn lemma_count_some_update(s: Seq<Option<ConnectionModel>>, i: int, v: Option<ConnectionModel>)
    requires
        0 <= i < s.len(),
    ensures
        count_some(s.update(i, v)) == count_some(s) + (if v is Some {
            1int
        } else {
            0
        }) - (if s[i] is Some {
            1int
        } else {
            0
        }),
    decreases s.len(),
{
    let su = s.update(i, v);
    if i == s.len() - 1 {
        assert(su.drop_last() =~= s.drop_last());
        assert(su.last() == v);
    } else {
        lemma_count_some_update(s.drop_last(), i, v);
        assert(su.drop_last() =~= s.drop_last().update(i, v));
        assert(su.last() == s.last());
    }
}

proof fn lemma_count_some_bounds(s: Seq<Option<ConnectionModel>>)
    ensures
        0 <= count_some(s) <= s.len(),
    decreases s.len(),
{
    if s.len() > 0 {
        lemma_count_some_bounds(s.drop_last());
    }
}

/// The outcome handed back by [`Server::conn_readable`].
#[derive(Debug, PartialEq, Eq)]
pub struct DispatchOutcome {
    pub directive: Directive,
    /// True when the session closed and was removed; the caller must then
    /// deregister both of its sockets from the poller and drop them.
    pub removed: bool,
}

/// The capacity-bounded, slot-indexed table of live sessions.
pub struct Server {
    conns: Vec<Option<Connection>>,
    free: Vec<usize>,
    capacity: usize,
}

impl View for Server {
    type V = ServerModel;

    closed spec fn view(&self) -> ServerModel {
        ServerModel {
            conns: Seq::new(
                self.conns@.len(),
                |i: int|
                    match self.conns@[i] {
                        Some(c) => Some(c@),
                        None => None,
                    },
            ),
            free: self.free@,
            capacity: self.capacity,
        }
    }
}

impl Server {
    /// The table invariant; established by [`Server::new`] and preserved by
    /// every operation.
    pub open spec fn wf(&self) -> bool {
        table_wf(self@)
    }

    /// An empty table that will admit at most `capacity` concurrent
    /// sessions.
    pub fn new(capacity: usize) -> (s: Server)
        ensures
            s.wf(),
            s@.conns.len() == 0,
            s@.free.len() == 0,
            s@.capacity == capacity,
    {
        Server { conns: Vec::new(), free: Vec::new(), capacity }
    }

    /// How many sessions are live right now.
    pub fn session_count(&self) -> (n: usize)
        requires
            self.wf(),
        ensures
            n == count_some(self@.conns),
    {
        proof {
            lemma_count_some_bounds(self@.conns);
        }
        self.conns.len() - self.free.len()
    }

    /// Admit one freshly accepted connection pair: store a new session,
    /// hand back its handle and the two socket registrations to perform, or
    /// reject the admission when the table is at capacity — the caller then
    /// closes the new connection instead of the process dying.
    pub fn accept(&mut self) -> (r: Option<Admission>)
        requires
            old(self).wf(),
        ensures
            final(self).wf(),
            final(self)@ == accept_step(old(self)@).0,
            r == accept_step(old(self)@).1,
    {
        let ghost t = self@;
        match self.free.pop() {
            Some(idx) => {
                proof {
                    assert(t.free.last() == idx);
                    assert(idx < t.conns.len());
                    lemma_count_some_update(t.conns, idx as int, Some(admitted_connection((idx + 1) as usize)));
                }
                let handle = idx + 1;
                let mut fresh = Connection::new();
                fresh.set_token(handle);
                let slot = &mut self.conns[idx];
                *slot = Some(fresh);
                proof {
                    let t2 = accept_step(t).0;
                    assert(self@.conns =~= t2.conns);
                    assert(self@ =~= t2);
                    lemma_accept_reuse_wf(t);
                }
                Some(Admission {
                    handle,
                    client_registration: Rearm {
                        side: SocketSide::ClientSock,
                        interest: InterestSet { readable: true, writable: false, hangup: false },
                        oneshot: true,
                    },
                    backend_registration: Rearm {
                        side: SocketSide::BackendSock,
                        interest: InterestSet { readable: false, writable: false, hangup: true },
                        oneshot: true,
                    },
                })
            },
            None => {
                if self.conns.len() < self.capacity {
                    proof {
                        lemma_count_some_bounds(t.conns);
                    }
                    let handle = self.conns.len() + 1;
                    let mut fresh = Connection::new();
                    fresh.set_token(handle);
                    self.conns.push(Some(fresh));
                    proof {
                        let t2 = accept_step(t).0;
                        assert(self@.conns =~= t2.conns);
                        assert(self@ =~= t2);
                        lemma_accept_grow_wf(t);
                    }
                    Some(Admission {
                        handle,
                        client_registration: Rearm {
                            side: SocketSide::ClientSock,
                            interest: InterestSet { readable: true, writable: false, hangup: false },
                            oneshot: true,
                        },
                        backend_registration: Rearm {
                            side: SocketSide::BackendSock,
                            interest: InterestSet { readable: false, writable: false, hangup: true },
                            oneshot: true,
                        },
                    })
                } else {
                    None
                }
            },
        }
    }

    /// Look up a live session by handle.
    pub fn conn(&self, tok: usize) -> (r: Option<&Connection>)
        ensures
            match r {
                Some(c) => live(self@, tok) && c@ == session_at(self@, tok),
                None => !live(self@, tok),
            },
    {
        if 1 <= tok && tok <= self.conns.len() {
            match &self.conns[tok - 1] {
                Some(c) => Some(c),
                None => None,
            }
        } else {
            None
        }
    }

    /// Route a read outcome to the session behind `tok` and, if the session
    /// closed, remove it from the table and free the handle.  The returned
    /// outcome carries the session's directive and whether removal happened
    /// (in which case the caller deregisters and drops both sockets).
    pub fn conn_readable(&mut self, tok: usize, ev: ReadEvent, now: u64) -> (r: DispatchOutcome)
        requires
            old(self).wf(),
            live(old(self)@, tok),
            ev@ matches ReadEventModel::Data(bytes) ==> bytes.len() <= BUFFER_CAPACITY,
        ensures
            final(self).wf(),
            ({
                let d = dispatch_read_step(old(self)@, tok, ev@, now);
                &&& final(self)@ == d.next
                &&& r.directive.rearm == d.rearm
                &&& r.directive.sample == d.sample
                &&& r.removed == d.removed
            }),
    {
        let ghost t = self@;
        let i = tok - 1;
        let directive: Directive;
        let mut closed = false;
        {
            let slot = &mut self.conns[i];
            match slot {
                Some(c) => {
                    directive = c.readable(ev, now);
                    closed = c.is_closed();
                },
                None => {
                    proof {
                        assert(t.conns[i as int] is Some);
                        assert(false);
                    }
                    directive = Directive { rearm: None, sample: None };
                },
            }
        }
        proof {
            lemma_count_some_update(
                t.conns,
                i as int,
                Some(read_step(session_at(t, tok), ev@, now).next),
            );
        }
        if closed {
            {
                let slot = &mut self.conns[i];
                *slot = None;
            }
            self.free.push(i);
            proof {
                lemma_count_some_update(t.conns, i as int, None);
                let t2 = remove_step(t, tok);
                assert(self@.conns =~= t2.conns);
                assert(self@ =~= t2);
                assert_forall_free_after_push(t, i as int);
            }
        } else {
            proof {
                let t2 = dispatch_read_step(t, tok, ev@, now).next;
                assert(self@.conns =~= t2.conns);
                assert(self@ =~= t2);
            }
        }
        DispatchOutcome { directive, removed: closed }
    }

    /// Route a write outcome to the session behind `tok`.  The caller
    /// reports a write outcome only while the session has data staged.
    pub fn conn_writable(&mut self, tok: usize, ev: WriteEvent, now: u64) -> (d: Directive)
        requires
            old(self).wf(),
            live(old(self)@, tok),
            session_at(old(self)@, tok).staging is Some,
        ensures
            final(self).wf(),
            ({
                let dm = dispatch_write_step(old(self)@, tok, ev, now);
                &&& final(self)@ == dm.next
                &&& d.rearm == dm.rearm
                &&& d.sample == dm.sample
            }),
    {
        let ghost t = self@;
        let i = tok - 1;
        let directive: Directive;
        {
            let slot = &mut self.conns[i];
            match slot {
                Some(c) => {
                    directive = c.writable(ev, now);
                },
                None => {
                    proof {
                        assert(t.conns[i as int] is Some);
                        assert(false);
                    }
                    directive = Directive { rearm: None, sample: None };
                },
            }
        }
        proof {
            lemma_count_some_update(
                t.conns,
                i as int,
                Some(write_step(session_at(t, tok), ev, now).next),
            );
            let t2 = dispatch_write_step(t, tok, ev, now).next;
            assert(self@.conns =~= t2.conns);
            assert(self@ =~= t2);
        }
        directive
    }
}

proof fn lemma_accept_reuse_wf(t: ServerModel)
    requires
        table_wf(t),
        t.free.len() > 0,
    ensures
        table_wf(accept_step(t).0),
{
    let t2 = accept_step(t).0;
    let last = t.free.len() - 1;
    let idx = t.free[last];
    assert(t.conns[idx as int] is None);
    lemma_count_some_update(t.conns, idx as int, Some(admitted_connection((idx + 1) as usize)));
    assert forall|k: int|
        0 <= k < t2.free.len() implies (#[trigger] t2.free[k]) < t2.conns.len()
        && t2.conns[t2.free[k] as int] is None by {
        assert(t2.free[k] == t.free[k]);
        assert(t.free[k] != t.free[last]);
        assert(t.conns[t.free[k] as int] is None);
    }
    assert forall|i: int|
        0 <= i < t2.conns.len() && (#[trigger] t2.conns[i]) is None implies t2.free.contains(
        i as usize,
    ) by {
        assert(i != idx as int);
        assert(t.conns[i] is None);
        assert(t.free.contains(i as usize));
        let k = choose|k: int| 0 <= k < t.free.len() && t.free[k] == i as usize;
        assert(t.free[k] != t.free[last]);
        assert(k != last);
        assert(t2.free[k] == i as usize);
        assert(t2.free.contains(i as usize));
    }
    assert forall|i: int|
        0 <= i < t2.conns.len() implies ((#[trigger] t2.conns[i]) matches Some(c) ==> c.token
            == Some((i + 1) as usize) && connection_wf(c)) by {
        if i != idx as int {
            assert(t2.conns[i] == t.conns[i]);
        }
    }
}

proof fn lemma_accept_grow_wf(t: ServerModel)
    requires
        table_wf(t),
        t.free.len() == 0,
        t.conns.len() < t.capacity,
    ensures
        table_wf(accept_step(t).0),
{
    let t2 = accept_step(t).0;
    let n = t.conns.len() as int;
    assert(t2.conns.drop_last() =~= t.conns);
    assert(t2.conns.last() is Some);
    assert(count_some(t2.conns) == count_some(t.conns) + 1);
    assert forall|i: int|
        0 <= i < t2.conns.len() && (#[trigger] t2.conns[i]) is None implies t2.free.contains(
        i as usize,
    ) by {
        assert(i < n);
        assert(t.conns[i] is None);
        assert(t.free.contains(i as usize));
    }
    assert forall|i: int|
        0 <= i < t2.conns.len() implies ((#[trigger] t2.conns[i]) matches Some(c) ==> c.token
            == Some((i + 1) as usize) && connection_wf(c)) by {
        if i < n {
            assert(t2.conns[i] == t.conns[i]);
        } else {
            assert(t2.conns[i] == Some(admitted_connection((n + 1) as usize)));
        }
    }
}

proof fn assert_forall_free_after_push(t: ServerModel, idx: int)
    requires
        table_wf(t),
        0 <= idx < t.conns.len(),
        t.conns[idx] is Some,
    ensures
        table_wf(
            ServerModel {
                conns: t.conns.update(idx, None),
                free: t.free.push(idx as usize),
                ..t
            },
        ),
{
    let t2 = ServerModel {
        conns: t.conns.update(idx, None),
        free: t.free.push(idx as usize),
        ..t
    };
    lemma_count_some_update(t.conns, idx, None);
    assert forall|i: int|
        0 <= i < t2.conns.len() && (#[trigger] t2.conns[i]) is None implies t2.free.contains(
        i as usize,
    ) by {
        if i == idx {
            assert(t2.free[t2.free.len() - 1] == i as usize);
        } else {
            assert(t.conns[i] is None);
            let k = choose|k: int| 0 <= k < t.free.len() && t.free[k] == i as usize;
            assert(t2.free[k] == i as usize);
        }
    }
    assert forall|k1: int, k2: int| 0 <= k1 < k2 < t2.free.len() implies t2.free[k1]
        != t2.free[k2] by {
        if k2 == t2.free.len() - 1 {
            assert(t2.free[k2] == idx as usize);
            assert(t.conns[t.free[k1] as int] is None);
        }
    }
}

/// A freshly admitted handle was not live before the admission and is live
/// after it; every other handle keeps its status and its session.  Together
/// with the fact that a handle names one slot, no two live sessions ever
/// share a handle.
pub proof fn lemma_admitted_handle_fresh(t: ServerModel)
    requires
        table_wf(t),
        accept_step(t).1 is Some,
    ensures
        !live(t, accept_step(t).1.unwrap().handle),
        live(accept_step(t).0, accept_step(t).1.unwrap().handle),
        forall|h: usize|
            h != accept_step(t).1.unwrap().handle ==> (#[trigger] live(accept_step(t).0, h)
                <==> live(t, h)),
        forall|h: usize|
            h != accept_step(t).1.unwrap().handle && live(t, h) ==> #[trigger] session_at(
                accept_step(t).0,
                h,
            ) == session_at(t, h),
{
}

/// Handle reuse: remove a live session, and the very next admission hands
/// the same handle out again — freed handles become available immediately.
pub proof fn lemma_handle_reuse(t: ServerModel, tok: usize)
    requires
        table_wf(t),
        live(t, tok),
    ensures
        accept_step(remove_step(t, tok)).1 is Some,
        accept_step(remove_step(t, tok)).1.unwrap().handle == tok,
{
    let t1 = remove_step(t, tok);
    assert(t1.free.last() == (tok - 1) as usize);
}

/// Capacity boundary: with as many live sessions as the table's capacity,
/// an admission attempt is rejected and the table — every existing session
/// included — is left exactly as it was.
pub proof fn lemma_capacity_boundary(t: ServerModel)
    requires
        table_wf(t),
        count_some(t.conns) == t.capacity,
    ensures
        accept_step(t).1 is None,
        accept_step(t).0 == t,
{
    lemma_count_some_bounds(t.conns);
}

/// Peer close: a zero-byte read closes the session, and dispatch then
/// removes it, frees its handle, and reports the removal so that the caller
/// deregisters both sockets; every other session is untouched.
pub proof fn lemma_peer_close(t: ServerModel, tok: usize, now: u64)
    requires
        table_wf(t),
        live(t, tok),
    ensures
        ({
            let d = dispatch_read_step(t, tok, ReadEventModel::Data(Seq::empty()), now);
            &&& d.removed
            &&& !live(d.next, tok)
            &&& d.next == remove_step(t, tok)
            &&& forall|h: usize|
                h != tok ==> (#[trigger] live(d.next, h) <==> live(t, h))
            &&& forall|h: usize|
                h != tok && live(t, h) ==> #[trigger] session_at(d.next, h) == session_at(t, h)
        }),
{
}

} // verus!
