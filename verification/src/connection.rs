//! The per-session relay state machine.
//!
//! A [`Connection`] pairs one accepted client with one dialed backend
//! connection and shuttles a single in-flight message between them through a
//! reusable staging buffer.  The surrounding program performs the actual
//! non-blocking socket operations and reads the monotonic clock; it reports
//! each outcome here as a [`ReadEvent`] or [`WriteEvent`] together with the
//! clock reading, and receives back a [`Directive`] saying which socket to
//! re-arm with which readiness interest, and which latency sample, if any,
//! to push to the stats sink.
//!
//! The whole transition relation is written out as the specification
//! functions [`read_step`] and [`write_step`]; the executable methods are
//! proved to follow them exactly.

use vstd::prelude::*;

use crate::metrics::{Metric, Sample};

verus! {

/// Capacity, in bytes, of the staging buffer a session reuses for every
/// cycle; one non-blocking read delivers at most this much data.
pub const BUFFER_CAPACITY: usize = 2048;

/// The two sockets of a session, as named in re-arm instructions.
#[derive(Clone, Copy, Debug, PartialEq, Eq, Structural)]
pub enum SocketSide {
    /// The accepted client connection.
    ClientSock,
    /// The dialed backend connection.
    BackendSock,
}

/// Role flag: which peer the session currently reads from and writes to.
///
/// In `Server` mode the session talks to the client socket, in `Client` mode
/// to the backend socket.  The names describe the role the relay itself is
/// playing at that moment, not a network role.
#[derive(Clone, Copy, Debug, PartialEq, Eq, Structural)]
pub enum Mode {
    Server,
    Client,
}

/// Lifecycle of a session.  Monotonic: once `Closed`, a session is only ever
/// removed from the table, never reopened.
#[derive(Clone, Copy, Debug, PartialEq, Eq, Structural)]
pub enum State {
    Open,
    Closed,
}

/// The set of readiness conditions currently requested from the poller for
/// this session's active socket.
#[derive(Clone, Copy, Debug, PartialEq, Eq, Structural)]
pub struct InterestSet {
    pub readable: bool,
    pub writable: bool,
    pub hangup: bool,
}

/// An instruction to (re)register one socket with the poller.
///
/// `oneshot` asks for auto-rearm-once semantics: the registration fires a
/// single time and must be renewed explicitly; without it the registration
/// stays armed.  Registrations are always edge-triggered.
#[derive(Clone, Copy, Debug, PartialEq, Eq, Structural)]
pub struct Rearm {
    pub side: SocketSide,
    pub interest: InterestSet,
    pub oneshot: bool,
}

/// What one session transition asks its caller to do: re-arm at most one
/// socket, and push at most one latency sample to the stats sink.
#[derive(Debug, PartialEq, Eq)]
pub struct Directive {
    pub rearm: Option<Rearm>,
    pub sample: Option<Sample>,
}

/// Outcome of one non-blocking read, as observed at the socket boundary.
#[derive(Debug, PartialEq, Eq)]
pub enum ReadEvent {
    /// No data was available; the read would have blocked.
    WouldBlock,
    /// Bytes delivered by the read.  An empty vector is a zero-byte read,
    /// meaning the peer closed its end.
    Data(Vec<u8>),
    /// The read failed with an error other than would-block.
    Fault,
}

/// Mathematical shape of a [`ReadEvent`].
pub ghost enum ReadEventModel {
    WouldBlock,
    Data(Seq<u8>),
    Fault,
}

impl View for ReadEvent {
    type V = ReadEventModel;

    open spec fn view(&self) -> ReadEventModel {
        match self {
            ReadEvent::WouldBlock => ReadEventModel::WouldBlock,
            ReadEvent::Data(d) => ReadEventModel::Data(d@),
            ReadEvent::Fault => ReadEventModel::Fault,
        }
    }
}

/// Outcome of one non-blocking write, as observed at the socket boundary.
/// A completed write is not distinguished from a partial one: the relay does
/// not loop to drain the buffer, a simplification that is sound for protocol
/// messages small enough to leave in one operation.
#[derive(Clone, Copy, Debug, PartialEq, Eq, Structural)]
pub enum WriteEvent {
    /// The write would have blocked; nothing left the buffer.
    WouldBlock,
    /// The write completed (or partially completed, treated as complete).
    Wrote,
    /// The write failed with an error other than would-block.
    Fault,
}

/// Mathematical shape of a [`Connection`].
pub ghost struct ConnectionModel {
    pub mode: Mode,
    pub state: State,
    /// `None`: the staging buffer is empty and ready to receive a read.
    /// `Some(data)`: it holds `data`, staged to be written out.
    pub staging: Option<Seq<u8>>,
    pub interest: InterestSet,
    /// Slot handle in the session table, set on insertion.
    pub token: Option<usize>,
    /// Clock reading taken when a response was last read from the backend.
    pub t0: Option<u64>,
    /// Clock reading taken when a response was last written to the client.
    pub t1: Option<u64>,
}

/// Result of one transition of the state machine: the successor state plus
/// the caller's instructions.
pub ghost struct StepModel {
    pub next: ConnectionModel,
    pub rearm: Option<Rearm>,
    pub sample: Option<Sample>,
}

/// The opposite role.
pub open spec fn flipped(m: Mode) -> Mode {
    match m {
        Mode::Server => Mode::Client,
        Mode::Client => Mode::Server,
    }
}

/// The socket a session in mode `m` reads from and writes to.
pub open spec fn active_socket(m: Mode) -> SocketSide {
    match m {
        Mode::Server => SocketSide::ClientSock,
        Mode::Client => SocketSide::BackendSock,
    }
}

/// The state of a session as constructed at accept time: open, in `Server`
/// mode (awaiting the client's first request), empty buffer, and hangup-only
/// interest until the first registration asks for more.
pub open spec fn fresh_connection() -> ConnectionModel {
    ConnectionModel {
        mode: Mode::Server,
        state: State::Open,
        staging: None,
        interest: InterestSet { readable: false, writable: false, hangup: true },
        token: None,
        t0: None,
        t1: None,
    }
}

/// Transition taken when the poller reports the session's socket readable
/// and the caller has attempted one non-blocking read with outcome `ev` at
/// clock reading `now`.
///
/// * A readable event while data is still staged means the reusable buffer
///   is not available for a read; the session is closed.
/// * A would-block outcome defers to the other side: the role flips and the
///   other socket is re-armed with the unchanged interest set, touching no
///   timestamp and emitting no sample.
/// * A zero-byte read means the peer closed: the session closes, readable
///   interest is dropped, and nothing is re-armed.
/// * A non-empty read stages the bytes for writing and turns interest from
///   readable to writable.  Reading a request from the client captures the
///   client-turnaround sample `(t1, now)` when `t1` is known and hands the
///   session to the backend side; reading a response from the backend
///   records `t0 = now` and hands the session back to the client side.
/// * A read error drops readable interest and re-arms the client socket;
///   the session is left open.
pub open spec fn read_step(m: ConnectionModel, ev: ReadEventModel, now: u64) -> StepModel {
    if m.staging is Some {
        StepModel {
            next: ConnectionModel {
                state: State::Closed,
                interest: InterestSet { readable: false, ..m.interest },
                ..m
            },
            rearm: None,
            sample: None,
        }
    } else {
        match ev {
            ReadEventModel::WouldBlock => StepModel {
                next: ConnectionModel { mode: flipped(m.mode), ..m },
                rearm: Some(
                    Rearm {
                        side: active_socket(flipped(m.mode)),
                        interest: m.interest,
                        oneshot: false,
                    },
                ),
                sample: None,
            },
            ReadEventModel::Data(bytes) => if bytes.len() == 0 {
                StepModel {
                    next: ConnectionModel {
                        state: State::Closed,
                        interest: InterestSet { readable: false, ..m.interest },
                        ..m
                    },
                    rearm: None,
                    sample: None,
                }
            } else {
                let staged_interest = InterestSet {
                    readable: false,
                    writable: true,
                    hangup: m.interest.hangup,
                };
                match m.mode {
                    Mode::Server => StepModel {
                        next: ConnectionModel {
                            mode: Mode::Client,
                            staging: Some(bytes),
                            interest: staged_interest,
                            ..m
                        },
                        rearm: Some(
                            Rearm {
                                side: SocketSide::BackendSock,
                                interest: staged_interest,
                                oneshot: false,
                            },
                        ),
                        sample: match m.t1 {
                            Some(t1) => Some(Sample { start: t1, stop: now, metric: Metric::Backend }),
                            None => None,
                        },
                    },
                    Mode::Client => StepModel {
                        next: ConnectionModel {
                            mode: Mode::Server,
                            staging: Some(bytes),
                            interest: staged_interest,
                            t0: Some(now),
                            ..m
                        },
                        rearm: Some(
                            Rearm {
                                side: SocketSide::ClientSock,
                                interest: staged_interest,
                                oneshot: false,
                            },
                        ),
                        sample: None,
                    },
                }
            },
            ReadEventModel::Fault => {
                let reduced = InterestSet { readable: false, ..m.interest };
                StepModel {
                    next: ConnectionModel { interest: reduced, ..m },
                    rearm: Some(
                        Rearm { side: SocketSide::ClientSock, interest: reduced, oneshot: false },
                    ),
                    sample: None,
                }
            },
        }
    }
}

/// Transition taken when the poller reports the session's socket writable
/// and the caller has attempted one non-blocking write of the staged bytes
/// with outcome `ev` at clock reading `now`.  Meaningful only while data is
/// staged; with an empty buffer it changes nothing.
///
/// * A would-block outcome keeps the data staged, adds writable interest
///   and re-arms the client socket once.
/// * A completed write empties the buffer and turns interest from writable
///   to readable.  Writing a response to the client records `t1 = now`;
///   writing a request to the backend captures the full-cycle sample
///   `(t0, now)` when `t0` is known.  Either way the socket just written is
///   re-armed for reading.
/// * A write error changes no state and re-arms the client socket once with
///   the current interest set.
pub open spec fn write_step(m: ConnectionModel, ev: WriteEvent, now: u64) -> StepModel {
    if m.staging is None {
        StepModel { next: m, rearm: None, sample: None }
    } else {
        match ev {
            WriteEvent::WouldBlock => {
                let widened = InterestSet { writable: true, ..m.interest };
                StepModel {
                    next: ConnectionModel { interest: widened, ..m },
                    rearm: Some(
                        Rearm { side: SocketSide::ClientSock, interest: widened, oneshot: true },
                    ),
                    sample: None,
                }
            },
            WriteEvent::Wrote => {
                let drained_interest = InterestSet {
                    readable: true,
                    writable: false,
                    hangup: m.interest.hangup,
                };
                match m.mode {
                    Mode::Server => StepModel {
                        next: ConnectionModel {
                            staging: None,
                            interest: drained_interest,
                            t1: Some(now),
                            ..m
                        },
                        rearm: Some(
                            Rearm {
                                side: SocketSide::ClientSock,
                                interest: drained_interest,
                                oneshot: false,
                            },
                        ),
                        sample: None,
                    },
                    Mode::Client => StepModel {
                        next: ConnectionModel { staging: None, interest: drained_interest, ..m },
                        rearm: Some(
                            Rearm {
                                side: SocketSide::BackendSock,
                                interest: drained_interest,
                                oneshot: false,
                            },
                        ),
                        sample: match m.t0 {
                            Some(t0) => Some(
                                Sample { start: t0, stop: now, metric: Metric::Frontend },
                            ),
                            None => None,
                        },
                    },
                }
            },
            WriteEvent::Fault => StepModel {
                next: m,
                rearm: Some(
                    Rearm { side: SocketSide::ClientSock, interest: m.interest, oneshot: true },
                ),
                sample: None,
            },
        }
    }
}

/// Byte fidelity: the bytes a read delivers are staged exactly, unaltered
/// and in full, and a completed write hands that staged data on and empties
/// the buffer.  What the relay forwards is therefore byte-for-byte what it
/// received.
pub proof fn lemma_byte_fidelity(m: ConnectionModel, bytes: Seq<u8>, t_read: u64, t_write: u64)
    requires
        m.staging is None,
        bytes.len() > 0,
    ensures
        read_step(m, ReadEventModel::Data(bytes), t_read).next.staging == Some(bytes),
        write_step(
            read_step(m, ReadEventModel::Data(bytes), t_read).next,
            WriteEvent::Wrote,
            t_write,
        ).next.staging is None,
{
}

/// Would-block deferral: an attempt that could not make progress advances
/// no timestamp, emits no sample, and leaves the staged data as it was.
pub proof fn lemma_would_block_defers(m: ConnectionModel, now: u64)
    ensures
        read_step(m, ReadEventModel::WouldBlock, now).next.t0 == m.t0,
        read_step(m, ReadEventModel::WouldBlock, now).next.t1 == m.t1,
        read_step(m, ReadEventModel::WouldBlock, now).next.staging == m.staging,
        read_step(m, ReadEventModel::WouldBlock, now).sample is None,
        write_step(m, WriteEvent::WouldBlock, now).next.t0 == m.t0,
        write_step(m, WriteEvent::WouldBlock, now).next.t1 == m.t1,
        write_step(m, WriteEvent::WouldBlock, now).next.staging == m.staging,
        write_step(m, WriteEvent::WouldBlock, now).sample is None,
{
}

/// Cycle ordering: over one full cycle — response read from the backend at
/// `t_read_resp`, delivered to the client at `t_write_resp`, next request
/// read from the client at `t_read_req` and forwarded to the backend at
/// `t_write_req`, with the four clock readings strictly increasing — the
/// four transitions emit exactly two samples: one `Backend` sample
/// `(t_write_resp, t_read_req)` and one `Frontend` sample
/// `(t_read_resp, t_write_req)`, each with start strictly before end, and
/// the session returns to the shape it started the cycle in.
pub proof fn lemma_cycle_samples(
    m: ConnectionModel,
    resp: Seq<u8>,
    req: Seq<u8>,
    t_read_resp: u64,
    t_write_resp: u64,
    t_read_req: u64,
    t_write_req: u64,
)
    requires
        m.mode is Client,
        m.staging is None,
        resp.len() > 0,
        req.len() > 0,
        t_read_resp < t_write_resp,
        t_write_resp < t_read_req,
        t_read_req < t_write_req,
    ensures
        ({
            let s1 = read_step(m, ReadEventModel::Data(resp), t_read_resp);
            let s2 = write_step(s1.next, WriteEvent::Wrote, t_write_resp);
            let s3 = read_step(s2.next, ReadEventModel::Data(req), t_read_req);
            let s4 = write_step(s3.next, WriteEvent::Wrote, t_write_req);
            &&& s1.sample is None
            &&& s2.sample is None
            &&& s3.sample == Some(
                Sample { start: t_write_resp, stop: t_read_req, metric: Metric::Backend },
            )
            &&& s4.sample == Some(
                Sample { start: t_read_resp, stop: t_write_req, metric: Metric::Frontend },
            )
            &&& s3.sample.unwrap().start < s3.sample.unwrap().stop
            &&& s4.sample.unwrap().start < s4.sample.unwrap().stop
            &&& s4.next.mode is Client
            &&& s4.next.staging is None
            &&& s4.next.state == m.state
            &&& s4.next.t0 == Some(t_read_resp)
            &&& s4.next.t1 == Some(t_write_resp)
        }),
{
}

/// A session's staging buffer never outgrows its fixed capacity.
pub open spec fn connection_wf(m: ConnectionModel) -> bool {
    match m.staging {
        Some(data) => data.len() <= BUFFER_CAPACITY,
        None => true,
    }
}

/// One relay session: one accepted client paired with one dialed backend
/// connection, the reusable staging buffer, the readiness interest set, and
/// the two timestamps that anchor the per-cycle latency samples.  The
/// sockets themselves are owned by the surrounding program.
pub struct Connection {
    mode: Mode,
    state: State,
    staging: Option<Vec<u8>>,
    interest: InterestSet,
    token: Option<usize>,
    t0: Option<u64>,
    t1: Option<u64>,
}

impl View for Connection {
    type V = ConnectionModel;

    closed spec fn view(&self) -> ConnectionModel {
        ConnectionModel {
            mode: self.mode,
            state: self.state,
            staging: match self.staging {
                Some(v) => Some(v@),
                None => None,
            },
            interest: self.interest,
            token: self.token,
            t0: self.t0,
            t1: self.t1,
        }
    }
}

impl Connection {
    /// A fresh session as built at accept time.
    pub fn new() -> (c: Connection)
        ensures
            c@ == fresh_connection(),
    {
        Connection {
            mode: Mode::Server,
            state: State::Open,
            staging: None,
            interest: InterestSet { readable: false, writable: false, hangup: true },
            token: None,
            t0: None,
            t1: None,
        }
    }

    /// Store the table handle on the session.
    pub fn set_token(&mut self, token: usize)
        ensures
            final(self)@ == (ConnectionModel { token: Some(token), ..old(self)@ }),
    {
        self.token = Some(token);
    }

    /// True once the session has closed; a closed session is only ever
    /// removed, never reopened.
    pub fn is_closed(&self) -> (r: bool)
        ensures
            r <==> self@.state is Closed,
    {
        match self.state {
            State::Closed => true,
            State::Open => false,
        }
    }

    /// The bytes currently staged for writing, if any.  The caller hands
    /// exactly these bytes to the next non-blocking write.
    pub fn staged(&self) -> (r: Option<&Vec<u8>>)
        ensures
            match r {
                Some(v) => self@.staging == Some(v@),
                None => self@.staging is None,
            },
    {
        match &self.staging {
            Some(v) => Some(v),
            None => None,
        }
    }

    /// The socket the session currently reads from and writes to, as
    /// picked by its role flag.
    pub fn active_side(&self) -> (s: SocketSide)
        ensures
            s == active_socket(self@.mode),
    {
        match self.mode {
            Mode::Server => SocketSide::ClientSock,
            Mode::Client => SocketSide::BackendSock,
        }
    }

    /// The timestamps currently anchored on the session: the last backend
    /// response read (`t0`) and the last response delivery to the client
    /// (`t1`).
    pub fn timestamps(&self) -> (r: (Option<u64>, Option<u64>))
        ensures
            r.0 == self@.t0,
            r.1 == self@.t1,
    {
        (self.t0, self.t1)
    }

    /// Apply one readable-readiness transition; see [`read_step`] for the
    /// transition relation this is proved to follow.
    pub fn readable(&mut self, ev: ReadEvent, now: u64) -> (d: Directive)
        requires
            ev@ matches ReadEventModel::Data(bytes) ==> bytes.len() <= BUFFER_CAPACITY,
        ensures
            ({
                let step = read_step(old(self)@, ev@, now);
                &&& final(self)@ == step.next
                &&& d.rearm == step.rearm
                &&& d.sample == step.sample
            }),
            connection_wf(old(self)@) ==> connection_wf(final(self)@),
    {
        if self.staging.is_some() {
            self.state = State::Closed;
            self.interest.readable = false;
            return Directive { rearm: None, sample: None };
        }
        match ev {
            ReadEvent::WouldBlock => {
                let other = match self.mode {
                    Mode::Server => Mode::Client,
                    Mode::Client => Mode::Server,
                };
                self.mode = other;
                let side = match other {
                    Mode::Server => SocketSide::ClientSock,
                    Mode::Client => SocketSide::BackendSock,
                };
                Directive {
                    rearm: Some(Rearm { side, interest: self.interest, oneshot: false }),
                    sample: None,
                }
            },
            ReadEvent::Data(bytes) => {
                if bytes.len() == 0 {
                    self.state = State::Closed;
                    self.interest.readable = false;
                    return Directive { rearm: None, sample: None };
                }
                let staged_interest = InterestSet {
                    readable: false,
                    writable: true,
                    hangup: self.interest.hangup,
                };
                self.staging = Some(bytes);
                self.interest = staged_interest;
                match self.mode {
                    Mode::Server => {
                        let sample = match self.t1 {
                            Some(t1) => Some(
                                Sample { start: t1, stop: now, metric: Metric::Backend },
                            ),
                            None => None,
                        };
                        self.mode = Mode::Client;
                        Directive {
                            rearm: Some(
                                Rearm {
                                    side: SocketSide::BackendSock,
                                    interest: staged_interest,
                                    oneshot: false,
                                },
                            ),
                            sample,
                        }
                    },
                    Mode::Client => {
                        self.t0 = Some(now);
                        self.mode = Mode::Server;
                        Directive {
                            rearm: Some(
                                Rearm {
                                    side: SocketSide::ClientSock,
                                    interest: staged_interest,
                                    oneshot: false,
                                },
                            ),
                            sample: None,
                        }
                    },
                }
            },
            ReadEvent::Fault => {
                self.interest.readable = false;
                Directive {
                    rearm: Some(
                        Rearm {
                            side: SocketSide::ClientSock,
                            interest: self.interest,
                            oneshot: false,
                        },
                    ),
                    sample: None,
                }
            },
        }
    }

    /// Apply one writable-readiness transition; see [`write_step`] for the
    /// transition relation this is proved to follow.  Callers only report a
    /// write outcome while data is staged, since there is nothing to write
    /// otherwise.
    pub fn writable(&mut self, ev: WriteEvent, now: u64) -> (d: Directive)
        requires
            old(self)@.staging is Some,
        ensures
            ({
                let step = write_step(old(self)@, ev, now);
                &&& final(self)@ == step.next
                &&& d.rearm == step.rearm
                &&& d.sample == step.sample
            }),
            connection_wf(old(self)@) ==> connection_wf(final(self)@),
    {
        match ev {
            WriteEvent::WouldBlock => {
                self.interest.writable = true;
                Directive {
                    rearm: Some(
                        Rearm { side: SocketSide::ClientSock, interest: self.interest, oneshot: true },
                    ),
                    sample: None,
                }
            },
            WriteEvent::Wrote => {
                let drained_interest = InterestSet {
                    readable: true,
                    writable: false,
                    hangup: self.interest.hangup,
                };
                self.staging = None;
                self.interest = drained_interest;
                match self.mode {
                    Mode::Server => {
                        self.t1 = Some(now);
                        Directive {
                            rearm: Some(
                                Rearm {
                                    side: SocketSide::ClientSock,
                                    interest: drained_interest,
                                    oneshot: false,
                                },
                            ),
                            sample: None,
                        }
                    },
                    Mode::Client => {
                        let sample = match self.t0 {
                            Some(t0) => Some(
                                Sample { start: t0, stop: now, metric: Metric::Frontend },
                            ),
                            None => None,
                        };
                        Directive {
                            rearm: Some(
                                Rearm {
                                    side: SocketSide::BackendSock,
                                    interest: drained_interest,
                                    oneshot: false,
                                },
                            ),
                            sample,
                        }
                    },
                }
            },
            WriteEvent::Fault => Directive {
                rearm: Some(
                    Rearm { side: SocketSide::ClientSock, interest: self.interest, oneshot: true },
                ),
                sample: None,
            },
        }
    }
}

} // verus!
