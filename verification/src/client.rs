//! A scripted test client.
//!
//! The [`Client`] drives one socket through a list of scripted messages:
//! it sends each message and expects to read exactly the same bytes back,
//! one message at a time.  As with [`crate::connection`], the surrounding
//! program owns the socket and reports each non-blocking outcome here; the
//! client tracks how much of the current message has been sent, checks the
//! echoed reply byte-for-byte against the script, and advances to the next
//! message once the echo is complete.  A reply that deviates from the
//! script is reported rather than tolerated.

use vstd::prelude::*;

use crate::connection::{InterestSet, ReadEvent, ReadEventModel};

verus! {

/// Outcome of one non-blocking send of the pending bytes.
#[derive(Clone, Copy, Debug, PartialEq, Eq, Structural)]
pub enum SendOutcome {
    /// The send would have blocked; nothing left the buffer.
    WouldBlock,
    /// This many bytes were accepted by the socket.
    Sent(usize),
    /// The send failed with an error other than would-block.
    Fault,
}

/// Mathematical shape of a [`Client`].
pub ghost struct ClientModel {
    /// The messages still to be exchanged after the current one.
    pub msgs: Seq<Seq<u8>>,
    /// The message currently in flight.
    pub current: Seq<u8>,
    /// How many bytes of `current` have been sent.
    pub tx_pos: int,
    /// How many bytes of the echoed reply have been checked.
    pub rx_pos: int,
    /// The poller token of the client's socket.
    pub token: usize,
    /// The readiness interest to register the socket with.
    pub interest: InterestSet,
}

/// Positions never run past the message in flight.
pub open spec fn client_wf(m: ClientModel) -> bool {
    &&& 0 <= m.tx_pos <= m.current.len()
    &&& 0 <= m.rx_pos <= m.current.len()
}

/// Moving on to the next scripted message: it becomes the message in
/// flight with both positions reset and write interest requested.  With an
/// empty script nothing changes.
pub open spec fn client_advance(m: ClientModel) -> ClientModel {
    if m.msgs.len() == 0 {
        m
    } else {
        ClientModel {
            msgs: m.msgs.drop_first(),
            current: m.msgs.first(),
            tx_pos: 0,
            rx_pos: 0,
            interest: InterestSet { writable: true, ..m.interest },
            ..m
        }
    }
}

/// Transition for one send outcome: a completed send advances the send
/// position and turns interest from writable to readable (a partial send
/// is treated the same way); a would-block adds writable interest; an
/// error changes nothing.
pub open spec fn client_write_step(m: ClientModel, ev: SendOutcome) -> ClientModel {
    match ev {
        SendOutcome::WouldBlock => ClientModel {
            interest: InterestSet { writable: true, ..m.interest },
            ..m
        },
        SendOutcome::Sent(n) => ClientModel {
            tx_pos: m.tx_pos + n,
            interest: InterestSet {
                readable: true,
                writable: false,
                hangup: m.interest.hangup,
            },
            ..m
        },
        SendOutcome::Fault => m,
    }
}

/// Transition for one read outcome together with whether the reply matched
/// the script.
pub ghost struct ClientReadModel {
    pub next: ClientModel,
    /// False exactly when the delivered bytes deviate from (or overrun)
    /// the expected echo of the message in flight.
    pub matched: bool,
}

/// Transition for one read outcome: delivered bytes are checked against
/// the next expected bytes of the echo.  A match advances the check
/// position and drops readable interest; completing the echo moves on to
/// the next scripted message.  A mismatching or overlong reply is reported
/// and changes nothing; a would-block changes nothing.
pub open spec fn client_read_step(m: ClientModel, ev: ReadEventModel) -> ClientReadModel {
    match ev {
        ReadEventModel::WouldBlock => ClientReadModel { next: m, matched: true },
        ReadEventModel::Data(bytes) => if m.rx_pos + bytes.len() <= m.current.len() && bytes
            == m.current.subrange(m.rx_pos, m.rx_pos + bytes.len()) {
            let checked = ClientModel {
                rx_pos: m.rx_pos + bytes.len(),
                interest: InterestSet { readable: false, ..m.interest },
                ..m
            };
            if m.rx_pos + bytes.len() == m.current.len() {
                ClientReadModel { next: client_advance(checked), matched: true }
            } else {
                ClientReadModel { next: checked, matched: true }
            }
        } else {
            ClientReadModel { next: m, matched: false }
        },
        ReadEventModel::Fault => ClientReadModel { next: m, matched: false },
    }
}

/// What [`Client::readable`] hands back: the verdict on the reply and the
/// interest set to re-register the socket with (edge-triggered,
/// auto-rearm-once).
#[derive(Clone, Copy, Debug, PartialEq, Eq, Structural)]
pub struct ClientReadOutcome {
    pub matched: bool,
    pub interest: InterestSet,
}

/// The scripted client: the remaining script, the message in flight with
/// its send and check positions, and the socket's registration data.
pub struct Client {
    msgs: Vec<Vec<u8>>,
    current: Vec<u8>,
    tx_pos: usize,
    rx_pos: usize,
    token: usize,
    interest: InterestSet,
}

impl View for Client {
    type V = ClientModel;

    closed spec fn view(&self) -> ClientModel {
        ClientModel {
            msgs: self.msgs.deep_view(),
            current: self.current@,
            tx_pos: self.tx_pos as int,
            rx_pos: self.rx_pos as int,
            token: self.token,
            interest: self.interest,
        }
    }
}

impl Client {
    /// The invariant; established by [`Client::new`] and preserved by every
    /// operation.
    pub open spec fn wf(&self) -> bool {
        client_wf(self@)
    }

    /// A client about to send the first message of a non-empty script.
    pub fn new(token: usize, msgs: Vec<Vec<u8>>) -> (c: Client)
        requires
            msgs@.len() > 0,
        ensures
            c.wf(),
            c@.msgs == msgs.deep_view().drop_first(),
            c@.current == msgs.deep_view().first(),
            c@.tx_pos == 0,
            c@.rx_pos == 0,
            c@.token == token,
            c@.interest == (InterestSet { readable: false, writable: false, hangup: false }),
    {
        let mut rest = msgs;
        let first = rest.remove(0);
        let c = Client {
            msgs: rest,
            current: first,
            tx_pos: 0,
            rx_pos: 0,
            token,
            interest: InterestSet { readable: false, writable: false, hangup: false },
        };
        proof {
            assert(c@.msgs =~= msgs.deep_view().drop_first());
        }
        c
    }

    /// The message currently in flight.
    pub fn message(&self) -> (m: &Vec<u8>)
        ensures
            m@ == self@.current,
    {
        &self.current
    }

    /// How many bytes of the message in flight have been sent, and how
    /// many bytes of its echo have been checked.
    pub fn progress(&self) -> (p: (usize, usize))
        ensures
            p.0 == self@.tx_pos,
            p.1 == self@.rx_pos,
    {
        (self.tx_pos, self.rx_pos)
    }

    /// How many scripted messages are still queued after the current one.
    pub fn queued(&self) -> (n: usize)
        ensures
            n == self@.msgs.len(),
    {
        self.msgs.len()
    }

    /// The poller token of the client's socket.
    pub fn token(&self) -> (t: usize)
        ensures
            t == self@.token,
    {
        self.token
    }

    /// The readiness interest the socket should currently be registered
    /// with.
    pub fn interest(&self) -> (i: InterestSet)
        ensures
            i == self@.interest,
    {
        self.interest
    }

    /// Report the outcome of sending the pending bytes of the message in
    /// flight; proved to follow [`client_write_step`].  Returns the
    /// interest set to re-register the socket with (edge-triggered,
    /// auto-rearm-once).
    pub fn writable(&mut self, ev: SendOutcome) -> (interest: InterestSet)
        requires
            old(self).wf(),
            ev matches SendOutcome::Sent(n) ==> n <= old(self)@.current.len() - old(self)@.tx_pos,
        ensures
            final(self).wf(),
            final(self)@ == client_write_step(old(self)@, ev),
            interest == final(self)@.interest,
    {
        match ev {
            SendOutcome::WouldBlock => {
                self.interest = InterestSet { writable: true, ..self.interest };
            },
            SendOutcome::Sent(n) => {
                let limit = self.current.len();
                proof {
                    assert(self.tx_pos + n <= limit);
                }
                self.tx_pos = self.tx_pos + n;
                self.interest = InterestSet {
                    readable: true,
                    writable: false,
                    hangup: self.interest.hangup,
                };
            },
            SendOutcome::Fault => {},
        }
        self.interest
    }

    /// Report the outcome of one non-blocking read of the echoed reply;
    /// proved to follow [`client_read_step`].  The delivered bytes are
    /// checked byte-for-byte against the expected echo; a deviation is
    /// reported in the outcome with the client left as it was.  Callers do
    /// not report read errors here, since there is no scripted way to
    /// continue after one.
    pub fn readable(&mut self, ev: ReadEvent) -> (r: ClientReadOutcome)
        requires
            old(self).wf(),
            !(ev@ is Fault),
        ensures
            final(self).wf(),
            final(self)@ == client_read_step(old(self)@, ev@).next,
            r.matched == client_read_step(old(self)@, ev@).matched,
            r.interest == final(self)@.interest,
    {
        match ev {
            ReadEvent::WouldBlock => ClientReadOutcome { matched: true, interest: self.interest },
            ReadEvent::Data(bytes) => {
                let n = bytes.len();
                let remaining = self.current.len() - self.rx_pos;
                if n > remaining {
                    return ClientReadOutcome { matched: false, interest: self.interest };
                }
                let ghost base = self.rx_pos as int;
                let mut j: usize = 0;
                let mut all_match = true;
                while j < n && all_match
                    invariant
                        n == bytes@.len(),
                        base == self.rx_pos as int,
                        0 <= base,
                        base + n <= self.current@.len(),
                        self.current@.len() <= usize::MAX,
                        j <= n,
                        all_match ==> forall|k: int|
                            0 <= k < j ==> bytes@[k] == self.current@[base + k],
                        !all_match ==> bytes@ != self.current@.subrange(base, base + n),
                    decreases n - j + if all_match {
                        1int
                    } else {
                        0
                    },
                {
                    if bytes[j] != self.current[self.rx_pos + j] {
                        proof {
                            if bytes@ == self.current@.subrange(base, base + n) {
                                assert(bytes@[j as int] == self.current@.subrange(
                                    base,
                                    base + n,
                                )[j as int]);
                            }
                        }
                        all_match = false;
                    } else {
                        j = j + 1;
                    }
                }
                if !all_match {
                    return ClientReadOutcome { matched: false, interest: self.interest };
                }
                proof {
                    assert(bytes@ =~= self.current@.subrange(base, base + n));
                }
                self.rx_pos = self.rx_pos + n;
                self.interest = InterestSet { readable: false, ..self.interest };
                if self.rx_pos == self.current.len() {
                    let _advanced = self.next_msg();
                }
                ClientReadOutcome { matched: true, interest: self.interest }
            },
            ReadEvent::Fault => {
                proof {
                    assert(false);
                }
                ClientReadOutcome { matched: false, interest: self.interest }
            },
        }
    }

    /// Move on to the next scripted message, if one is queued; proved to
    /// follow [`client_advance`].
    pub fn next_msg(&mut self) -> (advanced: bool)
        requires
            old(self).wf(),
        ensures
            final(self).wf(),
            final(self)@ == client_advance(old(self)@),
            advanced <==> old(self)@.msgs.len() > 0,
    {
        if self.msgs.len() == 0 {
            return false;
        }
        let next = self.msgs.remove(0);
        self.current = next;
        self.tx_pos = 0;
        self.rx_pos = 0;
        self.interest = InterestSet { writable: true, ..self.interest };
        proof {
            assert(self@.msgs =~= old(self)@.msgs.drop_first());
            assert(self@.current =~= old(self)@.msgs.first());
        }
        true
    }
}

} // verus!
