//! A serial port over a byte pipe to the peer process, with a bounded wait.

use vstd::prelude::*;

use crate::mmu::{requested, Interrupt, Memory};
use crate::transfer::{NO_PEER_DATA, SERIAL_CONTROL_INDEX, SERIAL_DATA_INDEX};

verus! {

/// Steps a side waits for the peer's byte before it gives the transfer up.
pub const TIMEOUT: u8 = 8;

/// The byte stream to the peer process, as two queues: bytes sent and not
/// yet written out to the peer, and bytes come in from the peer and not yet
/// polled. The process around the port moves bytes between these queues and
/// the stream, so that the port itself never blocks.
pub struct BytePipe {
    outgoing: Vec<u8>,
    incoming: Vec<u8>,
}

impl BytePipe {
    /// Bytes sent and not yet taken out.
    pub closed spec fn outgoing_spec(&self) -> Seq<u8> {
        self.outgoing@
    }

    /// Bytes come in and not yet polled, oldest first.
    pub closed spec fn incoming_spec(&self) -> Seq<u8> {
        self.incoming@
    }

    pub fn new() -> (r: BytePipe)
        ensures
            r.outgoing_spec() == Seq::<u8>::empty(),
            r.incoming_spec() == Seq::<u8>::empty(),
    {
        BytePipe { outgoing: Vec::new(), incoming: Vec::new() }
    }

    /// Queues `byte` for the peer.
    pub fn send(&mut self, byte: u8)
        ensures
            final(self).outgoing_spec() == old(self).outgoing_spec().push(byte),
            final(self).incoming_spec() == old(self).incoming_spec(),
    {
        self.outgoing.push(byte);
    }

    /// The oldest byte come in from the peer, if any; never blocks.
    pub fn poll(&mut self) -> (r: Option<u8>)
        ensures
            final(self).outgoing_spec() == old(self).outgoing_spec(),
            r == polled(old(self).incoming_spec()),
            final(self).incoming_spec() == after_poll(old(self).incoming_spec()),
    {
        if self.incoming.len() > 0 {
            let b = self.incoming.remove(0);
            assert(self.incoming@ =~= old(self).incoming@.drop_first());
            Some(b)
        } else {
            None
        }
    }

    /// Queues a byte that came in from the peer.
    pub fn deliver(&mut self, byte: u8)
        ensures
            final(self).outgoing_spec() == old(self).outgoing_spec(),
            final(self).incoming_spec() == old(self).incoming_spec().push(byte),
    {
        self.incoming.push(byte);
    }

    /// Takes out the bytes sent so far, oldest first, to write them to the peer.
    pub fn take_outgoing(&mut self) -> (r: Vec<u8>)
        ensures
            r@ == old(self).outgoing_spec(),
            final(self).outgoing_spec() == Seq::<u8>::empty(),
            final(self).incoming_spec() == old(self).incoming_spec(),
    {
        let mut r: Vec<u8> = Vec::new();
        std::mem::swap(&mut r, &mut self.outgoing);
        r
    }
}

/// What polling the incoming bytes `incoming` yields: the oldest, if any.
pub open spec fn polled(incoming: Seq<u8>) -> Option<u8> {
    if incoming.len() > 0 {
        Some(incoming[0])
    } else {
        None
    }
}

/// The incoming bytes after a poll.
pub open spec fn after_poll(incoming: Seq<u8>) -> Seq<u8> {
    if incoming.len() > 0 {
        incoming.drop_first()
    } else {
        incoming
    }
}

/// The bus after a byte `b` came in: the data register holds it, the
/// control register's transfer request is cleared and the serial interrupt
/// is requested.
pub open spec fn byte_received(bus: Seq<u8>, b: u8) -> Seq<u8> {
    requested(
        bus.update(SERIAL_DATA_INDEX as int, b).update(
            SERIAL_CONTROL_INDEX as int,
            bus[SERIAL_CONTROL_INDEX as int] & 0x7F,
        ),
        Interrupt::Serial,
    )
}

/// The bytes of an optional byte, as a sequence.
pub open spec fn bytes_of(b: Option<u8>) -> Seq<u8> {
    match b {
        Some(v) => seq![v],
        None => Seq::empty(),
    }
}

/// One step of a pipe port in state `state` (wait flag, waited steps, byte on
/// hand; `None` without a cable) on the registers `sd` and `sc`, where
/// `polled` is what the pipe yields if it is polled: the next state, the byte
/// sent to the peer, and the byte delivered to the registers.
///
/// A port that is not waiting sends the data byte when the control register
/// requests a transfer, and starts waiting when it also drives the clock. A
/// byte on hand, or else a polled one, is delivered and the port goes idle.
/// Without a byte, a waiting port gives up once it has waited `TIMEOUT`
/// steps, and counts one more step otherwise.
pub open spec fn pipe_step(state: Option<(bool, u8, Option<u8>)>, sd: u8, sc: u8, polled: Option<u8>) -> (
    Option<(bool, u8, Option<u8>)>,
    Option<u8>,
    Option<u8>,
) {
    match state {
        None => (None, None, None),
        Some((w, c, b)) => {
            let to_send = if !w && sc & 0x80 == 0x80 {
                Some(sd)
            } else {
                None
            };
            let w1 = if !w && sc & 0x81 == 0x81 {
                true
            } else {
                w
            };
            let b1 = if b is Some {
                b
            } else {
                polled
            };
            match b1 {
                Some(v) => (Some((false, 0u8, None)), to_send, Some(v)),
                None => if w1 && c >= TIMEOUT {
                    (Some((false, 0u8, None)), to_send, None)
                } else if w1 {
                    (Some((w1, (c + 1) as u8, None)), to_send, None)
                } else {
                    (Some((w1, c, None)), to_send, None)
                },
            }
        },
    }
}

/// The incoming bytes after a step of a port in state `state`: a linked
/// port without a byte on hand polls once.
pub open spec fn incoming_after_step(state: Option<(bool, u8, Option<u8>)>, incoming: Seq<u8>) -> Seq<u8> {
    match state {
        Some((w, c, b)) => if b is Some {
            incoming
        } else {
            after_poll(incoming)
        },
        None => incoming,
    }
}

/// A serial port that sends each byte as it is written and waits a bounded
/// number of steps for the peer's byte.
pub trait ByteTransfer {
    /// Wait flag, waited steps and byte on hand of a linked port; `None`
    /// for a port without a cable.
    spec fn state(&self) -> Option<(bool, u8, Option<u8>)>;

    /// The bytes handed to the pipe and not yet taken out of it.
    spec fn sent(&self) -> Seq<u8>;

    /// The bytes come in through the pipe and not yet polled.
    spec fn incoming(&self) -> Seq<u8>;

    /// Hands `byte` to the pipe of a linked port.
    fn send(&mut self, byte: u8)
        ensures
            final(self).state() == old(self).state(),
            final(self).incoming() == old(self).incoming(),
            final(self).sent() == if old(self).state() is Some {
                old(self).sent().push(byte)
            } else {
                old(self).sent()
            },
    ;

    /// Takes the byte on hand; `NO_PEER_DATA` where there is none.
    fn receive(&mut self) -> (r: u8)
        ensures
            final(self).sent() == old(self).sent(),
            final(self).incoming() == old(self).incoming(),
            match old(self).state() {
                Some((w, c, b)) => final(self).state() == Some((w, c, None::<u8>)) && r == match b {
                    Some(v) => v,
                    None => NO_PEER_DATA,
                },
                None => final(self).state() is None && r == NO_PEER_DATA,
            },
    ;

    fn wait(&mut self)
        ensures
            final(self).sent() == old(self).sent(),
            final(self).incoming() == old(self).incoming(),
            match old(self).state() {
                Some((w, c, b)) => final(self).state() == Some((true, c, b)),
                None => final(self).state() is None,
            },
    ;

    fn idle(&mut self)
        ensures
            final(self).sent() == old(self).sent(),
            final(self).incoming() == old(self).incoming(),
            match old(self).state() {
                Some((w, c, b)) => final(self).state() == Some((false, 0u8, b)),
                None => final(self).state() is None,
            },
    ;

    /// Counts one more step of waiting.
    fn count(&mut self)
        requires
            old(self).state() matches Some((w, c, b)) ==> c < 255,
        ensures
            final(self).sent() == old(self).sent(),
            final(self).incoming() == old(self).incoming(),
            match old(self).state() {
                Some((w, c, b)) => final(self).state() == Some((w, (c + 1) as u8, b)),
                None => final(self).state() is None,
            },
    ;

    /// A port without a cable counts as waiting, so that it never sends.
    fn waiting(&self) -> (r: bool)
        ensures
            r == match self.state() {
                Some((w, c, b)) => w,
                None => true,
            },
    ;

    fn timeout(&self) -> (r: bool)
        ensures
            r == match self.state() {
                Some((w, c, b)) => c >= TIMEOUT,
                None => false,
            },
    ;

    /// Whether a byte from the peer is on hand; polls the pipe when none is.
    fn received(&mut self) -> (r: bool)
        ensures
            final(self).sent() == old(self).sent(),
            final(self).incoming() == incoming_after_step(old(self).state(), old(self).incoming()),
            match old(self).state() {
                Some((w, c, b)) => {
                    let b2 = if b is Some {
                        b
                    } else {
                        polled(old(self).incoming())
                    };
                    final(self).state() == Some((w, c, b2)) && r == b2 is Some
                },
                None => final(self).state() is None && !r,
            },
    ;

    fn disconnected(&self) -> (r: bool)
        ensures
            r == self.state() is None,
    ;

    /// One step against the serial registers of the bus, as `pipe_step`
    /// says for what a poll of the pipe yields: the sent byte goes to the
    /// pipe, and a delivered byte lands in the data register with the serial
    /// interrupt; the bus changes in no other way.
    fn step(&mut self, mmu: &mut Memory)
        requires
            old(mmu).wf(),
        ensures
            final(mmu).wf(),
            ({
                let t = pipe_step(
                    old(self).state(),
                    old(mmu)@[SERIAL_DATA_INDEX as int],
                    old(mmu)@[SERIAL_CONTROL_INDEX as int],
                    polled(old(self).incoming()),
                );
                &&& final(self).state() == t.0
                &&& final(self).sent() == old(self).sent() + bytes_of(t.1)
                &&& final(self).incoming() == incoming_after_step(old(self).state(), old(self).incoming())
                &&& final(mmu)@ == match t.2 {
                    Some(v) => byte_received(old(mmu)@, v),
                    None => old(mmu)@,
                }
            }),
    {
        let sd = mmu.read_byte(SERIAL_DATA_INDEX);
        let sc = mmu.read_byte(SERIAL_CONTROL_INDEX);
        let ghost s0 = self.state();
        let ghost log0 = self.sent();
        let ghost t = pipe_step(s0, sd, sc, polled(self.incoming()));
        if !self.waiting() {
            if sc & 0x80 == 0x80 {
                self.send(sd);
            }
            if sc & 0x81 == 0x81 {
                self.wait();
            }
        }
        assert(self.sent() == log0 + bytes_of(t.1)) by {
            assert(log0.push(sd) =~= log0 + seq![sd]);
            assert(log0 =~= log0 + Seq::<u8>::empty());
        }
        if self.received() {
            let b = self.receive();
            mmu.write_byte(SERIAL_DATA_INDEX, b);
            mmu.write_byte(SERIAL_CONTROL_INDEX, sc & 0x7F);
            mmu.request_interrupt(Interrupt::Serial);
            self.idle();
            assert(mmu@ == byte_received(old(mmu)@, b));
        } else if self.waiting() && self.timeout() {
            self.idle();
        } else if self.waiting() {
            self.count();
        }
        assert(self.state() == t.0);
    }
}

/// The port's state: none, or linked through a pipe with the wait state and
/// a byte that arrived and was not taken yet.
pub enum LinkCable {
    Unlinked,
    Linked { pipe: BytePipe, waiting: bool, counting: u8, receiving: Option<u8> },
}

impl LinkCable {
    /// A linked port, idle, with an empty pipe.
    pub fn linked() -> (r: LinkCable)
        ensures
            r.state() == Some((false, 0u8, None::<u8>)),
            r.sent() == Seq::<u8>::empty(),
            r.incoming() == Seq::<u8>::empty(),
    {
        LinkCable::Linked { pipe: BytePipe::new(), waiting: false, counting: 0, receiving: None }
    }

    /// The port for a process that runs linked (`linked`), or that started a
    /// linked peer (`owning`): without either there is no cable; otherwise
    /// the port is linked, idle, with an empty pipe.
    pub fn from_linkage(linked: bool, owning: bool) -> (r: LinkCable)
        ensures
            !linked && !owning ==> r.state() is None,
            linked || owning ==> r.state() == Some((false, 0u8, None::<u8>)),
            r.sent() == Seq::<u8>::empty(),
            r.incoming() == Seq::<u8>::empty(),
    {
        if !linked && !owning {
            LinkCable::Unlinked
        } else {
            LinkCable::linked()
        }
    }

    /// Takes out the bytes sent so far, to write them to the peer; nothing
    /// for a port without a cable.
    pub fn take_sent(&mut self) -> (r: Vec<u8>)
        ensures
            r@ == old(self).sent(),
            final(self).sent() == Seq::<u8>::empty(),
            final(self).state() == old(self).state(),
            final(self).incoming() == old(self).incoming(),
    {
        match self {
            LinkCable::Unlinked => Vec::new(),
            LinkCable::Linked { pipe, .. } => pipe.take_outgoing(),
        }
    }

    /// Hands a byte read from the peer to a linked port's pipe; a port
    /// without a cable drops it.
    pub fn deliver(&mut self, byte: u8)
        ensures
            final(self).sent() == old(self).sent(),
            final(self).state() == old(self).state(),
            final(self).incoming() == if old(self).state() is Some {
                old(self).incoming().push(byte)
            } else {
                old(self).incoming()
            },
    {
        match self {
            LinkCable::Unlinked => {},
            LinkCable::Linked { pipe, .. } => pipe.deliver(byte),
        }
    }
}

impl ByteTransfer for LinkCable {
    open spec fn state(&self) -> Option<(bool, u8, Option<u8>)> {
        match self {
            LinkCable::Unlinked => None,
            LinkCable::Linked { waiting, counting, receiving, .. } => Some(
                (*waiting, *counting, *receiving),
            ),
        }
    }

    open spec fn sent(&self) -> Seq<u8> {
        match self {
            LinkCable::Unlinked => Seq::empty(),
            LinkCable::Linked { pipe, .. } => pipe.outgoing_spec(),
        }
    }

    open spec fn incoming(&self) -> Seq<u8> {
        match self {
            LinkCable::Unlinked => Seq::empty(),
            LinkCable::Linked { pipe, .. } => pipe.incoming_spec(),
        }
    }

    fn send(&mut self, byte: u8) {
        match self {
            LinkCable::Unlinked => {},
            LinkCable::Linked { pipe, .. } => pipe.send(byte),
        }
    }

    fn receive(&mut self) -> (r: u8) {
        match self {
            LinkCable::Unlinked => NO_PEER_DATA,
            LinkCable::Linked { receiving, .. } => match receiving.take() {
                Some(b) => b,
                None => NO_PEER_DATA,
            },
        }
    }

    fn wait(&mut self) {
        match self {
            LinkCable::Unlinked => {},
            LinkCable::Linked { waiting, .. } => *waiting = true,
        }
    }

    fn idle(&mut self) {
        match self {
            LinkCable::Unlinked => {},
            LinkCable::Linked { waiting, counting, .. } => {
                *waiting = false;
                *counting = 0;
            },
        }
    }

    fn count(&mut self) {
        match self {
            LinkCable::Unlinked => {},
            LinkCable::Linked { counting, .. } => *counting = *counting + 1,
        }
    }

    fn waiting(&self) -> (r: bool) {
        match self {
            LinkCable::Unlinked => true,
            LinkCable::Linked { waiting, .. } => *waiting,
        }
    }

    fn timeout(&self) -> (r: bool) {
        match self {
            LinkCable::Unlinked => false,
            LinkCable::Linked { counting, .. } => *counting >= TIMEOUT,
        }
    }

    fn received(&mut self) -> (r: bool) {
        match self {
            LinkCable::Unlinked => false,
            LinkCable::Linked { pipe, receiving, .. } => {
                if receiving.is_none() {
                    *receiving = pipe.poll();
                }
                receiving.is_some()
            },
        }
    }

    fn disconnected(&self) -> (r: bool) {
        match self {
            LinkCable::Unlinked => true,
            LinkCable::Linked { .. } => false,
        }
    }
}

} // verus!
