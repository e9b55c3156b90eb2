//! The port adapter that runs the transfer protocol on a record behind a lock.

use vstd::prelude::*;

use crate::link::{
    decode_spec, deliveries, lemma_counter_reset, tick, LinkState, Phase, Side, Slot,
    LINK_STATE_SIZE,
};
use crate::transfer::{untorn, ByteTransfer};

verus! {

/// Access to the shared link record under its lock.
pub trait LinkTransport {
    /// Takes the lock of the shared record and reads the record; `None`
    /// where the lock could not be had within the transport's timeout.
    fn acquire(&mut self) -> Option<[u8; 8]>;

    /// Writes the record back and releases the lock; called once after each
    /// `Some` of `acquire`.
    fn release(&mut self, record: [u8; 8]);
}

/// One step of the side in `slot` on the record bytes `b`: the bytes after
/// it, what the port returns, and whether the line is connected; `None`
/// where `b` holds a malformed record, which the step leaves alone.
pub open spec fn port_tick(slot: Slot, b: Seq<u8>, data: u8, control: u8) -> Option<
    (Seq<u8>, (bool, u8, u8), bool),
> {
    match decode_spec(b) {
        Some(st) => {
            let t = tick(st, slot, data, control);
            Some((t.0.bytes_spec(), t.1, t.2))
        },
        None => None,
    }
}

/// What a step that read the record `b` returns and reports of the line:
/// a malformed record changes nothing.
pub open spec fn port_outcome(slot: Slot, connected: bool, b: Seq<u8>, data: u8, control: u8) -> (
    (bool, u8, u8),
    bool,
) {
    match port_tick(slot, b, data, control) {
        Some(t) => (t.1, t.2),
        None => ((false, data, control), connected),
    }
}

/// The record after the side in `slot` left: its phase byte reads
/// `Disconnected` and its counter zero.
pub open spec fn detached(b: Seq<u8>, slot: Slot) -> Seq<u8> {
    b.update(slot.offset() + 2, Phase::Disconnected.byte_spec()).update(slot.offset() + 3, 0)
}

/// The record after the side in `slot` announced itself: a `Disconnected`
/// phase byte becomes `Ready`, with a zero counter; a side already marked is
/// left as it is.
pub open spec fn attached(b: Seq<u8>, slot: Slot) -> Seq<u8> {
    if b[slot.offset() + 2] == Phase::Disconnected.byte_spec() {
        b.update(slot.offset() + 2, Phase::Ready.byte_spec()).update(slot.offset() + 3, 0)
    } else {
        b
    }
}

/// The peer of `slot` has left the record (or never came).
pub open spec fn peer_gone(b: Seq<u8>, slot: Slot) -> bool {
    b[slot.other().offset() + 2] == Phase::Disconnected.byte_spec()
}

/// A serial port linked to a peer process through a shared record.
pub struct LinkPort<T> {
    slot: Slot,
    connect: bool,
    transport: T,
}

impl<T: LinkTransport> LinkPort<T> {
    /// The half of the record this port owns.
    pub closed spec fn slot_spec(&self) -> Slot {
        self.slot
    }

    /// Whether the last step saw the peer.
    pub closed spec fn connected_spec(&self) -> bool {
        self.connect
    }

    /// A port on the half `slot` of the record behind `transport`; it counts
    /// as disconnected until a step sees the peer.
    pub fn new(slot: Slot, transport: T) -> (r: LinkPort<T>)
        ensures
            r.slot_spec() == slot,
            !r.connected_spec(),
    {
        LinkPort { slot, connect: false, transport }
    }

    /// The transport the port steps through.
    pub closed spec fn transport_spec(&self) -> T {
        self.transport
    }

    /// Gives the transport back, once the port is done with it.
    pub fn into_transport(self) -> (r: T)
        ensures
            r == self.transport_spec(),
    {
        self.transport
    }

    pub fn slot(&self) -> (r: Slot)
        ensures
            r == self.slot_spec(),
    {
        self.slot
    }

    /// One step on the record `record`, read under the lock: a well-formed
    /// record advances by one protocol step, a malformed one is left as it
    /// is and the registers come back unchanged.
    pub fn transfer_locked(&mut self, record: &mut [u8; 8], sd: u8, sc: u8) -> (r: (bool, u8, u8))
        ensures
            final(self).slot_spec() == old(self).slot_spec(),
            (r, final(self).connected_spec()) == port_outcome(
                old(self).slot_spec(),
                old(self).connected_spec(),
                old(record)@,
                sd,
                sc,
            ),
            match port_tick(old(self).slot_spec(), old(record)@, sd, sc) {
                Some(t) => final(record)@ == t.0,
                None => *final(record) == *old(record),
            },
    {
        match LinkState::decode(record) {
            Some(st) => {
                let mut st = st;
                let (r, connect) = st.step(self.slot, sd, sc);
                *record = st.encode();
                self.connect = connect;
                r
            },
            None => (false, sd, sc),
        }
    }

    /// Marks the port's half of the record `record`, read under the lock, as
    /// attached, so that a peer that leaves before this port's first step
    /// does not take it for gone.
    pub fn attach_locked(&mut self, record: &mut [u8; 8])
        ensures
            final(self).slot_spec() == old(self).slot_spec(),
            final(self).connected_spec() == old(self).connected_spec(),
            final(record)@ == attached(old(record)@, old(self).slot_spec()),
    {
        let offset: usize = match self.slot {
            Slot::First => 0,
            Slot::Second => 4,
        };
        if record[offset + 2] == Phase::Disconnected.to_byte() {
            record[offset + 2] = Phase::Ready.to_byte();
            record[offset + 3] = 0;
            assert(record@ =~= attached(old(record)@, self.slot));
        }
    }

    /// Announces the port on the link: `true` once the record is marked,
    /// `false` where the lock could not be had.
    pub fn attach(&mut self) -> (r: bool)
        ensures
            final(self).slot_spec() == old(self).slot_spec(),
            final(self).connected_spec() == old(self).connected_spec(),
    {
        match self.transport.acquire() {
            Some(record) => {
                let mut record = record;
                self.attach_locked(&mut record);
                self.transport.release(record);
                true
            },
            None => false,
        }
    }

    /// Leaves the record `record`, read under the lock; returns whether the
    /// peer had left already, so that the shared record can go.
    pub fn detach_locked(&mut self, record: &mut [u8; 8]) -> (destroy: bool)
        ensures
            final(self).slot_spec() == old(self).slot_spec(),
            !final(self).connected_spec(),
            final(record)@ == detached(old(record)@, old(self).slot_spec()),
            destroy == peer_gone(old(record)@, old(self).slot_spec()),
    {
        let offset: usize = match self.slot {
            Slot::First => 0,
            Slot::Second => 4,
        };
        let peer_offset: usize = 4 - offset;
        let destroy = record[peer_offset + 2] == Phase::Disconnected.to_byte();
        record[offset + 2] = Phase::Disconnected.to_byte();
        record[offset + 3] = 0;
        self.connect = false;
        assert(record@ =~= detached(old(record)@, self.slot));
        destroy
    }

    /// Leaves the link: `Some(destroy)` once the record is marked, where
    /// `destroy` says the peer had left already; `None` where the lock could
    /// not be had, and nothing changed.
    pub fn detach(&mut self) -> (r: Option<bool>)
        ensures
            final(self).slot_spec() == old(self).slot_spec(),
            r is Some ==> !final(self).connected_spec(),
            r is None ==> final(self).connected_spec() == old(self).connected_spec(),
    {
        match self.transport.acquire() {
            Some(record) => {
                let mut record = record;
                let destroy = self.detach_locked(&mut record);
                self.transport.release(record);
                Some(destroy)
            },
            None => None,
        }
    }
}

impl<T: LinkTransport> ByteTransfer for LinkPort<T> {
    open spec fn is_disconnected(&self) -> bool {
        !self.connected_spec()
    }

    /// The port keeps its slot; the step was skipped for want of the lock,
    /// or it was one step on some record read under the lock.
    open spec fn stepped(&self, sd: u8, sc: u8, r: (bool, u8, u8), after: &Self) -> bool {
        &&& after.slot_spec() == self.slot_spec()
        &&& (r == (false, sd, sc) && after.connected_spec() == self.connected_spec()) || exists|
            b: Seq<u8>,
        |
            b.len() == LINK_STATE_SIZE && (r, after.connected_spec()) == #[trigger] port_outcome(
                self.slot_spec(),
                self.connected_spec(),
                b,
                sd,
                sc,
            )
    }

    fn disconnected(&self) -> (r: bool) {
        !self.connect
    }

    /// One step under the lock; where the lock cannot be had in time the step
    /// is skipped, the registers come back unchanged and the line's state is
    /// kept.
    fn transfer(&mut self, sd: u8, sc: u8) -> (r: (bool, u8, u8))
        ensures
            final(self).slot_spec() == old(self).slot_spec(),
            (r == (false, sd, sc) && final(self).connected_spec() == old(self).connected_spec())
                || exists|b: Seq<u8>|
                b.len() == LINK_STATE_SIZE && (r, final(self).connected_spec()) == #[trigger] port_outcome(
                    old(self).slot_spec(),
                    old(self).connected_spec(),
                    b,
                    sd,
                    sc,
                ),
    {
        match self.transport.acquire() {
            Some(record) => {
                let mut record = record;
                let ghost b = record@;
                let r = self.transfer_locked(&mut record, sd, sc);
                self.transport.release(record);
                assert((r, self.connected_spec()) == port_outcome(
                    old(self).slot_spec(),
                    old(self).connected_spec(),
                    b,
                    sd,
                    sc,
                ));
                r
            },
            None => (false, sd, sc),
        }
    }
}

/// A well-formed record reads back from its bytes.
pub proof fn lemma_decode_encode(st: LinkState)
    requires
        st.wf(),
    ensures
        decode_spec(st.bytes_spec()) == Some(st),
{
    assert(st.bytes_spec().subrange(0, 4) =~= st.first.bytes_spec());
    assert(st.bytes_spec().subrange(4, 8) =~= st.second.bytes_spec());
}

/// Bytes that read as a record are that record's bytes.
pub proof fn lemma_encode_decode(b: Seq<u8>)
    requires
        decode_spec(b) is Some,
    ensures
        decode_spec(b)->0.wf(),
        decode_spec(b)->0.bytes_spec() == b,
{
    let st = decode_spec(b)->0;
    assert(st.bytes_spec() =~= b);
}

/// Leaving marks the leaving side's half and keeps the rest of the record.
proof fn lemma_decode_detached(b: Seq<u8>, slot: Slot)
    requires
        decode_spec(b) is Some,
    ensures
        decode_spec(detached(b, slot)) == Some(
            decode_spec(b)->0.with_side(
                slot,
                Side { phase: Phase::Disconnected, counter: 0, ..decode_spec(b)->0.side(slot) },
            ),
        ),
{
    let d = detached(b, slot);
    assert(d.subrange(0, 4) =~= (if slot == Slot::First {
        b.subrange(0, 4).update(2, 0).update(3, 0)
    } else {
        b.subrange(0, 4)
    }));
    assert(d.subrange(4, 8) =~= (if slot == Slot::Second {
        b.subrange(4, 8).update(2, 0).update(3, 0)
    } else {
        b.subrange(4, 8)
    }));
}

/// Leaving twice leaves the record as leaving once does, and both times the
/// answer whether the record can go is the same.
pub proof fn lemma_detach_idempotent(b: Seq<u8>, slot: Slot)
    requires
        b.len() == LINK_STATE_SIZE,
    ensures
        detached(detached(b, slot), slot) == detached(b, slot),
        peer_gone(detached(b, slot), slot) == peer_gone(b, slot),
{
    assert(detached(detached(b, slot), slot) =~= detached(b, slot));
}

/// Once a side has left, its peer sees the line disconnected within two of
/// its own steps: the first step reports a disconnected line unless it takes
/// a completed transfer, and the step after that one does.
pub proof fn lemma_detach_seen(b: Seq<u8>, slot: Slot, d1: u8, c1: u8, d2: u8, c2: u8)
    requires
        decode_spec(b) is Some,
    ensures
        port_tick(slot.other(), detached(b, slot), d1, c1) is Some,
        ({
            let t1 = port_tick(slot.other(), detached(b, slot), d1, c1)->0;
            let t2 = port_tick(slot.other(), t1.0, d2, c2);
            &&& t1.2 == t1.1.0
            &&& t1.1.0 ==> t2 is Some && !(t2->0).2
        }),
{
    lemma_encode_decode(b);
    lemma_decode_detached(b, slot);
    let st = decode_spec(detached(b, slot))->0;
    let t = tick(st, slot.other(), d1, c1);
    lemma_counter_reset(st, slot.other(), d1, c1, slot);
    lemma_decode_encode(t.0);
}

/// A step hands the registers back whole: without a completion they are
/// the registers given, and a completion gives a pair that a critical section
/// wrote in one piece, either the pair in the side's half when the step began
/// or the pair that this step's exchange made of the peer's byte and the
/// side's own control with its request cleared.
pub proof fn lemma_registers_untorn(b: Seq<u8>, slot: Slot, data: u8, control: u8)
    requires
        port_tick(slot, b, data, control) is Some,
    ensures
        ({
            let (after, r, connected) = port_tick(slot, b, data, control)->0;
            let me = slot.offset();
            let peer = slot.other().offset();
            &&& !r.0 ==> r.1 == data && r.2 == control
            &&& r.0 ==> (r.1 == b[me] && r.2 == b[me + 1]) || (r.1 == b[peer] && r.2 == b[me + 1]
                & 0x7F)
        }),
{
    lemma_encode_decode(b);
}

/// A side that has announced itself is not taken for gone by its peer, and
/// a well-formed record stays well formed.
pub proof fn lemma_attach_marks(b: Seq<u8>, slot: Slot)
    requires
        b.len() == LINK_STATE_SIZE,
    ensures
        !peer_gone(attached(b, slot), slot.other()),
        decode_spec(b) is Some ==> decode_spec(attached(b, slot)) is Some,
{
    let a = attached(b, slot);
    assert(a.subrange(0, 4) =~= (if slot == Slot::First && b[2] == 0 {
        b.subrange(0, 4).update(2, 1).update(3, 0)
    } else {
        b.subrange(0, 4)
    }));
    assert(a.subrange(4, 8) =~= (if slot == Slot::Second && b[6] == 0 {
        b.subrange(4, 8).update(2, 1).update(3, 0)
    } else {
        b.subrange(4, 8)
    }));
}

/// How many steps of the side in `x` returned a completion, in a sequence of
/// port steps on a shared record `b`, each given as the stepping slot and
/// the registers it hands over. `update` requests the serial interrupt in
/// exactly those steps (see `write_back`).
pub open spec fn port_deliveries(b: Seq<u8>, ticks: Seq<(Slot, u8, u8)>, x: Slot) -> nat
    decreases ticks.len(),
{
    if ticks.len() == 0 {
        0
    } else {
        match port_tick(ticks[0].0, b, ticks[0].1, ticks[0].2) {
            Some(t) => (if ticks[0].0 == x && t.1.0 {
                1nat
            } else {
                0nat
            }) + port_deliveries(t.0, ticks.drop_first(), x),
            None => port_deliveries(b, ticks.drop_first(), x),
        }
    }
}

/// Port steps on a shared record deliver what the protocol steps on the
/// record it holds deliver, so each exchange reaches each side's registers
/// once (`lemma_delivered_once`).
pub proof fn lemma_port_delivered_once(b: Seq<u8>, ticks: Seq<(Slot, u8, u8)>, x: Slot)
    requires
        decode_spec(b) is Some,
    ensures
        port_deliveries(b, ticks, x) == deliveries(decode_spec(b)->0, ticks, x),
    decreases ticks.len(),
{
    if ticks.len() > 0 {
        let st = decode_spec(b)->0;
        lemma_encode_decode(b);
        let t = tick(st, ticks[0].0, ticks[0].1, ticks[0].2);
        lemma_counter_reset(st, ticks[0].0, ticks[0].1, ticks[0].2, x);
        lemma_decode_encode(t.0);
        lemma_port_delivered_once(t.0.bytes_spec(), ticks.drop_first(), x);
    }
}

} // verus!
