//! The shared link record and the transfer protocol both linked processes run on it.

use vstd::prelude::*;

verus! {

/// Steps a side spends in `Transferring` before the bytes are exchanged:
/// one step stands for one bit period, eight of them for the whole byte.
pub const TRANSFER_STEPS: u8 = 8;

/// Bytes of the shared link record: four for each slot.
pub const LINK_STATE_SIZE: usize = 8;

/// Bytes of one slot: data, control, phase, counter.
pub const HALF_LINK: usize = 4;

/// Bit 7 of the control register: a transfer is requested.
pub const TRANSFER_REQUEST: u8 = 0x80;

/// Bit 0 of the control register: this side drives the shift clock.
pub const INTERNAL_CLOCK: u8 = 0x01;

/// Where a side stands in the transfer protocol.
#[derive(Clone, Copy, Debug, PartialEq, Eq, Structural)]
pub enum Phase {
    /// Not attached: the slot of a process that has not stepped yet or has left.
    Disconnected,
    /// Attached, no transfer requested.
    Ready,
    /// A transfer is requested; the registers are latched until the peer joins.
    Pending,
    /// The byte is being shifted out; the counter counts the steps.
    Transferring,
    /// The bytes were exchanged; the owner has not taken the result yet.
    Complete,
}

impl Phase {
    /// The byte that stands for the phase in the shared record.
    pub open spec fn byte_spec(self) -> u8 {
        match self {
            Phase::Disconnected => 0,
            Phase::Ready => 1,
            Phase::Pending => 2,
            Phase::Transferring => 3,
            Phase::Complete => 4,
        }
    }

    pub open spec fn from_byte_spec(b: u8) -> Option<Phase> {
        if b == 0 {
            Some(Phase::Disconnected)
        } else if b == 1 {
            Some(Phase::Ready)
        } else if b == 2 {
            Some(Phase::Pending)
        } else if b == 3 {
            Some(Phase::Transferring)
        } else if b == 4 {
            Some(Phase::Complete)
        } else {
            None
        }
    }

    pub fn to_byte(self) -> (r: u8)
        ensures
            r == self.byte_spec(),
    {
        match self {
            Phase::Disconnected => 0,
            Phase::Ready => 1,
            Phase::Pending => 2,
            Phase::Transferring => 3,
            Phase::Complete => 4,
        }
    }

    pub fn from_byte(b: u8) -> (r: Option<Phase>)
        ensures
            r == Phase::from_byte_spec(b),
    {
        if b == 0 {
            Some(Phase::Disconnected)
        } else if b == 1 {
            Some(Phase::Ready)
        } else if b == 2 {
            Some(Phase::Pending)
        } else if b == 3 {
            Some(Phase::Transferring)
        } else if b == 4 {
            Some(Phase::Complete)
        } else {
            None
        }
    }
}

/// One process's half of the shared record.
#[derive(Clone, Copy, Debug, PartialEq, Eq, Structural)]
pub struct Side {
    /// Byte to send, or the byte received once `Complete`.
    pub data: u8,
    /// Serial control register as latched by the side.
    pub control: u8,
    pub phase: Phase,
    /// Steps spent in `Transferring`.
    pub counter: u8,
}

impl Side {
    /// The counter runs only while transferring, and stays below the
    /// transfer length.
    pub open spec fn wf(self) -> bool {
        &&& self.counter < TRANSFER_STEPS
        &&& self.phase != Phase::Transferring ==> self.counter == 0
    }

    pub open spec fn bytes_spec(self) -> Seq<u8> {
        seq![self.data, self.control, self.phase.byte_spec(), self.counter]
    }
}

/// Which half of the shared record belongs to a process: the process that
/// creates the record takes the first, the one that opens it the second.
#[derive(Clone, Copy, Debug, PartialEq, Eq, Structural)]
pub enum Slot {
    First,
    Second,
}

impl Slot {
    pub open spec fn other(self) -> Slot {
        match self {
            Slot::First => Slot::Second,
            Slot::Second => Slot::First,
        }
    }

    pub fn peer(self) -> (r: Slot)
        ensures
            r == self.other(),
    {
        match self {
            Slot::First => Slot::Second,
            Slot::Second => Slot::First,
        }
    }

    /// Offset of the slot's bytes in the shared record.
    pub open spec fn offset(self) -> int {
        match self {
            Slot::First => 0,
            Slot::Second => HALF_LINK as int,
        }
    }
}

/// The shared link record, both halves.
#[derive(Clone, Copy, Debug, PartialEq, Eq, Structural)]
pub struct LinkState {
    pub first: Side,
    pub second: Side,
}

/// Decodes one half of the record; `None` for a phase byte out of range or a
/// counter that breaks `Side::wf`.
pub open spec fn decode_side(b: Seq<u8>) -> Option<Side> {
    match Phase::from_byte_spec(b[2]) {
        Some(phase) => {
            let s = Side { data: b[0], control: b[1], phase, counter: b[3] };
            if s.wf() {
                Some(s)
            } else {
                None
            }
        },
        None => None,
    }
}

/// Decodes the whole record; `None` for a record of another length or with a
/// malformed half.
pub open spec fn decode_spec(b: Seq<u8>) -> Option<LinkState> {
    if b.len() != LINK_STATE_SIZE {
        None
    } else {
        match (decode_side(b.subrange(0, 4)), decode_side(b.subrange(4, 8))) {
            (Some(first), Some(second)) => Some(LinkState { first, second }),
            _ => None,
        }
    }
}

impl LinkState {
    pub open spec fn wf(self) -> bool {
        self.first.wf() && self.second.wf()
    }

    pub open spec fn side(self, slot: Slot) -> Side {
        match slot {
            Slot::First => self.first,
            Slot::Second => self.second,
        }
    }

    pub open spec fn with_side(self, slot: Slot, s: Side) -> LinkState {
        match slot {
            Slot::First => LinkState { first: s, ..self },
            Slot::Second => LinkState { second: s, ..self },
        }
    }

    pub open spec fn bytes_spec(self) -> Seq<u8> {
        self.first.bytes_spec() + self.second.bytes_spec()
    }

    /// The record as its creator leaves it: both halves zero, both sides
    /// `Disconnected`.
    pub open spec fn initial_spec() -> LinkState {
        let s = Side { data: 0, control: 0, phase: Phase::Disconnected, counter: 0 };
        LinkState { first: s, second: s }
    }

    pub fn initial() -> (r: LinkState)
        ensures
            r == LinkState::initial_spec(),
    {
        let s = Side { data: 0, control: 0, phase: Phase::Disconnected, counter: 0 };
        LinkState { first: s, second: s }
    }

    pub fn get(&self, slot: Slot) -> (r: Side)
        ensures
            r == self.side(slot),
    {
        match slot {
            Slot::First => self.first,
            Slot::Second => self.second,
        }
    }

    pub fn set(&mut self, slot: Slot, s: Side)
        ensures
            *final(self) == old(self).with_side(slot, s),
    {
        match slot {
            Slot::First => self.first = s,
            Slot::Second => self.second = s,
        }
    }

    /// The record as bytes, first slot first.
    pub fn encode(&self) -> (r: [u8; 8])
        ensures
            r@ == self.bytes_spec(),
    {
        let r = [
            self.first.data,
            self.first.control,
            self.first.phase.to_byte(),
            self.first.counter,
            self.second.data,
            self.second.control,
            self.second.phase.to_byte(),
            self.second.counter,
        ];
        assert(r@ =~= self.bytes_spec());
        r
    }
}

fn decode_half(b: &[u8; 8], offset: usize) -> (r: Option<Side>)
    requires
        offset == 0 || offset == 4,
    ensures
        r == decode_side(b@.subrange(offset as int, offset + 4)),
{
    match Phase::from_byte(b[offset + 2]) {
        Some(phase) => {
            let counter = b[offset + 3];
            if counter < TRANSFER_STEPS && (phase == Phase::Transferring || counter == 0) {
                Some(Side { data: b[offset], control: b[offset + 1], phase, counter })
            } else {
                None
            }
        },
        None => None,
    }
}

impl LinkState {
    /// Reads the record from its bytes; `None` where the peer left bytes that
    /// no step of this protocol writes.
    pub fn decode(b: &[u8; 8]) -> (r: Option<LinkState>)
        ensures
            r == decode_spec(b@),
    {
        match (decode_half(b, 0), decode_half(b, 4)) {
            (Some(first), Some(second)) => Some(LinkState { first, second }),
            _ => None,
        }
    }
}

/// The control register asks for a transfer.
pub open spec fn requests(control: u8) -> bool {
    control & TRANSFER_REQUEST == TRANSFER_REQUEST
}

/// The control register selects the internal shift clock.
pub open spec fn drives_clock(control: u8) -> bool {
    control & INTERNAL_CLOCK == INTERNAL_CLOCK
}

/// A side at its own step, before it looks at its peer: stepping attaches
/// it, and an attached side without a transfer under way latches the
/// registers, waiting for the peer if they request a transfer.
pub open spec fn latch(me: Side, data: u8, control: u8) -> Side {
    if me.phase == Phase::Disconnected || me.phase == Phase::Ready {
        Side {
            data,
            control,
            phase: if requests(control) {
                Phase::Pending
            } else {
                Phase::Ready
            },
            counter: 0,
        }
    } else {
        me
    }
}

/// Both sides after the exchange: each holds the other's byte, both transfer
/// requests are cleared, both wait for their owner to take the result.
pub open spec fn exchanged(me: Side, peer: Side) -> (Side, Side) {
    (
        Side { data: peer.data, control: me.control & 0x7F, phase: Phase::Complete, counter: 0 },
        Side { data: me.data, control: peer.control & 0x7F, phase: Phase::Complete, counter: 0 },
    )
}

/// A transfer starts when both sides wait and one of them drives the clock.
pub open spec fn starts(me: Side, peer: Side) -> bool {
    &&& me.phase == Phase::Pending
    &&& peer.phase == Phase::Pending
    &&& drives_clock(me.control) || drives_clock(peer.control)
}

/// The protocol move of a side that has latched, against its peer.
pub open spec fn advance(me: Side, peer: Side) -> (Side, Side) {
    if starts(me, peer) {
        (
            Side { phase: Phase::Transferring, counter: 0, ..me },
            Side { phase: Phase::Transferring, counter: 0, ..peer },
        )
    } else if me.phase == Phase::Transferring && peer.phase != Phase::Transferring {
        // the peer left in the middle of the transfer
        (Side { phase: Phase::Ready, counter: 0, ..me }, peer)
    } else if me.phase == Phase::Transferring {
        if me.counter + 1 >= TRANSFER_STEPS {
            exchanged(me, peer)
        } else {
            (Side { counter: (me.counter + 1) as u8, ..me }, peer)
        }
    } else {
        (me, peer)
    }
}

/// One step of the side in `slot`, with the serial registers `data` and
/// `control`: the record after it, what the port returns (completion, data,
/// control), and whether the line is connected. A completed transfer is taken
/// at once: the registers receive the exchanged byte and the cleared control,
/// and the side is `Ready` again. Otherwise the registers are left as given.
pub open spec fn tick(st: LinkState, slot: Slot, data: u8, control: u8) -> (
    LinkState,
    (bool, u8, u8),
    bool,
) {
    let me0 = latch(st.side(slot), data, control);
    let moved = advance(me0, st.side(slot.other()));
    let me1 = moved.0;
    let peer1 = moved.1;
    let delivered = me1.phase == Phase::Complete;
    let me2 = if delivered {
        Side { phase: Phase::Ready, ..me1 }
    } else {
        me1
    };
    (
        st.with_side(slot, me2).with_side(slot.other(), peer1),
        if delivered {
            (true, me1.data, me1.control)
        } else {
            (false, data, control)
        },
        delivered || peer1.phase != Phase::Disconnected,
    )
}

impl Side {
    fn latched(self, data: u8, control: u8) -> (r: Side)
        ensures
            r == latch(self, data, control),
    {
        if self.phase == Phase::Disconnected || self.phase == Phase::Ready {
            Side {
                data,
                control,
                phase: if control & TRANSFER_REQUEST == TRANSFER_REQUEST {
                    Phase::Pending
                } else {
                    Phase::Ready
                },
                counter: 0,
            }
        } else {
            self
        }
    }
}

fn advanced(me: Side, peer: Side) -> (r: (Side, Side))
    requires
        me.wf(),
    ensures
        r == advance(me, peer),
{
    if me.phase == Phase::Pending && peer.phase == Phase::Pending && (me.control & INTERNAL_CLOCK
        == INTERNAL_CLOCK || peer.control & INTERNAL_CLOCK == INTERNAL_CLOCK) {
        (
            Side { phase: Phase::Transferring, counter: 0, ..me },
            Side { phase: Phase::Transferring, counter: 0, ..peer },
        )
    } else if me.phase == Phase::Transferring && peer.phase != Phase::Transferring {
        (Side { phase: Phase::Ready, counter: 0, ..me }, peer)
    } else if me.phase == Phase::Transferring {
        if me.counter + 1 >= TRANSFER_STEPS {
            (
                Side {
                    data: peer.data,
                    control: me.control & 0x7F,
                    phase: Phase::Complete,
                    counter: 0,
                },
                Side {
                    data: me.data,
                    control: peer.control & 0x7F,
                    phase: Phase::Complete,
                    counter: 0,
                },
            )
        } else {
            (Side { counter: me.counter + 1, ..me }, peer)
        }
    } else {
        (me, peer)
    }
}

impl LinkState {
    /// Runs one protocol step of the side in `slot` on the record; returns
    /// what the port hands back to the registers and whether the line is
    /// connected.
    pub fn step(&mut self, slot: Slot, data: u8, control: u8) -> (r: ((bool, u8, u8), bool))
        requires
            old(self).wf(),
        ensures
            final(self).wf(),
            (*final(self), r.0, r.1) == tick(*old(self), slot, data, control),
    {
        let peer_slot = slot.peer();
        let me0 = self.get(slot).latched(data, control);
        let (me1, peer1) = advanced(me0, self.get(peer_slot));
        let delivered = me1.phase == Phase::Complete;
        let me2 = if delivered {
            Side { phase: Phase::Ready, ..me1 }
        } else {
            me1
        };
        self.set(slot, me2);
        self.set(peer_slot, peer1);
        let result = if delivered {
            (true, me1.data, me1.control)
        } else {
            (false, data, control)
        };
        (result, delivered || peer1.phase != Phase::Disconnected)
    }
}

/// The step of the side in `slot` exchanges the bytes: both sides are
/// transferring and the stepping side reaches the transfer length.
pub open spec fn exchanges_at(st: LinkState, slot: Slot, data: u8, control: u8) -> bool {
    let me = latch(st.side(slot), data, control);
    let peer = st.side(slot.other());
    &&& me.phase == Phase::Transferring
    &&& peer.phase == Phase::Transferring
    &&& me.counter + 1 >= TRANSFER_STEPS
}

/// The record after a sequence of steps, each given as the stepping slot and
/// the serial registers it hands over.
pub open spec fn run(st: LinkState, ticks: Seq<(Slot, u8, u8)>) -> LinkState
    decreases ticks.len(),
{
    if ticks.len() == 0 {
        st
    } else {
        run(tick(st, ticks[0].0, ticks[0].1, ticks[0].2).0, ticks.drop_first())
    }
}

/// How many steps of the side in `x` returned a completed transfer.
pub open spec fn deliveries(st: LinkState, ticks: Seq<(Slot, u8, u8)>, x: Slot) -> nat
    decreases ticks.len(),
{
    if ticks.len() == 0 {
        0
    } else {
        let t = tick(st, ticks[0].0, ticks[0].1, ticks[0].2);
        (if ticks[0].0 == x && t.1.0 {
            1nat
        } else {
            0nat
        }) + deliveries(t.0, ticks.drop_first(), x)
    }
}

/// How many steps exchanged the bytes.
pub open spec fn exchanges(st: LinkState, ticks: Seq<(Slot, u8, u8)>) -> nat
    decreases ticks.len(),
{
    if ticks.len() == 0 {
        0
    } else {
        let t = tick(st, ticks[0].0, ticks[0].1, ticks[0].2);
        (if exchanges_at(st, ticks[0].0, ticks[0].1, ticks[0].2) {
            1nat
        } else {
            0nat
        }) + exchanges(t.0, ticks.drop_first())
    }
}

/// One when the side in `x` holds a completed transfer not yet taken.
pub open spec fn pending_delivery(st: LinkState, x: Slot) -> nat {
    if st.side(x).phase == Phase::Complete {
        1
    } else {
        0
    }
}

/// A step keeps the record well formed; a counter that enters
/// `Transferring` starts at zero, and a side outside `Transferring` holds a
/// zero counter, so a counter that leaves `Transferring` is reset before any
/// later transfer uses it.
pub proof fn lemma_counter_reset(st: LinkState, slot: Slot, data: u8, control: u8, x: Slot)
    requires
        st.wf(),
    ensures
        tick(st, slot, data, control).0.wf(),
        ({
            let after = tick(st, slot, data, control).0.side(x);
            &&& st.side(x).phase != Phase::Transferring && after.phase == Phase::Transferring
                ==> after.counter == 0
            &&& after.phase != Phase::Transferring ==> after.counter == 0
        }),
{
}

/// Each exchange is delivered exactly once to each side: over any sequence
/// of steps, the completions a side returns, plus one if it still holds an
/// untaken one at the end, equal the exchanges, plus one if it held an
/// untaken one at the start.
pub proof fn lemma_delivered_once(st: LinkState, ticks: Seq<(Slot, u8, u8)>, x: Slot)
    requires
        st.wf(),
    ensures
        deliveries(st, ticks, x) + pending_delivery(run(st, ticks), x) == exchanges(st, ticks)
            + pending_delivery(st, x),
    decreases ticks.len(),
{
    if ticks.len() > 0 {
        let t = tick(st, ticks[0].0, ticks[0].1, ticks[0].2);
        lemma_counter_reset(st, ticks[0].0, ticks[0].1, ticks[0].2, x);
        lemma_delivered_once(t.0, ticks.drop_first(), x);
    }
}

/// The exchange swaps the bytes: the stepping side takes the peer's byte at
/// once, with its transfer request cleared, and the peer's half holds the
/// stepping side's byte, completed, for the peer's next step.
pub proof fn lemma_swap(st: LinkState, slot: Slot, data: u8, control: u8)
    requires
        st.wf(),
        exchanges_at(st, slot, data, control),
    ensures
        tick(st, slot, data, control).1 == (
            true,
            st.side(slot.other()).data,
            st.side(slot).control & 0x7F,
        ),
        tick(st, slot, data, control).0.side(slot.other()) == (Side {
            data: st.side(slot).data,
            control: st.side(slot.other()).control & 0x7F,
            phase: Phase::Complete,
            counter: 0,
        }),
{
}

/// A side that holds a completed transfer takes it at its next step: the
/// registers receive the byte and control it holds.
pub proof fn lemma_complete_taken(st: LinkState, slot: Slot, data: u8, control: u8)
    requires
        st.wf(),
        st.side(slot).phase == Phase::Complete,
    ensures
        tick(st, slot, data, control).1 == (true, st.side(slot).data, st.side(slot).control),
        tick(st, slot, data, control).0.side(slot).phase == Phase::Ready,
{
}

/// No completion is reported twice: a side that holds no untaken completion
/// reports none over any sequence of steps in which no exchange runs, and a
/// step that reports one leaves the side without an untaken one.
pub proof fn lemma_no_delivery_without_exchange(st: LinkState, ticks: Seq<(Slot, u8, u8)>, x: Slot)
    requires
        st.wf(),
        st.side(x).phase != Phase::Complete,
        exchanges(st, ticks) == 0,
    ensures
        deliveries(st, ticks, x) == 0,
{
    lemma_delivered_once(st, ticks, x);
}

} // verus!
