use std::cell::{Cell, RefCell};
use std::rc::Rc;

use gameboy_core::link::{LinkState, Phase, Side, Slot, TRANSFER_STEPS};
use gameboy_core::port::{LinkPort, LinkTransport};
use gameboy_core::transfer::{write_back, SERIAL_CONTROL_INDEX, SERIAL_DATA_INDEX};
use gameboy_core::mmu::INTERRUPT_FLAG_INDEX;
use gameboy_core::{ByteTransfer, Memory, Unlinked};

/// Both ports see one record; every `fail_every`-th acquire times out.
struct FakeTransport {
    record: Rc<RefCell<[u8; 8]>>,
    calls: Rc<Cell<u32>>,
    fail_every: u32,
}

impl LinkTransport for FakeTransport {
    fn acquire(&mut self) -> Option<[u8; 8]> {
        let n = self.calls.get() + 1;
        self.calls.set(n);
        if self.fail_every > 0 && n % self.fail_every == 0 {
            None
        } else {
            Some(*self.record.borrow())
        }
    }

    fn release(&mut self, record: [u8; 8]) {
        *self.record.borrow_mut() = record;
    }
}

fn pair(fail_every: u32) -> (LinkPort<FakeTransport>, LinkPort<FakeTransport>, Rc<RefCell<[u8; 8]>>) {
    let record = Rc::new(RefCell::new(LinkState::initial().encode()));
    let a = LinkPort::new(
        Slot::First,
        FakeTransport { record: record.clone(), calls: Rc::new(Cell::new(0)), fail_every },
    );
    let b = LinkPort::new(
        Slot::Second,
        FakeTransport { record: record.clone(), calls: Rc::new(Cell::new(0)), fail_every },
    );
    (a, b, record)
}

fn bus(data: u8, control: u8) -> Memory {
    let mut m = Memory::new();
    m.write_byte(SERIAL_DATA_INDEX, data);
    m.write_byte(SERIAL_CONTROL_INDEX, control);
    m
}

fn serial_requested(m: &Memory) -> bool {
    m.read_byte(INTERRUPT_FLAG_INDEX) & 0x08 != 0
}

fn clear_interrupts(m: &mut Memory) {
    m.write_byte(INTERRUPT_FLAG_INDEX, 0);
}

#[test]
fn two_adapters_exchange_bytes() {
    let (mut a, mut b, _) = pair(0);
    let mut bus_a = bus(0xAB, 0x81);
    let mut bus_b = bus(0xCD, 0x80);
    let mut interrupts_a = 0;
    let mut interrupts_b = 0;
    for _ in 0..(3 * TRANSFER_STEPS as usize) {
        a.update(&mut bus_a);
        if serial_requested(&bus_a) {
            interrupts_a += 1;
            clear_interrupts(&mut bus_a);
        }
        b.update(&mut bus_b);
        if serial_requested(&bus_b) {
            interrupts_b += 1;
            clear_interrupts(&mut bus_b);
        }
    }
    assert_eq!(bus_a.read_byte(SERIAL_DATA_INDEX), 0xCD);
    assert_eq!(bus_b.read_byte(SERIAL_DATA_INDEX), 0xAB);
    assert_eq!(bus_a.read_byte(SERIAL_CONTROL_INDEX), 0x01);
    assert_eq!(bus_b.read_byte(SERIAL_CONTROL_INDEX), 0x00);
    assert_eq!(interrupts_a, 1);
    assert_eq!(interrupts_b, 1);
    assert!(!a.disconnected());
    assert!(!b.disconnected());
}

#[test]
fn exchange_waits_for_transfer_length() {
    let (mut a, mut b, _) = pair(0);
    // first steps: both attach and latch, the second starts the transfer
    assert_eq!(a.transfer(0xAB, 0x81), (false, 0xAB, 0x81));
    assert!(a.disconnected());
    assert_eq!(b.transfer(0xCD, 0x80), (false, 0xCD, 0x80));
    assert!(!b.disconnected());
    for _ in 0..(TRANSFER_STEPS - 1) {
        assert_eq!(a.transfer(0x11, 0x22), (false, 0x11, 0x22));
    }
    assert_eq!(a.transfer(0x11, 0x22), (true, 0xCD, 0x01));
    assert_eq!(b.transfer(0x33, 0x44), (true, 0xAB, 0x00));
    assert_eq!(a.transfer(0xCD, 0x01), (false, 0xCD, 0x01));
    assert_eq!(b.transfer(0xAB, 0x00), (false, 0xAB, 0x00));
}

#[test]
fn lock_timeouts_never_tear_registers() {
    let (mut a, mut b, _) = pair(2);
    let mut bus_a = bus(0xAB, 0x81);
    let mut bus_b = bus(0xCD, 0x80);
    let mut interrupts_a = 0;
    let mut interrupts_b = 0;
    for _ in 0..(6 * TRANSFER_STEPS as usize) {
        a.update(&mut bus_a);
        let seen_a = (bus_a.read_byte(SERIAL_DATA_INDEX), bus_a.read_byte(SERIAL_CONTROL_INDEX));
        assert!(seen_a == (0xAB, 0x81) || seen_a == (0xFF, 0x81) || seen_a == (0xCD, 0x01));
        if serial_requested(&bus_a) {
            interrupts_a += 1;
            clear_interrupts(&mut bus_a);
        }
        b.update(&mut bus_b);
        let seen_b = (bus_b.read_byte(SERIAL_DATA_INDEX), bus_b.read_byte(SERIAL_CONTROL_INDEX));
        assert!(seen_b == (0xCD, 0x80) || seen_b == (0xFF, 0x80) || seen_b == (0xAB, 0x00));
        if serial_requested(&bus_b) {
            interrupts_b += 1;
            clear_interrupts(&mut bus_b);
        }
    }
    assert_eq!(bus_a.read_byte(SERIAL_DATA_INDEX), 0xCD);
    assert_eq!(bus_b.read_byte(SERIAL_DATA_INDEX), 0xAB);
    assert_eq!(interrupts_a, 1);
    assert_eq!(interrupts_b, 1);
}

#[test]
fn skipped_step_returns_registers_unchanged() {
    let (mut a, _, record) = pair(1);
    let before = *record.borrow();
    assert_eq!(a.transfer(0x12, 0x81), (false, 0x12, 0x81));
    assert_eq!(*record.borrow(), before);
    assert!(a.disconnected());
}

#[test]
fn no_transfer_without_clock_source() {
    let (mut a, mut b, _) = pair(0);
    for _ in 0..(3 * TRANSFER_STEPS as usize) {
        assert_eq!(a.transfer(0xAB, 0x80), (false, 0xAB, 0x80));
        assert_eq!(b.transfer(0xCD, 0x80), (false, 0xCD, 0x80));
    }
}

#[test]
fn no_transfer_while_peer_does_not_request() {
    let (mut a, mut b, _) = pair(0);
    for _ in 0..(3 * TRANSFER_STEPS as usize) {
        assert_eq!(a.transfer(0xAB, 0x81), (false, 0xAB, 0x81));
        assert_eq!(b.transfer(0xCD, 0x00), (false, 0xCD, 0x00));
    }
}

#[test]
fn detach_with_peer_attached_is_detected() {
    let (mut a, mut b, record) = pair(0);
    a.transfer(0, 0);
    b.transfer(0, 0);
    assert!(!b.disconnected());
    assert_eq!(a.detach(), Some(false));
    assert!(a.disconnected());
    assert_eq!(record.borrow()[2], 0);
    assert_eq!(b.transfer(0x42, 0x00), (false, 0x42, 0x00));
    assert!(b.disconnected());
    let mut bus_b = bus(0x42, 0x81);
    b.update(&mut bus_b);
    assert_eq!(bus_b.read_byte(SERIAL_DATA_INDEX), 0xFF);
    assert!(!serial_requested(&bus_b));
}

#[test]
fn detach_after_peer_left_destroys_record() {
    let (mut a, mut b, _) = pair(0);
    a.transfer(0, 0);
    b.transfer(0, 0);
    assert_eq!(a.detach(), Some(false));
    assert_eq!(b.detach(), Some(true));
    assert_eq!(b.detach(), Some(true));
}

#[test]
fn detach_mid_transfer_recovers_peer() {
    let (mut a, mut b, record) = pair(0);
    a.transfer(0xAB, 0x81);
    b.transfer(0xCD, 0x80);
    assert_eq!(record.borrow()[2], Phase::Transferring.to_byte());
    assert_eq!(b.detach(), Some(false));
    assert_eq!(a.transfer(0xAB, 0x81), (false, 0xAB, 0x81));
    assert!(a.disconnected());
    let st = LinkState::decode(&record.borrow()).unwrap();
    assert_eq!(st.first.phase, Phase::Ready);
    assert_eq!(st.first.counter, 0);
}

#[test]
fn malformed_record_is_left_alone() {
    let record = Rc::new(RefCell::new([0, 0, 9, 0, 0, 0, 1, 0]));
    let mut a = LinkPort::new(
        Slot::First,
        FakeTransport { record: record.clone(), calls: Rc::new(Cell::new(0)), fail_every: 0 },
    );
    assert_eq!(a.transfer(0x10, 0x81), (false, 0x10, 0x81));
    assert_eq!(*record.borrow(), [0, 0, 9, 0, 0, 0, 1, 0]);
    assert!(a.disconnected());
}

#[test]
fn record_round_trip() {
    let st = LinkState {
        first: Side { data: 0xAB, control: 0x81, phase: Phase::Transferring, counter: 3 },
        second: Side { data: 0xCD, control: 0x80, phase: Phase::Complete, counter: 0 },
    };
    let bytes = st.encode();
    assert_eq!(bytes, [0xAB, 0x81, 3, 3, 0xCD, 0x80, 4, 0]);
    assert_eq!(LinkState::decode(&bytes), Some(st));
}

#[test]
fn record_rejects_bad_counter() {
    assert_eq!(LinkState::decode(&[0, 0, 1, 2, 0, 0, 1, 0]), None);
    assert_eq!(LinkState::decode(&[0, 0, 3, 8, 0, 0, 3, 0]), None);
    assert_eq!(LinkState::decode(&[0, 0, 5, 0, 0, 0, 1, 0]), None);
    assert!(LinkState::decode(&[0; 8]).is_some());
}

#[test]
fn swap_on_state_record() {
    let mut st = LinkState::initial();
    assert_eq!(st.step(Slot::First, 0xAB, 0x81), ((false, 0xAB, 0x81), false));
    assert_eq!(st.step(Slot::Second, 0xCD, 0x80), ((false, 0xCD, 0x80), true));
    assert_eq!(st.first.phase, Phase::Transferring);
    assert_eq!(st.first.counter, 0);
    assert_eq!(st.second.counter, 0);
    for _ in 0..(TRANSFER_STEPS - 1) {
        st.step(Slot::Second, 0, 0);
    }
    assert_eq!(st.second.counter, TRANSFER_STEPS - 1);
    assert_eq!(st.step(Slot::Second, 0, 0), ((true, 0xAB, 0x00), true));
    assert_eq!(st.first, Side { data: 0xCD, control: 0x01, phase: Phase::Complete, counter: 0 });
    assert_eq!(st.second.counter, 0);
    assert_eq!(st.step(Slot::First, 0, 0), ((true, 0xCD, 0x01), true));
    assert_eq!(st.step(Slot::First, 0xCD, 0x01), ((false, 0xCD, 0x01), true));
}

#[test]
fn counter_resets_on_new_transfer() {
    let mut st = LinkState::initial();
    st.step(Slot::First, 1, 0x81);
    st.step(Slot::Second, 2, 0x80);
    st.step(Slot::First, 1, 0x81);
    st.step(Slot::First, 1, 0x81);
    assert_eq!(st.first.counter, 2);
    // the peer leaves: the stranded side goes back to Ready with a zero counter
    st.second.phase = Phase::Disconnected;
    st.second.counter = 0;
    assert_eq!(st.step(Slot::First, 1, 0x81), ((false, 1, 0x81), false));
    assert_eq!(st.first.phase, Phase::Ready);
    assert_eq!(st.first.counter, 0);
    st.step(Slot::First, 1, 0x81);
    st.step(Slot::Second, 2, 0x80);
    assert_eq!(st.first.phase, Phase::Transferring);
    assert_eq!(st.first.counter, 0);
}

#[test]
fn unlinked_hands_registers_back() {
    let mut port = Unlinked;
    for (d, c) in [(0u8, 0u8), (0xAB, 0x81), (0xFF, 0xFF), (0x12, 0x80)] {
        assert_eq!(port.transfer(d, c), (false, d, c));
        assert!(port.disconnected());
    }
}

#[test]
fn unlinked_update_reads_no_peer() {
    let mut port = Unlinked;
    let mut m = bus(0xAB, 0x81);
    port.update(&mut m);
    assert_eq!(m.read_byte(SERIAL_DATA_INDEX), 0xFF);
    assert_eq!(m.read_byte(SERIAL_CONTROL_INDEX), 0x81);
    assert!(!serial_requested(&m));
}

#[test]
fn attached_peer_is_not_taken_for_gone() {
    let (mut a, mut b, record) = pair(0);
    assert!(a.attach());
    assert!(b.attach());
    assert_eq!(record.borrow()[2], Phase::Ready.to_byte());
    assert_eq!(record.borrow()[6], Phase::Ready.to_byte());
    // neither side has stepped yet: the first to leave keeps the record
    assert_eq!(b.detach(), Some(false));
    assert_eq!(a.detach(), Some(true));
}

#[test]
fn attach_keeps_a_stepped_side() {
    let (mut a, _, record) = pair(0);
    a.transfer(0xAB, 0x81);
    let before = *record.borrow();
    assert!(a.attach());
    assert_eq!(*record.borrow(), before);
    let (mut c, _, _) = pair(1);
    assert!(!c.attach());
}

#[test]
fn write_back_follows_result() {
    let mut m = bus(0x12, 0x81);
    write_back(&mut m, (true, 0xCD, 0x01), false);
    assert_eq!(m.read_byte(SERIAL_DATA_INDEX), 0xCD);
    assert_eq!(m.read_byte(SERIAL_CONTROL_INDEX), 0x01);
    assert!(serial_requested(&m));
    let mut m = bus(0x12, 0x81);
    write_back(&mut m, (false, 0x12, 0x81), true);
    assert_eq!(m.read_byte(SERIAL_DATA_INDEX), 0xFF);
    assert_eq!(m.read_byte(SERIAL_CONTROL_INDEX), 0x81);
    assert!(!serial_requested(&m));
}
