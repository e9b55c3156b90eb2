//! The serial port as the emulator steps it, and the port with no cable.

use vstd::prelude::*;

use crate::mmu::{requested, Interrupt, Memory};

verus! {

/// Address of the serial data register.
pub const SERIAL_DATA_INDEX: u16 = 0xFF01;

/// Address of the serial control register.
pub const SERIAL_CONTROL_INDEX: u16 = 0xFF02;

/// What the data register reads while no peer is on the line.
pub const NO_PEER_DATA: u8 = 0xFF;

/// The bus after a step of the serial port: `r` is what the port's transfer
/// returned (completion, data, control); a disconnected line reads
/// `NO_PEER_DATA`, and a completed transfer requests the serial interrupt.
pub open spec fn serial_update(bus: Seq<u8>, r: (bool, u8, u8), disconnected: bool) -> Seq<u8> {
    let written = bus.update(SERIAL_DATA_INDEX as int, if disconnected {
        NO_PEER_DATA
    } else {
        r.1
    }).update(SERIAL_CONTROL_INDEX as int, r.2);
    if r.0 {
        requested(written, Interrupt::Serial)
    } else {
        written
    }
}

/// A transfer result that leaves the registers as they were unless it
/// completes a transfer. What a completion may hand back is the port's own
/// matter (for the linked port see `lemma_registers_untorn`).
pub open spec fn untorn(r: (bool, u8, u8), data: u8, control: u8) -> bool {
    r.0 || (r.1 == data && r.2 == control)
}

/// Writes a transfer result back to the bus: the registers take the result's
/// values, a disconnected line reads `NO_PEER_DATA`, and a completion
/// requests the serial interrupt.
pub fn write_back(mmu: &mut Memory, r: (bool, u8, u8), disconnected: bool)
    requires
        old(mmu).wf(),
    ensures
        final(mmu).wf(),
        final(mmu)@ == serial_update(old(mmu)@, r, disconnected),
{
    let (is_complete, data, control) = r;
    mmu.write_byte(SERIAL_DATA_INDEX, if disconnected { NO_PEER_DATA } else { data });
    mmu.write_byte(SERIAL_CONTROL_INDEX, control);
    if is_complete {
        mmu.request_interrupt(Interrupt::Serial);
    }
}

/// A serial port as the emulator sees it: once per step it hands over the
/// serial registers and takes back their next values.
pub trait ByteTransfer {
    /// Whether no peer is on the line.
    spec fn is_disconnected(&self) -> bool;

    /// What a step of the port may do: from `self`, with the registers `sd`
    /// and `sc`, return `r` and become `after`.
    spec fn stepped(&self, sd: u8, sc: u8, r: (bool, u8, u8), after: &Self) -> bool;

    fn disconnected(&self) -> (r: bool)
        ensures
            r == self.is_disconnected(),
    ;

    /// One step: `sd` and `sc` are the serial data and control registers;
    /// the result is whether a transfer completed, then the registers' next
    /// values. Without a completion the registers come back unchanged, and a
    /// completion leaves the line connected.
    fn transfer(&mut self, sd: u8, sc: u8) -> (r: (bool, u8, u8))
        ensures
            old(self).stepped(sd, sc, r, final(self)),
            untorn(r, sd, sc),
            r.0 ==> !final(self).is_disconnected(),
    ;

    /// Runs one step of the port on the serial registers of the bus and
    /// writes the result back. A disconnected line ends the step reading
    /// `NO_PEER_DATA`, with the control register as it was and no interrupt.
    fn update(&mut self, mmu: &mut Memory)
        requires
            old(mmu).wf(),
        ensures
            final(mmu).wf(),
            exists|r: (bool, u8, u8)|
                old(self).stepped(
                    old(mmu)@[SERIAL_DATA_INDEX as int],
                    old(mmu)@[SERIAL_CONTROL_INDEX as int],
                    r,
                    final(self),
                ) && untorn(r, old(mmu)@[SERIAL_DATA_INDEX as int], old(mmu)@[SERIAL_CONTROL_INDEX as int])
                    && #[trigger] serial_update(old(mmu)@, r, final(self).is_disconnected())
                    == final(mmu)@,
            final(self).is_disconnected() ==> final(mmu)@ == old(mmu)@.update(
                SERIAL_DATA_INDEX as int,
                NO_PEER_DATA,
            ),
    {
        let sd = mmu.read_byte(SERIAL_DATA_INDEX);
        let sc = mmu.read_byte(SERIAL_CONTROL_INDEX);
        let r = self.transfer(sd, sc);
        let disconnected = self.disconnected();
        write_back(mmu, r, disconnected);
        assert(serial_update(old(mmu)@, r, self.is_disconnected()) == mmu@);
        if disconnected {
            assert(mmu@ =~= old(mmu)@.update(SERIAL_DATA_INDEX as int, NO_PEER_DATA));
        }
    }
}

/// A port with no cable: nothing is ever received.
pub struct Unlinked;

impl ByteTransfer for Unlinked {
    open spec fn is_disconnected(&self) -> bool {
        true
    }

    open spec fn stepped(&self, sd: u8, sc: u8, r: (bool, u8, u8), after: &Self) -> bool {
        r == (false, sd, sc)
    }

    fn disconnected(&self) -> (r: bool) {
        true
    }

    /// Hands the registers back as they are and never completes.
    fn transfer(&mut self, sd: u8, sc: u8) -> (r: (bool, u8, u8))
        ensures
            r == (false, sd, sc),
    {
        (false, sd, sc)
    }

    /// The data register reads `NO_PEER_DATA`; nothing else changes.
    fn update(&mut self, mmu: &mut Memory)
        ensures
            final(mmu)@ == old(mmu)@.update(SERIAL_DATA_INDEX as int, NO_PEER_DATA),
    {
        let sd = mmu.read_byte(SERIAL_DATA_INDEX);
        let sc = mmu.read_byte(SERIAL_CONTROL_INDEX);
        let r = self.transfer(sd, sc);
        write_back(mmu, r, true);
        assert(serial_update(old(mmu)@, r, self.is_disconnected()) == mmu@);
        assert(mmu@ =~= old(mmu)@.update(SERIAL_DATA_INDEX as int, NO_PEER_DATA));
    }
}

} // verus!
