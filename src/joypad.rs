//! The joypad state.

use vstd::prelude::*;

use crate::mmu::Memory;

verus! {

/// The buttons, as two sets of four key bits.
pub struct Joypad {
    /// Whether the direction keys are the selected set.
    pub use_direction_keys: bool,
    /// Pressed direction keys, one bit each.
    pub direction_keys: u8,
    /// Pressed action keys, one bit each.
    pub action_keys: u8,
}

impl Joypad {
    /// A joypad with no key pressed and the action keys selected.
    pub fn new() -> (r: Joypad)
        ensures
            r.direction_keys == 0,
            r.action_keys == 0,
            !r.use_direction_keys,
    {
        Joypad { use_direction_keys: false, direction_keys: 0, action_keys: 0 }
    }

    /// Leaves the bus as it is: no joypad register is written.
    pub fn save_to_memory(&self, memory: &mut Memory)
        ensures
            *final(memory) == *old(memory),
    {
    }
}

} // verus!
