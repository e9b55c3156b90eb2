//! The memory bus: a flat 64 KiB byte store with the interrupt request register.

use vstd::prelude::*;

verus! {

/// Number of addressable bytes on the bus.
pub const MEMORY_SIZE: usize = 0x10000;

/// Address of the interrupt request register.
pub const INTERRUPT_FLAG_INDEX: u16 = 0xFF0F;

/// The interrupt sources of the interrupt request register, lowest bit first.
#[derive(Clone, Copy, Debug, PartialEq, Eq, Structural)]
pub enum Interrupt {
    Vblank,
    LcdStat,
    Timer,
    Serial,
    Joypad,
}

impl Interrupt {
    /// The bit of the interrupt request register that stands for this source.
    pub open spec fn mask_spec(self) -> u8 {
        match self {
            Interrupt::Vblank => 0x01,
            Interrupt::LcdStat => 0x02,
            Interrupt::Timer => 0x04,
            Interrupt::Serial => 0x08,
            Interrupt::Joypad => 0x10,
        }
    }

    pub fn mask(self) -> (r: u8)
        ensures
            r == self.mask_spec(),
    {
        match self {
            Interrupt::Vblank => 0x01,
            Interrupt::LcdStat => 0x02,
            Interrupt::Timer => 0x04,
            Interrupt::Serial => 0x08,
            Interrupt::Joypad => 0x10,
        }
    }
}

/// `n` zero bytes.
pub(crate) fn zeroed(n: usize) -> (r: Vec<u8>)
    ensures
        r@.len() == n,
        forall|i: int| 0 <= i < n ==> #[trigger] r@[i] == 0,
{
    let mut bytes: Vec<u8> = Vec::new();
    let mut i: usize = 0;
    while i < n
        invariant
            i <= n,
            bytes@.len() == i,
            forall|j: int| 0 <= j < i ==> #[trigger] bytes@[j] == 0,
        decreases n - i,
    {
        bytes.push(0);
        i = i + 1;
    }
    bytes
}

/// The memory bus: one byte per address of the 16-bit address space.
pub struct Memory {
    bytes: Vec<u8>,
}

impl View for Memory {
    type V = Seq<u8>;

    closed spec fn view(&self) -> Seq<u8> {
        self.bytes@
    }
}

/// The bus contents after the interrupt `i` was requested.
pub open spec fn requested(bus: Seq<u8>, i: Interrupt) -> Seq<u8> {
    bus.update(INTERRUPT_FLAG_INDEX as int, bus[INTERRUPT_FLAG_INDEX as int] | i.mask_spec())
}

impl Memory {
    /// Every address holds a byte.
    pub open spec fn wf(&self) -> bool {
        self@.len() == MEMORY_SIZE
    }

    /// A bus on which every address reads zero.
    pub fn new() -> (r: Memory)
        ensures
            r.wf(),
            forall|i: int| 0 <= i < MEMORY_SIZE ==> #[trigger] r@[i] == 0,
    {
        let bytes = zeroed(MEMORY_SIZE);
        Memory { bytes }
    }

    pub fn read_byte(&self, address: u16) -> (r: u8)
        requires
            self.wf(),
        ensures
            r == self@[address as int],
    {
        self.bytes[address as usize]
    }

    pub fn write_byte(&mut self, address: u16, value: u8)
        requires
            old(self).wf(),
        ensures
            final(self)@ == old(self)@.update(address as int, value),
            final(self).wf(),
    {
        self.bytes.set(address as usize, value);
    }

    /// Raises the request bit of `i` in the interrupt request register.
    pub fn request_interrupt(&mut self, i: Interrupt)
        requires
            old(self).wf(),
        ensures
            final(self)@ == requested(old(self)@, i),
            final(self).wf(),
    {
        let flags = self.read_byte(INTERRUPT_FLAG_INDEX);
        self.write_byte(INTERRUPT_FLAG_INDEX, flags | i.mask());
    }

    /// The 16 bytes from `start` on.
    fn tile_at(&self, start: usize) -> (r: Vec<u8>)
        requires
            self.wf(),
            start + 16 <= MEMORY_SIZE,
        ensures
            r@ == self@.subrange(start as int, start + 16),
    {
        let mut r: Vec<u8> = Vec::new();
        let mut i: usize = 0;
        while i < 16
            invariant
                self.wf(),
                start + 16 <= MEMORY_SIZE,
                i <= 16,
                r@ == self@.subrange(start as int, start + i),
            decreases 16 - i,
        {
            r.push(self.bytes[start + i]);
            i = i + 1;
            assert(r@ =~= self@.subrange(start as int, start + i));
        }
        r
    }

    /// Tile `id` of the tile set at 0x8000, numbered from 0 to 255: its
    /// 16 bytes, two per row.
    pub fn get_tile_from_set1(&self, id: u8) -> (r: Vec<u8>)
        requires
            self.wf(),
        ensures
            r@ == self@.subrange(tile_set1_start(id), tile_set1_start(id) + 16),
    {
        self.tile_at(0x8000 + 16 * (id as usize))
    }

    /// Tile `id` of the tile set around 0x9000, numbered from -128 to 127.
    pub fn get_tile_from_set0(&self, id: i8) -> (r: Vec<u8>)
        requires
            self.wf(),
        ensures
            r@ == self@.subrange(tile_set0_start(id), tile_set0_start(id) + 16),
    {
        self.tile_at((0x9000 + 16 * (id as i64)) as usize)
    }
}

/// Address of the first byte of tile `id` of the tile set at 0x8000.
pub open spec fn tile_set1_start(id: u8) -> int {
    0x8000 + 16 * id
}

/// Address of the first byte of tile `id` of the tile set around 0x9000.
pub open spec fn tile_set0_start(id: i8) -> int {
    0x9000 + 16 * id
}

} // verus!
