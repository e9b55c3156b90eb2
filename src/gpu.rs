//! The picture unit: scan line modes and background rendering.

use vstd::prelude::*;

use crate::mmu::{requested, tile_set0_start, tile_set1_start, zeroed, Interrupt, Memory};

verus! {

pub const CONTROL_REGISTER_INDEX: u16 = 0xFF40;
pub const SCROLL_Y_INDEX: u16 = 0xFF42;
pub const SCROLL_X_INDEX: u16 = 0xFF43;
pub const SCAN_LINE_INDEX: u16 = 0xFF44;
pub const BACKGROUND_PALETTE_INDEX: u16 = 0xFF47;

pub const WHITE: u8 = 0b11111111;
pub const LIGHT_GRAY: u8 = 0b01001010;
pub const DARK_GRAY: u8 = 0b00100101;
pub const BLACK: u8 = 0b00000000;

pub const SCREEN_WIDTH: usize = 160;
pub const SCREEN_HEIGHT: usize = 144;
pub const PIXEL_COUNT: usize = 23040;

/// Bit of the control register that selects the background tile map at 0x9C00.
pub const BACKGROUND_TILE_MAP: u8 = 0x08;
/// Bit of the control register that selects the tile set at 0x8000.
pub const BACKGROUND_TILE_SET: u8 = 0x10;

/// Cycles each mode lasts.
pub const H_BLANK_CYCLES: u64 = 204;
pub const V_BLANK_CYCLES: u64 = 80;
pub const OAM_CYCLES: u64 = 456;
pub const VRAM_CYCLES: u64 = 172;

#[derive(Clone, Copy, Debug, PartialEq, Eq, Structural)]
pub enum Mode {
    HBlank,
    VBlank,
    OAM,
    VRAM,
}

/// Where finished frames go.
pub trait Io {
    fn draw(&self, pixels: &[u8]);
}

/// `a + b` modulo 256.
pub open spec fn wrap_add(a: u8, b: u8) -> u8 {
    ((a + b) % 256) as u8
}

/// The shade that the two palette bits `bits` select.
pub open spec fn shade(bits: u8) -> u8 {
    if bits == 0 {
        WHITE
    } else if bits == 1 {
        LIGHT_GRAY
    } else if bits == 2 {
        DARK_GRAY
    } else {
        BLACK
    }
}

/// The four shades of the background palette register `order`, two bits
/// each, colour 0 in the lowest bits.
pub open spec fn palette_spec(order: u8) -> Seq<u8> {
    seq![shade(order & 3), shade((order >> 2u8) & 3), shade((order >> 4u8) & 3), shade((order >> 6u8) & 3)]
}

/// Address of the tile row (high byte first) that screen column `x` of the
/// current scan line shows.
pub open spec fn tile_row_start(bus: Seq<u8>, x: u8) -> int {
    let flag = bus[CONTROL_REGISTER_INDEX as int];
    let line_offset = wrap_add(bus[SCAN_LINE_INDEX as int], bus[SCROLL_Y_INDEX as int]);
    let x_offset = wrap_add(x, bus[SCROLL_X_INDEX as int]);
    let map: int = if flag & BACKGROUND_TILE_MAP == BACKGROUND_TILE_MAP {
        0x9C00
    } else {
        0x9800
    };
    let tile_id = bus[map + 32 * (line_offset / 8) + x_offset / 8];
    let start = if flag & BACKGROUND_TILE_SET == BACKGROUND_TILE_SET {
        tile_set1_start(tile_id)
    } else {
        tile_set0_start(tile_id as i8)
    };
    start + (line_offset % 8) * 2
}

/// The shade of screen column `x` of the current scan line.
pub open spec fn pixel_color(bus: Seq<u8>, x: u8) -> u8 {
    let x_offset = wrap_add(x, bus[SCROLL_X_INDEX as int]);
    let column = (7 - x_offset % 8) as u8;
    let start = tile_row_start(bus, x);
    let high: int = if bus[start] & (1u8 << column) != 0 {
        2
    } else {
        0
    };
    let low: int = if bus[start + 1] & (1u8 << column) != 0 {
        1
    } else {
        0
    };
    palette_spec(bus[BACKGROUND_PALETTE_INDEX as int])[high + low]
}

/// The screen after the current scan line was drawn into it; row 0 of the
/// buffer is the bottom line. A scan line below the screen draws nothing.
pub open spec fn rendered(pixels: Seq<u8>, bus: Seq<u8>) -> Seq<u8> {
    let line = bus[SCAN_LINE_INDEX as int];
    if line > 143 {
        pixels
    } else {
        let row_start = SCREEN_WIDTH * (143 - line);
        Seq::new(
            pixels.len(),
            |i: int|
                if row_start <= i < row_start + SCREEN_WIDTH {
                    pixel_color(bus, (i - row_start) as u8)
                } else {
                    pixels[i]
                },
        )
    }
}

/// The bus with the scan line register advanced by one, modulo 256.
pub open spec fn next_line(bus: Seq<u8>) -> Seq<u8> {
    bus.update(SCAN_LINE_INDEX as int, wrap_add(bus[SCAN_LINE_INDEX as int], 1))
}

/// Mode, cycles, bus and screen after a step of `steps` cycles.
pub open spec fn gpu_step(mode: Mode, cycles: u64, pixels: Seq<u8>, bus: Seq<u8>, steps: u8) -> (
    Mode,
    u64,
    Seq<u8>,
    Seq<u8>,
) {
    gpu_advance(mode, (cycles + steps) as u64, pixels, bus)
}

/// Mode, cycles, bus and screen once the cycle count has reached `c`: a mode
/// that has lasted its length moves on, with the cycle count back at zero.
pub open spec fn gpu_advance(mode: Mode, c: u64, pixels: Seq<u8>, bus: Seq<u8>) -> (
    Mode,
    u64,
    Seq<u8>,
    Seq<u8>,
) {
    match mode {
        Mode::HBlank => if c >= H_BLANK_CYCLES {
            let b = next_line(bus);
            if b[SCAN_LINE_INDEX as int] == 143 {
                (Mode::OAM, 0, requested(b, Interrupt::Vblank), pixels)
            } else {
                (Mode::VBlank, 0, b, pixels)
            }
        } else {
            (mode, c, bus, pixels)
        },
        Mode::VBlank => if c >= V_BLANK_CYCLES {
            (Mode::VRAM, 0, bus, pixels)
        } else {
            (mode, c, bus, pixels)
        },
        Mode::OAM => if c >= OAM_CYCLES {
            let b = next_line(bus);
            if b[SCAN_LINE_INDEX as int] > 153 {
                (Mode::HBlank, 0, b.update(SCAN_LINE_INDEX as int, 0), pixels)
            } else {
                (Mode::OAM, 0, b, pixels)
            }
        } else {
            (mode, c, bus, pixels)
        },
        Mode::VRAM => if c >= VRAM_CYCLES {
            (Mode::HBlank, 0, bus, rendered(pixels, bus))
        } else {
            (mode, c, bus, pixels)
        },
    }
}

fn shade_of(bits: u8) -> (r: u8)
    ensures
        r == shade(bits),
{
    if bits == 0 {
        WHITE
    } else if bits == 1 {
        LIGHT_GRAY
    } else if bits == 2 {
        DARK_GRAY
    } else {
        BLACK
    }
}

/// The picture unit: walks the modes of each scan line and draws the
/// background into a screen buffer.
pub struct GPU {
    pixels: Vec<u8>,
    cycles: u64,
    mode: Mode,
}

impl GPU {
    pub closed spec fn mode_spec(&self) -> Mode {
        self.mode
    }

    pub closed spec fn cycles_spec(&self) -> u64 {
        self.cycles
    }

    pub closed spec fn pixels_spec(&self) -> Seq<u8> {
        self.pixels@
    }

    /// The screen holds every pixel and the cycle count stays below the
    /// longest mode.
    pub closed spec fn wf(&self) -> bool {
        self.pixels@.len() == PIXEL_COUNT && self.cycles < OAM_CYCLES
    }

    pub fn new() -> (r: GPU)
        ensures
            r.wf(),
            r.mode_spec() == Mode::HBlank,
            r.cycles_spec() == 0,
            r.pixels_spec().len() == PIXEL_COUNT,
            forall|i: int| 0 <= i < PIXEL_COUNT ==> #[trigger] r.pixels_spec()[i] == 0,
    {
        GPU { pixels: zeroed(PIXEL_COUNT), cycles: 0, mode: Mode::HBlank }
    }

    /// The screen buffer, bottom line first.
    pub fn pixels(&self) -> (r: &Vec<u8>)
        ensures
            r@ == self.pixels_spec(),
    {
        &self.pixels
    }

    pub fn mode(&self) -> (r: Mode)
        ensures
            r == self.mode_spec(),
    {
        self.mode
    }

    /// Advances by `steps` cycles; a finished frame goes to `drawer`.
    pub fn step<T: Io>(&mut self, steps: u8, memory: &mut Memory, drawer: &T)
        requires
            old(self).wf(),
            old(memory).wf(),
        ensures
            final(self).wf(),
            final(memory).wf(),
            (final(self).mode_spec(), final(self).cycles_spec(), final(memory)@, final(self).pixels_spec())
                == gpu_step(
                old(self).mode_spec(),
                old(self).cycles_spec(),
                old(self).pixels_spec(),
                old(memory)@,
                steps,
            ),
    {
        self.cycles = self.cycles + steps as u64;
        match self.mode {
            Mode::HBlank => self.h_blank(memory, drawer),
            Mode::VBlank => self.v_blank(memory),
            Mode::OAM => self.oam(memory),
            Mode::VRAM => self.vram(memory),
        }
    }

    /// The mode's move once the cycle count has been advanced.
    spec fn advanced(self, memory: Memory, after: Self, memory_after: Memory) -> bool {
        &&& after.pixels@.len() == PIXEL_COUNT
        &&& after.cycles < OAM_CYCLES
        &&& memory_after.wf()
        &&& (after.mode, after.cycles, memory_after@, after.pixels@) == gpu_advance(
            self.mode,
            self.cycles,
            self.pixels@,
            memory@,
        )
    }

    fn h_blank<T: Io>(&mut self, memory: &mut Memory, drawer: &T)
        requires
            old(self).pixels@.len() == PIXEL_COUNT,
            old(self).cycles < OAM_CYCLES + 256,
            old(self).mode == Mode::HBlank,
            old(memory).wf(),
        ensures
            old(self).advanced(*old(memory), *final(self), *final(memory)),
    {
        if self.cycles >= H_BLANK_CYCLES {
            self.cycles = 0;
            self.increment_scanline(memory);
            if memory.read_byte(SCAN_LINE_INDEX) == 143 {
                self.mode = Mode::OAM;
                drawer.draw(self.pixels.as_slice());
                memory.request_interrupt(Interrupt::Vblank);
            } else {
                self.mode = Mode::VBlank;
            }
        }
    }

    fn v_blank(&mut self, memory: &Memory)
        requires
            old(self).pixels@.len() == PIXEL_COUNT,
            old(self).cycles < OAM_CYCLES + 256,
            old(self).mode == Mode::VBlank,
            memory.wf(),
        ensures
            old(self).advanced(*memory, *final(self), *memory),
    {
        if self.cycles >= V_BLANK_CYCLES {
            self.mode = Mode::VRAM;
            self.cycles = 0;
        }
    }

    fn oam(&mut self, memory: &mut Memory)
        requires
            old(self).pixels@.len() == PIXEL_COUNT,
            old(self).cycles < OAM_CYCLES + 256,
            old(self).mode == Mode::OAM,
            old(memory).wf(),
        ensures
            old(self).advanced(*old(memory), *final(self), *final(memory)),
    {
        if self.cycles >= OAM_CYCLES {
            self.cycles = 0;
            self.increment_scanline(memory);
            if memory.read_byte(SCAN_LINE_INDEX) > 153 {
                self.mode = Mode::HBlank;
                memory.write_byte(SCAN_LINE_INDEX, 0);
            }
        }
    }

    fn vram(&mut self, memory: &Memory)
        requires
            old(self).pixels@.len() == PIXEL_COUNT,
            old(self).cycles < OAM_CYCLES + 256,
            old(self).mode == Mode::VRAM,
            memory.wf(),
        ensures
            old(self).advanced(*memory, *final(self), *memory),
    {
        if self.cycles >= VRAM_CYCLES {
            self.cycles = 0;
            self.mode = Mode::HBlank;
            self.render_scan(memory);
        }
    }

    /// Advances the scan line register by one, modulo 256.
    fn increment_scanline(&self, memory: &mut Memory)
        requires
            old(memory).wf(),
        ensures
            final(memory).wf(),
            final(memory)@ == next_line(old(memory)@),
    {
        let scanline = memory.read_byte(SCAN_LINE_INDEX);
        memory.write_byte(SCAN_LINE_INDEX, ((scanline as u16 + 1) % 256) as u8);
    }

    fn get_palette(&self, memory: &Memory) -> (r: [u8; 4])
        requires
            memory.wf(),
        ensures
            r@ == palette_spec(memory@[BACKGROUND_PALETTE_INDEX as int]),
    {
        let order = memory.read_byte(BACKGROUND_PALETTE_INDEX);
        let r = [shade_of(order & 3), shade_of((order >> 2u8) & 3), shade_of((order >> 4u8) & 3), shade_of((order >> 6u8) & 3)];
        assert(r@ =~= palette_spec(order));
        r
    }

    /// Draws the current scan line of the background into the screen.
    fn render_scan(&mut self, memory: &Memory)
        requires
            old(self).pixels@.len() == PIXEL_COUNT,
            memory.wf(),
        ensures
            final(self).pixels@ == rendered(old(self).pixels@, memory@),
            final(self).cycles == old(self).cycles,
            final(self).mode == old(self).mode,
    {
        let flag = memory.read_byte(CONTROL_REGISTER_INDEX);
        let scan_line = memory.read_byte(SCAN_LINE_INDEX);
        let scroll_y = memory.read_byte(SCROLL_Y_INDEX);
        let scroll_x = memory.read_byte(SCROLL_X_INDEX);
        let palette = self.get_palette(memory);
        if scan_line > 143 {
            return;
        }
        let line_offset = ((scan_line as u16 + scroll_y as u16) % 256) as u8;
        let map_y = (line_offset / 8) as usize;
        let row_start = SCREEN_WIDTH * (143 - scan_line as usize);
        let ghost old_pixels = self.pixels@;
        let mut x: u8 = 0;
        while x < 160
            invariant
                memory.wf(),
                scan_line == memory@[SCAN_LINE_INDEX as int],
                flag == memory@[CONTROL_REGISTER_INDEX as int],
                scroll_y == memory@[SCROLL_Y_INDEX as int],
                scroll_x == memory@[SCROLL_X_INDEX as int],
                palette@ == palette_spec(memory@[BACKGROUND_PALETTE_INDEX as int]),
                scan_line <= 143,
                line_offset == wrap_add(scan_line, scroll_y),
                map_y == line_offset / 8,
                row_start == SCREEN_WIDTH * (143 - scan_line),
                x <= 160,
                self.cycles == old(self).cycles,
                self.mode == old(self).mode,
                old_pixels.len() == PIXEL_COUNT,
                self.pixels@.len() == PIXEL_COUNT,
                forall|i: int|
                    0 <= i < PIXEL_COUNT ==> #[trigger] self.pixels@[i] == if row_start <= i
                        < row_start + x {
                        pixel_color(memory@, (i - row_start) as u8)
                    } else {
                        old_pixels[i]
                    },
            decreases 160 - x,
        {
            let x_offset = ((x as u16 + scroll_x as u16) % 256) as u8;
            let map_x = (x_offset / 8) as usize;
            let tile_id = if flag & BACKGROUND_TILE_MAP == BACKGROUND_TILE_MAP {
                memory.read_byte((0x9C00 + (32 * map_y + map_x)) as u16)
            } else {
                memory.read_byte((0x9800 + (32 * map_y + map_x)) as u16)
            };
            let tile = if flag & BACKGROUND_TILE_SET == BACKGROUND_TILE_SET {
                memory.get_tile_from_set1(tile_id)
            } else {
                memory.get_tile_from_set0(#[verifier::truncate] (tile_id as i8))
            };
            let row_num = ((line_offset % 8) * 2) as usize;
            let column = 7 - x_offset % 8;
            let high = tile[row_num];
            let low = tile[row_num + 1];
            let high_color: u8 = if high & (1u8 << column) != 0 {
                2
            } else {
                0
            };
            let low_color: u8 = if low & (1u8 << column) != 0 {
                1
            } else {
                0
            };
            let color = palette[(high_color + low_color) as usize];
            assert(color == pixel_color(memory@, x));
            self.pixels.set(row_start + x as usize, color);
            x = x + 1;
        }
        assert(self.pixels@ =~= rendered(old_pixels, memory@));
    }
}

} // verus!
