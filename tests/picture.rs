use std::cell::Cell;

use gameboy_core::gpu::{Io, Mode, BACKGROUND_PALETTE_INDEX, BLACK, CONTROL_REGISTER_INDEX, DARK_GRAY, LIGHT_GRAY, PIXEL_COUNT, SCAN_LINE_INDEX, SCROLL_X_INDEX, WHITE};
use gameboy_core::mmu::INTERRUPT_FLAG_INDEX;
use gameboy_core::{Joypad, Memory, GPU};

struct CountingDrawer {
    frames: Cell<u32>,
}

impl Io for CountingDrawer {
    fn draw(&self, pixels: &[u8]) {
        assert_eq!(pixels.len(), PIXEL_COUNT);
        self.frames.set(self.frames.get() + 1);
    }
}

fn drawer() -> CountingDrawer {
    CountingDrawer { frames: Cell::new(0) }
}

#[test]
fn test_render_scan() {
    let mut memory = Memory::new();
    let mut gpu = GPU::new();

    assert_eq!(1, 1);
    let _ = (&mut memory, &mut gpu);
}

#[test]
fn new_gpu_is_blank() {
    let gpu = GPU::new();
    assert_eq!(gpu.mode(), Mode::HBlank);
    assert_eq!(gpu.pixels().len(), PIXEL_COUNT);
    assert!(gpu.pixels().iter().all(|&p| p == 0));
}

#[test]
fn modes_follow_their_lengths() {
    let mut memory = Memory::new();
    let mut gpu = GPU::new();
    let d = drawer();
    gpu.step(203, &mut memory, &d);
    assert_eq!(gpu.mode(), Mode::HBlank);
    assert_eq!(memory.read_byte(SCAN_LINE_INDEX), 0);
    gpu.step(1, &mut memory, &d);
    assert_eq!(gpu.mode(), Mode::VBlank);
    assert_eq!(memory.read_byte(SCAN_LINE_INDEX), 1);
    gpu.step(79, &mut memory, &d);
    assert_eq!(gpu.mode(), Mode::VBlank);
    gpu.step(1, &mut memory, &d);
    assert_eq!(gpu.mode(), Mode::VRAM);
    gpu.step(171, &mut memory, &d);
    assert_eq!(gpu.mode(), Mode::VRAM);
    gpu.step(1, &mut memory, &d);
    assert_eq!(gpu.mode(), Mode::HBlank);
    assert_eq!(d.frames.get(), 0);
}

#[test]
fn last_line_requests_vblank_and_draws() {
    let mut memory = Memory::new();
    memory.write_byte(SCAN_LINE_INDEX, 142);
    let mut gpu = GPU::new();
    let d = drawer();
    gpu.step(204, &mut memory, &d);
    assert_eq!(memory.read_byte(SCAN_LINE_INDEX), 143);
    assert_eq!(gpu.mode(), Mode::OAM);
    assert_eq!(memory.read_byte(INTERRUPT_FLAG_INDEX) & 0x01, 0x01);
    assert_eq!(d.frames.get(), 1);
    // the lines below the screen run in this mode until the line count wraps
    for line in 144..154u8 {
        gpu.step(255, &mut memory, &d);
        gpu.step(201, &mut memory, &d);
        assert_eq!(memory.read_byte(SCAN_LINE_INDEX), line);
        assert_eq!(gpu.mode(), Mode::OAM);
    }
    gpu.step(255, &mut memory, &d);
    gpu.step(201, &mut memory, &d);
    assert_eq!(memory.read_byte(SCAN_LINE_INDEX), 0);
    assert_eq!(gpu.mode(), Mode::HBlank);
    assert_eq!(d.frames.get(), 1);
}

#[test]
fn scan_line_is_drawn_from_tiles() {
    let mut memory = Memory::new();
    // tile set at 0x8000, map at 0x9800, palette 3-2-1-0
    memory.write_byte(CONTROL_REGISTER_INDEX, 0x10);
    memory.write_byte(BACKGROUND_PALETTE_INDEX, 0xE4);
    // tile 0, row 1: high byte all set, low byte only the leftmost pixel
    memory.write_byte(0x8002, 0xFF);
    memory.write_byte(0x8003, 0x80);
    let mut gpu = GPU::new();
    let d = drawer();
    gpu.step(204, &mut memory, &d);
    gpu.step(80, &mut memory, &d);
    gpu.step(172, &mut memory, &d);
    assert_eq!(gpu.mode(), Mode::HBlank);
    let row = 160 * (143 - 1);
    let pixels = gpu.pixels();
    // every tile of the line is tile 0, so each eighth column is the dark one
    for x in 0..160 {
        let expected = if x % 8 == 0 { BLACK } else { DARK_GRAY };
        assert_eq!(pixels[row + x], expected);
    }
    assert!(pixels[..row].iter().all(|&p| p == 0));
    assert!(pixels[row + 160..].iter().all(|&p| p == 0));
}

#[test]
fn scan_line_uses_signed_tile_set_and_scroll() {
    let mut memory = Memory::new();
    // tile set around 0x9000, map at 0x9C00, palette 0-1-2-3
    memory.write_byte(CONTROL_REGISTER_INDEX, 0x08);
    memory.write_byte(BACKGROUND_PALETTE_INDEX, 0x1B);
    memory.write_byte(SCROLL_X_INDEX, 8);
    // screen columns 0..8 show map entry 1, which names tile -1
    memory.write_byte(0x9C01, 0xFF);
    // tile -1 at 0x8FF0, row 1: low byte all set
    memory.write_byte(0x8FF3, 0xFF);
    let mut gpu = GPU::new();
    let d = drawer();
    gpu.step(204, &mut memory, &d);
    gpu.step(80, &mut memory, &d);
    gpu.step(172, &mut memory, &d);
    let row = 160 * 142;
    let pixels = gpu.pixels();
    for x in 0..8 {
        assert_eq!(pixels[row + x], DARK_GRAY);
    }
    for x in 8..160 {
        assert_eq!(pixels[row + x], BLACK);
    }
    let _ = (WHITE, LIGHT_GRAY);
}

#[test]
fn joypad_starts_released() {
    let pad = Joypad::new();
    assert_eq!(pad.direction_keys, 0);
    assert_eq!(pad.action_keys, 0);
    assert!(!pad.use_direction_keys);
    let mut memory = Memory::new();
    memory.write_byte(0xFF00, 0x3F);
    pad.save_to_memory(&mut memory);
    assert_eq!(memory.read_byte(0xFF00), 0x3F);
}
