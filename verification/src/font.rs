//! The machine's dimensions and its built-in glyph table.

use vstd::prelude::*;

verus! {

/// Bytes of addressable memory.
pub const CHIP8_RAM_SIZE: usize = 4096;

/// Columns of the framebuffer.
pub const CHIP8_GFX_WIDTH: usize = 64;

/// Rows of the framebuffer.
pub const CHIP8_GFX_HEIGHT: usize = 32;

/// General-purpose registers; the last one is the flag register.
pub const CHIP8_N_REGISTERS: usize = 16;

/// Keys of the keypad.
pub const CHIP8_N_KEYS: usize = 16;

/// Return addresses the call stack can hold.
pub const CHIP8_STACK_DEPTH: usize = 16;

/// Address at which a program image is loaded and at which execution starts.
pub const CHIP8_PROGRAM_START: usize = 0x200;

/// Address at which the glyph table is written when a machine is created.
pub const FONT_BASE: usize = 0x50;

/// Bytes in the glyph table.
pub const FONT_LEN: usize = 80;

/// Sprites of the hexadecimal digits 0 to F, five bytes each, one byte per
/// row, the glyph in the high nibble.
pub const FONT_SET: [u8; 80] = [
    0xF0, 0x90, 0x90, 0x90, 0xF0,
    0x20, 0x60, 0x20, 0x20, 0x70,
    0xF0, 0x10, 0xF0, 0x80, 0xF0,
    0xF0, 0x10, 0xF0, 0x10, 0xF0,
    0x90, 0x90, 0xF0, 0x10, 0x10,
    0xF0, 0x80, 0xF0, 0x10, 0xF0,
    0xF0, 0x80, 0xF0, 0x90, 0xF0,
    0xF0, 0x10, 0x20, 0x40, 0x40,
    0xF0, 0x90, 0xF0, 0x90, 0xF0,
    0xF0, 0x90, 0xF0, 0x10, 0xF0,
    0xF0, 0x90, 0xF0, 0x90, 0x90,
    0xE0, 0x90, 0xE0, 0x90, 0xE0,
    0xF0, 0x80, 0x80, 0x80, 0xF0,
    0xE0, 0x90, 0x90, 0x90, 0xE0,
    0xF0, 0x80, 0xF0, 0x80, 0xF0,
    0xF0, 0x80, 0xF0, 0x80, 0x80,
];

} // verus!
