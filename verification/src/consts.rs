use vstd::prelude::*;

verus! {

/// Width of the display in pixels.
pub const SCREEN_WIDTH: usize = 64;

/// Height of the display in pixels.
pub const SCREEN_HEIGHT: usize = 32;

/// Number of pixels on the display (`SCREEN_WIDTH * SCREEN_HEIGHT`).
pub const SCREEN_SIZE: usize = 2048;

/// Number of general purpose registers V0..VF.
pub const NUM_REGS: usize = 16;

/// Depth of the return-address stack.
pub const STACK_SIZE: usize = 16;

/// Bytes of addressable memory.
pub const RAM_SIZE: usize = 4096;

/// Number of keys on the hexadecimal keypad.
pub const NUM_KEYS: usize = 16;

/// Address at which programs are loaded and execution starts.
pub const PC_START_ADDR: u16 = 0x200;

/// Address of the first byte of the built-in font.
pub const FONTSET_START_ADDR: usize = 0;

/// Size of the built-in font in bytes (16 glyphs of 5 rows).
pub const FONTSET_SIZE: usize = 80;

/// Clock ticks per display frame (60 frames per second).
pub const TICKS_PER_FRAME: usize = 10;

} // verus!
