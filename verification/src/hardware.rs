//! What the emulator needs from the machine it runs on: the display size and the keys.
use vstd::prelude::*;

verus! {

/// The width of the VRAM.
pub const VRAM_WIDTH: usize = 160;

/// The height of the VRAM.
pub const VRAM_HEIGHT: usize = 144;

/// Represents a key of the joypad.
#[derive(Clone, Copy, Debug, PartialEq, Eq, Hash, Structural)]
pub enum Key {
    /// Cursor right key.
    Right,
    /// Cursor left key.
    Left,
    /// Cursor up key.
    Up,
    /// Cursor down key.
    Down,
    /// A key.
    A,
    /// B key.
    B,
    /// Select key.
    Select,
    /// Start key.
    Start,
}

} // verus!
