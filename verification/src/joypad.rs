//! The joypad register.
use vstd::prelude::*;

use crate::mmu::{MemRead, MemWrite};

verus! {

/// Which keys the machine reports pressed.
#[derive(Clone, Copy, Debug, PartialEq, Eq, Structural)]
pub struct Keys {
    pub right: bool,
    pub left: bool,
    pub up: bool,
    pub down: bool,
    pub a: bool,
    pub b: bool,
    pub select: bool,
    pub start: bool,
}

/// A key's line in P1: 0 while pressed.
pub open spec fn line(pressed: bool, mask: u8) -> u8 {
    if pressed {
        0
    } else {
        mask
    }
}

/// The low nibble of P1: the direction keys when bit 4 of the selection is clear, else the
/// buttons when bit 5 is clear, else no key.
pub open spec fn joypad_value(select: u8, k: Keys) -> u8 {
    if select & 0x10 == 0 {
        line(k.right, 0x01) | line(k.left, 0x02) | line(k.up, 0x04) | line(k.down, 0x08)
    } else if select & 0x20 == 0 {
        line(k.a, 0x01) | line(k.b, 0x02) | line(k.select, 0x04) | line(k.start, 0x08)
    } else {
        0x0f
    }
}

/// The P1 register (0xff00): selects a key group and reads its keys.
pub struct Joypad {
    pub select: u8,
}

impl Joypad {
    pub fn new() -> (r: Self)
        ensures
            r.select == 0xff,
    {
        Self { select: 0xff }
    }

    /// Reads P1 with the keys the machine reports pressed; other addresses pass through.
    pub fn on_read(&self, addr: u16, keys: Keys) -> (r: MemRead)
        ensures
            r == (if addr == 0xff00 {
                MemRead::Replace(joypad_value(self.select, keys))
            } else {
                MemRead::PassThrough
            }),
    {
        if addr == 0xff00 {
            let value = if self.select & 0x10 == 0 {
                (if keys.right { 0x00u8 } else { 0x01u8 }) | (if keys.left { 0x00u8 } else { 0x02u8 })
                    | (if keys.up { 0x00u8 } else { 0x04u8 }) | (if keys.down { 0x00u8 } else { 0x08u8 })
            } else if self.select & 0x20 == 0 {
                (if keys.a { 0x00u8 } else { 0x01u8 }) | (if keys.b { 0x00u8 } else { 0x02u8 }) | (
                if keys.select { 0x00u8 } else { 0x04u8 }) | (if keys.start { 0x00u8 } else { 0x08u8 })
            } else {
                0x0f
            };
            MemRead::Replace(value)
        } else {
            MemRead::PassThrough
        }
    }

    /// Writes P1: the upper nibble selects the key group.
    pub fn on_write(&mut self, addr: u16, value: u8) -> (r: MemWrite)
        ensures
            r == MemWrite::PassThrough,
            final(self).select == (if addr == 0xff00 {
                value & 0xf0
            } else {
                old(self).select
            }),
    {
        if addr == 0xff00 {
            self.select = value & 0xf0;
        }
        MemWrite::PassThrough
    }
}

} // verus!
