//! The serial port: a transfer register, its control, and the transfer clock.
use vstd::prelude::*;

use crate::ic::{Irq, Ints};

verus! {

/// The serial transfer data (SB) and control (SC) registers and the internal transfer clock.
/// The machine's link cable is reached through the bytes the functions hand out and take.
pub struct Serial {
    pub data: u8,
    pub recv: u8,
    pub ctrl: u8,
    pub clock: usize,
}

/// The interrupt lines with the serial request raised.
pub open spec fn serial_raised(irq: Irq) -> Irq {
    Irq { request: Ints { serial: true, ..irq.request }, ..irq }
}

/// The port after `time` cycles with `incoming` from the other end, the interrupt lines, and
/// the byte handed back to the other end, as [`Serial::step`] computes them.
pub open spec fn serial_step_spec(s: Serial, irq: Irq, time: nat, incoming: Option<u8>) -> (Serial, Irq, Option<u8>) {
    if s.ctrl & 0x80 == 0 {
        (s, irq, None)
    } else if s.ctrl & 0x01 != 0 {
        if s.clock < time {
            (Serial { data: s.recv, ctrl: s.ctrl & !0x80u8, ..s }, serial_raised(irq), None)
        } else {
            (Serial { clock: (s.clock - time) as usize, ..s }, irq, None)
        }
    } else {
        match incoming {
            Some(d) => (Serial { data: d, ctrl: s.ctrl & !0x80u8, ..s }, serial_raised(irq), Some(s.data)),
            None => (s, irq, None),
        }
    }
}

impl Serial {
    pub fn new() -> (r: Self)
        ensures
            r == (Serial { data: 0, recv: 0, ctrl: 0, clock: 0 }),
    {
        Self { data: 0, recv: 0, ctrl: 0, clock: 0 }
    }

    /// Whether a transfer on the external clock waits for a byte from the other end.
    pub fn wants_byte(&self) -> (r: bool)
        ensures
            r == (self.ctrl & 0x80 != 0 && self.ctrl & 0x01 == 0),
    {
        self.ctrl & 0x80 != 0 && self.ctrl & 0x01 == 0
    }

    /// Advances the transfer by `time` cycles. A transfer on the internal clock ends when its
    /// clock runs out; one on the external clock ends when `incoming` brings the other end's
    /// byte, and then hands out the byte to send back. Either end stores the received byte,
    /// clears the transfer bit, and requests the serial interrupt.
    pub fn step(&mut self, time: usize, irq: &mut Irq, incoming: Option<u8>) -> (r: Option<u8>)
        ensures
            (*final(self), *final(irq), r) == serial_step_spec(*old(self), *old(irq), time as nat, incoming),
            old(self).ctrl & 0x80 == 0 ==> *final(self) == *old(self) && *final(irq) == *old(irq)
                && r is None,
            old(self).ctrl & 0x80 != 0 && old(self).ctrl & 0x01 != 0 ==> r is None && if old(
                self,
            ).clock < time {
                *final(self) == (Serial {
                    data: old(self).recv,
                    ctrl: old(self).ctrl & !0x80u8,
                    ..*old(self)
                }) && *final(irq) == serial_raised(*old(irq))
            } else {
                *final(self) == (Serial { clock: (old(self).clock - time) as usize, ..*old(self) })
                    && *final(irq) == *old(irq)
            },
            old(self).ctrl & 0x80 != 0 && old(self).ctrl & 0x01 == 0 ==> match incoming {
                Some(d) => r == Some(old(self).data) && *final(self) == (Serial {
                    data: d,
                    ctrl: old(self).ctrl & !0x80u8,
                    ..*old(self)
                }) && *final(irq) == serial_raised(*old(irq)),
                None => r is None && *final(self) == *old(self) && *final(irq) == *old(irq),
            },
    {
        if self.ctrl & 0x80 == 0 {
            // No transfer
            return None;
        }
        if self.ctrl & 0x01 != 0 {
            if self.clock < time {
                self.data = self.recv;
                // End of transfer
                self.ctrl = self.ctrl & !0x80;
                irq.serial(true);
            } else {
                self.clock = self.clock - time;
            }
            None
        } else {
            match incoming {
                Some(data) => {
                    let out = self.data;
                    self.data = data;
                    // End of transfer
                    self.ctrl = self.ctrl & !0x80;
                    irq.serial(true);
                    Some(out)
                },
                None => None,
            }
        }
    }

    /// Reads SB.
    pub fn get_data(&self) -> (r: u8)
        ensures
            r == self.data,
    {
        self.data
    }

    /// Reads SC.
    pub fn get_ctrl(&self) -> (r: u8)
        ensures
            r == self.ctrl,
    {
        self.ctrl
    }

    /// Writes SB.
    pub fn set_data(&mut self, value: u8)
        ensures
            *final(self) == (Serial { data: value, ..*old(self) }),
    {
        self.data = value;
    }

    /// Writes SC. A transfer on the internal clock (8192 Hz, 512 CPU cycles a bit) starts
    /// at once: the byte to send is handed out, and the received byte is then given to
    /// [`Serial::receive`].
    pub fn set_ctrl(&mut self, value: u8) -> (r: Option<u8>)
        ensures
            value & 0x80 != 0 && value & 0x01 != 0 ==> r == Some(old(self).data) && *final(self)
                == (Serial { ctrl: value, clock: 4096usize, ..*old(self) }),
            !(value & 0x80 != 0 && value & 0x01 != 0) ==> r is None && *final(self) == (Serial {
                ctrl: value,
                ..*old(self)
            }),
    {
        self.ctrl = value;
        if self.ctrl & 0x80 != 0 && self.ctrl & 0x01 != 0 {
            // Internal clock is 8192 Hz = 512 cpu clocks
            self.clock = 512 * 8;
            Some(self.data)
        } else {
            None
        }
    }

    /// Takes the byte the other end returned for an internal-clock transfer; with none, the
    /// line reads high.
    pub fn receive(&mut self, b: Option<u8>)
        ensures
            *final(self) == (Serial {
                recv: match b {
                    Some(v) => v,
                    None => 0xff,
                },
                ..*old(self)
            }),
    {
        self.recv = match b {
            Some(v) => v,
            None => 0xff,
        };
    }
}

} // verus!
