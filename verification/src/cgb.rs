//! Game Boy Color speed switching.
use vstd::prelude::*;

verus! {

/// The abstract state of the [`Cgb`] speed switch.
pub struct CgbView {
    pub double_speed: bool,
    pub speed_switch: bool,
}

/// The speed switch of the Game Boy Color (KEY1).
pub struct Cgb {
    double_speed: bool,
    speed_switch: bool,
}

impl View for Cgb {
    type V = CgbView;

    closed spec fn view(&self) -> CgbView {
        CgbView { double_speed: self.double_speed, speed_switch: self.speed_switch }
    }
}

impl Cgb {
    pub fn new() -> (r: Self)
        ensures
            r@ == (CgbView { double_speed: false, speed_switch: false }),
    {
        Self { double_speed: false, speed_switch: false }
    }

    /// Toggles the speed if a switch was requested (on STOP).
    pub fn try_switch_speed(&mut self)
        ensures
            final(self)@ == (if old(self)@.speed_switch {
                CgbView { double_speed: !old(self)@.double_speed, speed_switch: false }
            } else {
                old(self)@
            }),
    {
        if self.speed_switch {
            self.double_speed = !self.double_speed;
            self.speed_switch = false;
        }
    }

    pub fn double_speed(&self) -> (r: bool)
        ensures
            r == self@.double_speed,
    {
        self.double_speed
    }

    /// Read KEY1 register (0xff4d)
    pub fn read_speed_switch(&self) -> (r: u8)
        ensures
            r == (if self@.double_speed {
                0x80u8
            } else {
                0u8
            }) | (if self@.speed_switch {
                0x01u8
            } else {
                0u8
            }),
    {
        let mut v: u8 = 0;
        v = v | if self.double_speed {
            0x80
        } else {
            0x00
        };
        v = v | if self.speed_switch {
            0x01
        } else {
            0x00
        };
        proof {
            assert(0u8 | 0x80u8 == 0x80u8 && 0u8 | 0u8 == 0u8) by (bit_vector);
        }
        v
    }

    /// Write KEY1 register (0xff4d): bit 0 requests a speed switch.
    pub fn write_speed_switch(&mut self, value: u8)
        ensures
            final(self)@ == (CgbView { speed_switch: value & 0x01 != 0, ..old(self)@ }),
    {
        self.speed_switch = value & 0x01 != 0;
    }
}

/// Requesting a switch and then switching toggles the speed exactly once.
pub proof fn lemma_speed_switch_toggles(v: CgbView)
    ensures
        ({
            let requested = CgbView { speed_switch: true, ..v };
            let switched = if requested.speed_switch {
                CgbView { double_speed: !requested.double_speed, speed_switch: false }
            } else {
                requested
            };
            switched.double_speed == !v.double_speed && !switched.speed_switch
        }),
{
}

} // verus!
