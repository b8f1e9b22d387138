//! The interrupt controller.
use vstd::prelude::*;

verus! {

/// The five interrupt lines.
#[derive(Debug, Default, Clone, Copy)]
pub struct Ints {
    pub vblank: bool,
    pub lcd: bool,
    pub timer: bool,
    pub serial: bool,
    pub joypad: bool,
}

pub open spec fn bit(b: bool, mask: u8) -> u8 {
    if b {
        mask
    } else {
        0
    }
}

/// The register value of a set of lines: bits 0 to 4 for VBlank, LCD, timer, serial, joypad.
pub open spec fn ints_bits(i: Ints) -> u8 {
    (bit(i.vblank, 0x01) | bit(i.lcd, 0x02) | bit(i.timer, 0x04) | bit(i.serial, 0x08) | bit(
        i.joypad,
        0x10,
    ))
}

/// The lines encoded by a register value.
pub open spec fn ints_from_bits(value: u8) -> Ints {
    Ints {
        vblank: value & 0x01 != 0,
        lcd: value & 0x02 != 0,
        timer: value & 0x04 != 0,
        serial: value & 0x08 != 0,
        joypad: value & 0x10 != 0,
    }
}

impl Ints {
    fn set(&mut self, value: u8)
        ensures
            *final(self) == ints_from_bits(value),
    {
        self.vblank = value & 0x01 != 0;
        self.lcd = value & 0x02 != 0;
        self.timer = value & 0x04 != 0;
        self.serial = value & 0x08 != 0;
        self.joypad = value & 0x10 != 0;
    }

    fn get(&self) -> (r: u8)
        ensures
            r == ints_bits(*self),
    {
        let mut v: u8 = 0;
        v = v | if self.vblank {
            0x01
        } else {
            0x00
        };
        v = v | if self.lcd {
            0x02
        } else {
            0x00
        };
        v = v | if self.timer {
            0x04
        } else {
            0x00
        };
        v = v | if self.serial {
            0x08
        } else {
            0x00
        };
        v = v | if self.joypad {
            0x10
        } else {
            0x00
        };
        proof {
            lemma_bits_fold(*self);
        }
        v
    }
}

proof fn lemma_bits_fold(i: Ints)
    ensures
        ((((0u8 | bit(i.vblank, 0x01)) | bit(i.lcd, 0x02)) | bit(i.timer, 0x04)) | bit(
            i.serial,
            0x08,
        )) | bit(i.joypad, 0x10) == ints_bits(i),
{
    let a = bit(i.vblank, 0x01);
    let b = bit(i.lcd, 0x02);
    let c = bit(i.timer, 0x04);
    let d = bit(i.serial, 0x08);
    let e = bit(i.joypad, 0x10);
    assert(((((0u8 | a) | b) | c) | d) | e == ((((a | b) | c) | d) | e)) by (bit_vector);
}

/// Interrupt enable and request lines shared by the devices and the controller.
#[derive(Clone)]
pub struct Irq {
    pub enable: Ints,
    pub request: Ints,
}

impl Irq {
    pub fn new() -> (r: Irq)
        ensures
            r.enable == Ints::default_spec(),
            r.request == Ints::default_spec(),
    {
        Irq { enable: Ints::none(), request: Ints::none() }
    }

    /// Request/cancel vblank interrupt
    pub fn vblank(&mut self, v: bool)
        ensures
            *final(self) == (Irq { request: Ints { vblank: v, ..old(self).request }, ..*old(self) }),
    {
        self.request.vblank = v;
    }

    /// Request/cancel LCD interrupt
    pub fn lcd(&mut self, v: bool)
        ensures
            *final(self) == (Irq { request: Ints { lcd: v, ..old(self).request }, ..*old(self) }),
    {
        self.request.lcd = v;
    }

    /// Request/cancel timer interrupt
    pub fn timer(&mut self, v: bool)
        ensures
            *final(self) == (Irq { request: Ints { timer: v, ..old(self).request }, ..*old(self) }),
    {
        self.request.timer = v;
    }

    /// Request/cancel serial interrupt
    pub fn serial(&mut self, v: bool)
        ensures
            *final(self) == (Irq { request: Ints { serial: v, ..old(self).request }, ..*old(self) }),
    {
        self.request.serial = v;
    }

    /// Request/cancel joypad interrupt
    pub fn joypad(&mut self, v: bool)
        ensures
            *final(self) == (Irq { request: Ints { joypad: v, ..old(self).request }, ..*old(self) }),
    {
        self.request.joypad = v;
    }
}

impl Ints {
    pub open spec fn default_spec() -> Ints {
        Ints { vblank: false, lcd: false, timer: false, serial: false, joypad: false }
    }

    pub fn none() -> (r: Ints)
        ensures
            r == Ints::default_spec(),
    {
        Ints { vblank: false, lcd: false, timer: false, serial: false, joypad: false }
    }
}

/// The vector of the highest-priority interrupt that is both enabled and requested, with the
/// request lines after serving it (its request cleared when `consume`).
pub open spec fn check_spec(irq: Irq, consume: bool) -> (Irq, Option<u8>) {
    let e = irq.enable;
    let r = irq.request;
    if e.vblank && r.vblank {
        (Irq { request: Ints { vblank: !consume, ..r }, ..irq }, Some(0x40u8))
    } else if e.lcd && r.lcd {
        (Irq { request: Ints { lcd: !consume, ..r }, ..irq }, Some(0x48u8))
    } else if e.timer && r.timer {
        (Irq { request: Ints { timer: !consume, ..r }, ..irq }, Some(0x50u8))
    } else if e.serial && r.serial {
        (Irq { request: Ints { serial: !consume, ..r }, ..irq }, Some(0x58u8))
    } else if e.joypad && r.joypad {
        (Irq { request: Ints { joypad: !consume, ..r }, ..irq }, Some(0x60u8))
    } else {
        (irq, None)
    }
}

/// Interrupt controller
pub struct Ic {
    irq: Irq,
}

impl View for Ic {
    type V = Irq;

    closed spec fn view(&self) -> Irq {
        self.irq
    }
}

impl Ic {
    pub fn new(irq: Irq) -> (r: Ic)
        ensures
            r@ == irq,
    {
        Ic { irq }
    }

    /// The interrupt lines, for devices to request interrupts.
    pub fn irq(&mut self) -> (r: &mut Irq)
        ensures
            *r == old(self)@,
            final(self)@ == *final(r),
    {
        &mut self.irq
    }

    /// Get the interrupt vector address without clearing the interrupt flag state
    pub fn peek(&self) -> (r: Option<u8>)
        ensures
            r == check_spec(self@, false).1,
    {
        let e = &self.irq.enable;
        let r = &self.irq.request;
        if e.vblank && r.vblank {
            Some(0x40)
        } else if e.lcd && r.lcd {
            Some(0x48)
        } else if e.timer && r.timer {
            Some(0x50)
        } else if e.serial && r.serial {
            Some(0x58)
        } else if e.joypad && r.joypad {
            Some(0x60)
        } else {
            None
        }
    }

    /// Get the interrupt vector address clearing the interrupt flag state
    pub fn pop(&mut self) -> (r: Option<u8>)
        ensures
            (final(self)@, r) == check_spec(old(self)@, true),
    {
        self.check(true)
    }

    fn check(&mut self, consume: bool) -> (r: Option<u8>)
        ensures
            (final(self)@, r) == check_spec(old(self)@, consume),
    {
        let e = self.irq.enable;
        if e.vblank && self.irq.request.vblank {
            self.irq.request.vblank = !consume;
            Some(0x40)
        } else if e.lcd && self.irq.request.lcd {
            self.irq.request.lcd = !consume;
            Some(0x48)
        } else if e.timer && self.irq.request.timer {
            self.irq.request.timer = !consume;
            Some(0x50)
        } else if e.serial && self.irq.request.serial {
            self.irq.request.serial = !consume;
            Some(0x58)
        } else if e.joypad && self.irq.request.joypad {
            self.irq.request.joypad = !consume;
            Some(0x60)
        } else {
            None
        }
    }

    /// Read IE register (0xffff)
    pub fn read_enabled(&self) -> (r: u8)
        ensures
            r == ints_bits(self@.enable),
    {
        self.irq.enable.get()
    }

    /// Read IF register (0xff0f)
    pub fn read_flags(&self) -> (r: u8)
        ensures
            r == ints_bits(self@.request) | 0xe0,
    {
        let v = self.irq.request.get();
        v | 0xe0
    }

    /// Write IE register (0xffff)
    pub fn write_enabled(&mut self, value: u8)
        ensures
            final(self)@ == (Irq { enable: ints_from_bits(value), ..old(self)@ }),
    {
        self.irq.enable.set(value);
    }

    /// Write IF register (0xff0f)
    pub fn write_flags(&mut self, value: u8)
        ensures
            final(self)@ == (Irq { request: ints_from_bits(value), ..old(self)@ }),
    {
        self.irq.request.set(value);
    }
}

proof fn lemma_ints_mask(e: Ints, r: Ints)
    ensures
        ({
            let m = ints_bits(e) & ints_bits(r);
            &&& (m & 0x01 != 0) == (e.vblank && r.vblank)
            &&& (m & 0x03 == 0x02) == (!(e.vblank && r.vblank) && e.lcd && r.lcd)
            &&& (m & 0x07 == 0x04) == (!(e.vblank && r.vblank) && !(e.lcd && r.lcd) && e.timer && r.timer)
            &&& (m & 0x0f == 0x08) == (!(e.vblank && r.vblank) && !(e.lcd && r.lcd) && !(e.timer
                && r.timer) && e.serial && r.serial)
            &&& (m & 0x1f == 0x10) == (!(e.vblank && r.vblank) && !(e.lcd && r.lcd) && !(e.timer
                && r.timer) && !(e.serial && r.serial) && e.joypad && r.joypad)
            &&& (m == 0) == (!(e.vblank && r.vblank) && !(e.lcd && r.lcd) && !(e.timer && r.timer)
                && !(e.serial && r.serial) && !(e.joypad && r.joypad))
        }),
{
    let (a0, a1, a2, a3, a4) = (e.vblank, e.lcd, e.timer, e.serial, e.joypad);
    let (b0, b1, b2, b3, b4) = (r.vblank, r.lcd, r.timer, r.serial, r.joypad);
    let x = bit(a0, 0x01) | bit(a1, 0x02) | bit(a2, 0x04) | bit(a3, 0x08) | bit(a4, 0x10);
    let y = bit(b0, 0x01) | bit(b1, 0x02) | bit(b2, 0x04) | bit(b3, 0x08) | bit(b4, 0x10);
    assert({
        let m = x & y;
        &&& (m & 0x01 != 0) == (a0 && b0)
        &&& (m & 0x03 == 0x02) == (!(a0 && b0) && a1 && b1)
        &&& (m & 0x07 == 0x04) == (!(a0 && b0) && !(a1 && b1) && a2 && b2)
        &&& (m & 0x0f == 0x08) == (!(a0 && b0) && !(a1 && b1) && !(a2 && b2) && a3 && b3)
        &&& (m & 0x1f == 0x10) == (!(a0 && b0) && !(a1 && b1) && !(a2 && b2) && !(a3 && b3) && a4
            && b4)
        &&& (m == 0) == (!(a0 && b0) && !(a1 && b1) && !(a2 && b2) && !(a3 && b3) && !(a4 && b4))
    }) by (bit_vector)
        requires
            x == (if a0 { 0x01u8 } else { 0u8 }) | (if a1 { 0x02u8 } else { 0u8 }) | (if a2 {
                0x04u8
            } else {
                0u8
            }) | (if a3 { 0x08u8 } else { 0u8 }) | (if a4 { 0x10u8 } else { 0u8 }),
            y == (if b0 { 0x01u8 } else { 0u8 }) | (if b1 { 0x02u8 } else { 0u8 }) | (if b2 {
                0x04u8
            } else {
                0u8
            }) | (if b3 { 0x08u8 } else { 0u8 }) | (if b4 { 0x10u8 } else { 0u8 }),
    ;
}

/// The interrupt served is the lowest-numbered line both enabled (IE) and requested (IF), and
/// its vector is 0x40 + 8 times that line number: with `m` the IE and IF bits in common, bit 0
/// (V-blank) gives 0x40, bit 1 (LCD) 0x48, bit 2 (timer) 0x50, bit 3 (serial) 0x58, bit 4
/// (joypad) 0x60, and no common bit gives none. The enabled lines are left as they were.
pub proof fn lemma_interrupt_vector(irq: Irq, consume: bool)
    ensures
        ({
            let m = ints_bits(irq.enable) & ints_bits(irq.request);
            let v = check_spec(irq, consume).1;
            &&& m & 0x01 != 0 ==> v == Some(0x40u8)
            &&& m & 0x03 == 0x02 ==> v == Some(0x48u8)
            &&& m & 0x07 == 0x04 ==> v == Some(0x50u8)
            &&& m & 0x0f == 0x08 ==> v == Some(0x58u8)
            &&& m & 0x1f == 0x10 ==> v == Some(0x60u8)
            &&& m == 0 <==> v is None
        }),
        check_spec(irq, consume).0.enable == irq.enable,
{
    lemma_ints_mask(irq.enable, irq.request);
}

/// Writing a register and reading it back gives the five interrupt bits of the written value
/// (IF reads its unused upper bits as set).
pub proof fn lemma_ints_roundtrip(value: u8)
    ensures
        ints_bits(ints_from_bits(value)) == value & 0x1f,
        ints_bits(ints_from_bits(value)) | 0xe0 == value | 0xe0,
{
    assert((if value & 0x01 != 0 { 0x01u8 } else { 0u8 }) | (if value & 0x02 != 0 {
        0x02u8
    } else {
        0u8
    }) | (if value & 0x04 != 0 { 0x04u8 } else { 0u8 }) | (if value & 0x08 != 0 {
        0x08u8
    } else {
        0u8
    }) | (if value & 0x10 != 0 { 0x10u8 } else { 0u8 }) == value & 0x1f) by (bit_vector);
    assert((value & 0x1f) | 0xe0 == value | 0xe0) by (bit_vector);
}

/// Serving an interrupt returns the vector that a peek announces, clears exactly that request,
/// and a peek changes nothing.
pub proof fn lemma_pop_matches_peek(irq: Irq)
    ensures
        check_spec(irq, true).1 == check_spec(irq, false).1,
        check_spec(irq, false).0 == irq,
        check_spec(irq, true).1 is None ==> check_spec(irq, true).0 == irq,
        check_spec(irq, true).0.enable == irq.enable,
{
}

/// Interrupts are served in priority order: VBlank, LCD, timer, serial, joypad.
pub proof fn lemma_vblank_first(irq: Irq)
    requires
        irq.enable.vblank && irq.request.vblank,
    ensures
        check_spec(irq, true).1 == Some(0x40u8),
        !check_spec(irq, true).0.request.vblank,
{
}

} // verus!
