//! Flag-computing arithmetic used by the instruction set.
//!
//! Each operation returns `(value, half_carry, carry, zero)`.
use vstd::prelude::*;

verus! {

/// `2^b` for the bit positions that the ALU looks at.
pub open spec fn width(b: usize) -> int {
    if b == 4 {
        16
    } else if b == 8 {
        256
    } else if b == 12 {
        4096
    } else {
        65536
    }
}

pub open spec fn valid_bit(b: usize) -> bool {
    b == 4 || b == 8 || b == 12 || b == 16
}

/// True when adding the low `b` bits of `p`, `q` and `c` carries out of bit `b - 1`.
pub open spec fn carry_spec(b: usize, p: int, q: int, c: int) -> bool {
    p % width(b) + q % width(b) + c % width(b) > width(b) - 1
}

/// True when subtracting the low `b` bits of `q` and `c` from those of `p` borrows.
pub open spec fn borrow_spec(b: usize, p: int, q: int, c: int) -> bool {
    p % width(b) < q % width(b) + c % width(b)
}

pub open spec fn bool_int(c: bool) -> int {
    if c {
        1
    } else {
        0
    }
}

/// The 16-bit sign extension of an 8-bit value.
pub open spec fn signed_spec(v: u8) -> u16 {
    if v >= 0x80 {
        (0xff00 + v) as u16
    } else {
        v as u16
    }
}

/// `(value, half_carry, carry, zero)` of an 8-bit addition with carry-in.
pub open spec fn add8_spec(p: u8, q: u8, c: bool) -> (u8, bool, bool, bool) {
    let v = ((p + q + bool_int(c)) % 256) as u8;
    (v, p % 16 + q % 16 + bool_int(c) > 15, p + q + bool_int(c) > 255, v == 0)
}

/// `(value, half_borrow, borrow, zero)` of an 8-bit subtraction with borrow-in.
pub open spec fn sub8_spec(p: u8, q: u8, c: bool) -> (u8, bool, bool, bool) {
    let v = ((p - q - bool_int(c)) % 256) as u8;
    (v, p % 16 < q % 16 + bool_int(c), p < q + bool_int(c), v == 0)
}

/// `(value, half_carry, carry, zero)` of a 16-bit addition with carry-in.
pub open spec fn add16_spec(p: u16, q: u16, c: bool) -> (u16, bool, bool, bool) {
    let v = ((p + q + bool_int(c)) % 65536) as u16;
    (v, p % 4096 + q % 4096 + bool_int(c) > 4095, p + q + bool_int(c) > 65535, v == 0)
}

/// `(value, half_carry, carry, zero)` of adding a sign-extended offset to a 16-bit value.
pub open spec fn add16e_spec(p: u16, q: u8, c: bool) -> (u16, bool, bool, bool) {
    let v = ((p + signed_spec(q) + bool_int(c)) % 65536) as u16;
    (v, p % 16 + q % 16 + bool_int(c) > 15, p % 256 + q + bool_int(c) > 255, v == 0)
}

fn mask(b: usize) -> (m: usize)
    requires
        valid_bit(b),
    ensures
        m == width(b) - 1,
{
    if b == 4 {
        0xf
    } else if b == 8 {
        0xff
    } else if b == 12 {
        0xfff
    } else {
        0xffff
    }
}

proof fn lemma_mask_is_mod(b: usize, v: usize)
    requires
        valid_bit(b),
    ensures
        v & ((width(b) - 1) as usize) == v % (width(b) as usize),
{
    if b == 4 {
        assert(v & 0xf == v % 16) by (bit_vector);
    } else if b == 8 {
        assert(v & 0xff == v % 256) by (bit_vector);
    } else if b == 12 {
        assert(v & 0xfff == v % 4096) by (bit_vector);
    } else {
        assert(v & 0xffff == v % 65536) by (bit_vector);
    }
}

fn carry(b: usize, p: usize, q: usize, c: usize) -> (r: bool)
    requires
        valid_bit(b),
        p <= 0xffff,
        q <= 0xffff,
        c <= 1,
    ensures
        r == carry_spec(b, p as int, q as int, c as int),
{
    let m = mask(b);
    proof {
        lemma_mask_is_mod(b, p);
        lemma_mask_is_mod(b, q);
        lemma_mask_is_mod(b, c);
    }
    (p & m) + (q & m) + (c & m) > m
}

fn borrow(b: usize, p: usize, q: usize, c: usize) -> (r: bool)
    requires
        valid_bit(b),
        p <= 0xffff,
        q <= 0xffff,
        c <= 1,
    ensures
        r == borrow_spec(b, p as int, q as int, c as int),
{
    let m = mask(b);
    proof {
        lemma_mask_is_mod(b, p);
        lemma_mask_is_mod(b, q);
        lemma_mask_is_mod(b, c);
    }
    (p & m) < (q & m) + (c & m)
}

fn add(b: usize, p: usize, q: usize, c: bool, hb: usize, cb: usize) -> (r: (usize, bool, bool, bool))
    requires
        valid_bit(b),
        valid_bit(hb),
        valid_bit(cb),
        p <= 0xffff,
        q <= 0xffff,
    ensures
        r.0 == (p + q + bool_int(c)) % width(b),
        r.1 == carry_spec(hb, p as int, q as int, bool_int(c)),
        r.2 == carry_spec(cb, p as int, q as int, bool_int(c)),
        r.3 == (r.0 == 0),
{
    let c: usize = if c {
        1
    } else {
        0
    };
    let m = mask(b);
    proof {
        lemma_mask_is_mod(b, (p + q + c) as usize);
    }
    let s = (p + q + c) & m;
    let h = carry(hb, p, q, c);
    let c = carry(cb, p, q, c);
    let z = s == 0;
    (s, h, c, z)
}

fn sub(b: usize, p: usize, q: usize, c: bool, hb: usize, cb: usize) -> (r: (usize, bool, bool, bool))
    requires
        valid_bit(b),
        valid_bit(hb),
        valid_bit(cb),
        p <= 0xffff,
        q <= 0xffff,
    ensures
        r.0 == (p - q - bool_int(c)) % width(b),
        r.1 == borrow_spec(hb, p as int, q as int, bool_int(c)),
        r.2 == borrow_spec(cb, p as int, q as int, bool_int(c)),
        r.3 == (r.0 == 0),
{
    let c: usize = if c {
        1
    } else {
        0
    };
    let m = mask(b);
    // Adding a multiple of 2^16 keeps the low bits and avoids going below zero.
    let d = p + 0x20000 - q - c;
    proof {
        lemma_mask_is_mod(b, d);
        assert((p - q - c) % width(b) == (d as int) % width(b)) by {
            vstd::arithmetic::div_mod::lemma_mod_add_multiples_vanish(
                (p - q - c) as int,
                width(b),
            );
            assert(0x20000 == 2 * 65536);
            if b == 4 {
                assert(0x20000int == 8192 * 16);
            } else if b == 8 {
                assert(0x20000int == 512 * 256);
            } else if b == 12 {
                assert(0x20000int == 32 * 4096);
            } else {
                assert(0x20000int == 2 * 65536);
            }
            vstd::arithmetic::div_mod::lemma_mod_multiples_vanish(
                0x20000int / width(b),
                (p - q - c) as int,
                width(b),
            );
        }
    }
    let s = d & m;
    let h = borrow(hb, p, q, c);
    let c = borrow(cb, p, q, c);
    let z = s == 0;
    (s, h, c, z)
}

/// Sign-extends an 8-bit value to 16 bits.
pub fn signed(v: u8) -> (r: u16)
    ensures
        r == signed_spec(v),
{
    if v & 0x80 != 0 {
        proof {
            crate::bits::lemma_byte_fields(v);
        }
        assert(0xff00 | (v as u16) == 0xff00 + v) by (bit_vector)
            requires
                v >= 0x80,
        ;
        0xff00 | v as u16
    } else {
        proof {
            crate::bits::lemma_byte_fields(v);
        }
        v as u16
    }
}

/// 8-bit addition with carry-in; flags are the half carry out of bit 3 and the carry out of bit 7.
pub fn add8(p: u8, q: u8, c: bool) -> (r: (u8, bool, bool, bool))
    ensures
        r.0 == (p + q + bool_int(c)) % 256,
        r.1 == (p % 16 + q % 16 + bool_int(c) > 15),
        r.2 == (p + q + bool_int(c) > 255),
        r.3 == (r.0 == 0),
        r == add8_spec(p, q, c),
{
    let (v, h, c2, z) = self::add(8, p as usize, q as usize, c, 4, 8);
    (v as u8, h, c2, z)
}

/// 8-bit subtraction with borrow-in; flags are the borrow from bit 4 and the borrow from bit 8.
pub fn sub8(p: u8, q: u8, c: bool) -> (r: (u8, bool, bool, bool))
    ensures
        r.0 == (p - q - bool_int(c)) % 256,
        r.1 == (p % 16 < q % 16 + bool_int(c)),
        r.2 == (p < q + bool_int(c)),
        r.3 == (r.0 == 0),
        r == sub8_spec(p, q, c),
{
    let (v, h, c2, z) = self::sub(8, p as usize, q as usize, c, 4, 8);
    (v as u8, h, c2, z)
}

/// 16-bit addition with carry-in; flags are the carry out of bit 11 and the carry out of bit 15.
pub fn add16(p: u16, q: u16, c: bool) -> (r: (u16, bool, bool, bool))
    ensures
        r.0 == (p + q + bool_int(c)) % 65536,
        r.1 == (p % 4096 + q % 4096 + bool_int(c) > 4095),
        r.2 == (p + q + bool_int(c) > 65535),
        r.3 == (r.0 == 0),
        r == add16_spec(p, q, c),
{
    let (v, h, c2, z) = self::add(16, p as usize, q as usize, c, 12, 16);
    (v as u16, h, c2, z)
}

/// Adds a sign-extended 8-bit offset to a 16-bit value; flags are computed on the low byte
/// (carry out of bit 3 and out of bit 7).
pub fn add16e(p: u16, q: u8, c: bool) -> (r: (u16, bool, bool, bool))
    ensures
        r.0 == (p + signed_spec(q) + bool_int(c)) % 65536,
        r.1 == (p % 16 + q % 16 + bool_int(c) > 15),
        r.2 == (p % 256 + q + bool_int(c) > 255),
        r.3 == (r.0 == 0),
        r == add16e_spec(p, q, c),
{
    let e = signed(q);
    proof {
        assert(e % 16 == q % 16 && e % 256 == q) by {
            if q >= 0x80 {
                assert(e == 0xff00 + q);
            }
        }
    }
    let (v, h, c2, z) = self::add(16, p as usize, e as usize, c, 4, 8);
    (v as u16, h, c2, z)
}

} // verus!
