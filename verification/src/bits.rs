//! Facts about bit fields, proved once by bit-blasting and shared by the register decoders.
use vstd::prelude::*;

verus! {

/// The fields a byte register splits into stay within their widths.
pub proof fn lemma_byte_fields(v: u8)
    by (bit_vector)
    ensures
        v >> 4u8 < 16,
        v >> 5u8 < 8,
        v >> 6u8 < 4,
        v & 0x3 < 4,
        v & 0x7 < 8,
        v & 0xf < 16,
        v & 0x1f < 32,
        v & 0x3f < 64,
        v & 0x7f < 128,
        (v >> 2u8) & 0x3 < 4,
        (v >> 4u8) & 0x3 < 4,
        (v >> 6u8) & 0x3 < 4,
        (v >> 4u8) & 0x7 < 8,
        (v >> 2u8) & 0x1f < 32,
        v <= 15 ==> (v >> 1u8) <= 15 && (v >> 2u8) <= 15,
        v & 0x80 != 0 ==> v >= 0x80,
        v & 0x80 == 0 ==> v < 0x80,
{
}

/// The fields of a byte widened to `usize` stay within their widths.
pub proof fn lemma_wide_byte_fields(v: usize)
    by (bit_vector)
    requires
        v < 256,
    ensures
        (v >> 5usize) & 0x3 < 4,
        (v & 0x70) >> 4usize <= 7,
        v & 0x07 <= 7,
        v & 0x3 <= 3,
        v & 0x3f < 0x40,
        v & 1 < 2,
{
}

/// An 11-bit frequency stays below 2048 when its low byte or its high three bits are
/// replaced.
pub proof fn lemma_freq_bits(f: usize, v: u8)
    by (bit_vector)
    requires
        f < 2048,
    ensures
        ((f & !0xffusize) | (v as usize)) < 2048,
        ((f & !0x700usize) | (((v & 0x7) as usize) << 8usize)) < 2048,
{
}

/// The same for a 16-bit frequency register.
pub proof fn lemma_freq_bits16(f: u16, v: u8)
    by (bit_vector)
    ensures
        (f & 0x700) | (v as u16) < 2048,
        (f & 0xff) | (((v & 0x07) as u16) << 8u16) < 2048,
{
}

} // verus!
