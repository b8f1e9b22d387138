//! The instruction set: what each opcode does to the CPU and the system, how many cycles it
//! takes and how long it is.
//!
//! An opcode is `0x00..=0xff`, or `0xcb00 | b` for the byte `b` after the CB prefix. Its
//! immediate operand is read at `pc + arg`. The program counter itself is not advanced:
//! the caller adds the returned length afterwards. So relative jumps and unconditional
//! jumps, calls, returns and restarts store their target less the length they report,
//! while a taken jp, call or ret on a condition stores the target itself and reports a
//! length of zero.
use crate::alu::{add16_spec, add16e_spec, add8_spec, signed_spec, sub8_spec};
use crate::cpu::{can_push, cpu_pushed, cpu_stepped, word, Cpu, CpuView, Sys};
use vstd::prelude::*;

verus! {

/// The 8-bit register with operand index `r`: b, c, d, e, h, l, -, a (6 is the memory at hl).
pub open spec fn reg8<S>(c: CpuView<S>, r: u8) -> u8 {
    if r == 0 {
        c.b
    } else if r == 1 {
        c.c
    } else if r == 2 {
        c.d
    } else if r == 3 {
        c.e
    } else if r == 4 {
        c.h
    } else if r == 5 {
        c.l
    } else {
        c.a
    }
}

/// The state with the 8-bit register of operand index `r` set to `v`.
pub open spec fn set_reg8<S>(c: CpuView<S>, r: u8, v: u8) -> CpuView<S> {
    if r == 0 {
        CpuView { b: v, ..c }
    } else if r == 1 {
        CpuView { c: v, ..c }
    } else if r == 2 {
        CpuView { d: v, ..c }
    } else if r == 3 {
        CpuView { e: v, ..c }
    } else if r == 4 {
        CpuView { h: v, ..c }
    } else if r == 5 {
        CpuView { l: v, ..c }
    } else {
        CpuView { a: v, ..c }
    }
}

/// The register pair hl.
pub open spec fn hl<S>(c: CpuView<S>) -> u16 {
    word(c.h, c.l)
}

/// The 16-bit register with index `p`: bc, de, hl, sp.
pub open spec fn reg16<S>(c: CpuView<S>, p: u8) -> u16 {
    if p == 0 {
        word(c.b, c.c)
    } else if p == 1 {
        word(c.d, c.e)
    } else if p == 2 {
        word(c.h, c.l)
    } else {
        c.sp
    }
}

/// The state with the 16-bit register of index `p` (bc, de, hl, sp) set to `v`.
pub open spec fn set_reg16<S>(c: CpuView<S>, p: u8, v: u16) -> CpuView<S> {
    if p == 0 {
        CpuView { b: (v >> 8u16) as u8, c: v as u8, ..c }
    } else if p == 1 {
        CpuView { d: (v >> 8u16) as u8, e: v as u8, ..c }
    } else if p == 2 {
        CpuView { h: (v >> 8u16) as u8, l: v as u8, ..c }
    } else {
        CpuView { sp: v, ..c }
    }
}

/// The register pair with stack index `p`: bc, de, hl, af.
pub open spec fn stack_reg<S>(c: CpuView<S>, p: u8) -> u16 {
    if p == 3 {
        word(c.a, c.f)
    } else {
        reg16(c, p)
    }
}

/// The state with the register pair of stack index `p` set to `v`; the low four bits of
/// `f` are cleared.
pub open spec fn set_stack_reg<S>(c: CpuView<S>, p: u8, v: u16) -> CpuView<S> {
    if p == 3 {
        CpuView { a: (v >> 8u16) as u8, f: (v & 0xf0) as u8, ..c }
    } else {
        set_reg16(c, p, v)
    }
}

/// `f` with the bits of `m` set when `v` holds and cleared otherwise.
pub open spec fn flag(f: u8, m: u8, v: bool) -> u8 {
    if v {
        f | m
    } else {
        f & !m
    }
}

/// The carry flag.
pub open spec fn cf<S>(c: CpuView<S>) -> bool {
    c.f & 0x10 == 0x10
}

/// The state with the flag bits `m` set to `v`.
pub open spec fn set_flag<S>(c: CpuView<S>, m: u8, v: bool) -> CpuView<S> {
    CpuView { f: flag(c.f, m, v), ..c }
}

/// The state with the zero, subtract and half-carry flags set as given.
pub open spec fn with_znh<S>(c: CpuView<S>, z: bool, n: bool, h: bool) -> CpuView<S> {
    set_flag(set_flag(set_flag(c, 0x80, z), 0x40, n), 0x20, h)
}

/// The state with all four flags set as given.
pub open spec fn with_flags<S>(c: CpuView<S>, z: bool, n: bool, h: bool, cy: bool) -> CpuView<S> {
    set_flag(with_znh(c, z, n, h), 0x10, cy)
}

/// The state with the subtract, half-carry and carry flags set as given.
pub open spec fn with_nhc<S>(c: CpuView<S>, n: bool, h: bool, cy: bool) -> CpuView<S> {
    set_flag(set_flag(set_flag(c, 0x40, n), 0x20, h), 0x10, cy)
}

/// Condition `k` of a conditional jump: nz, z, nc, c.
pub open spec fn cond<S>(c: CpuView<S>, k: u8) -> bool {
    if k == 0 {
        !(c.f & 0x80 == 0x80)
    } else if k == 1 {
        c.f & 0x80 == 0x80
    } else if k == 2 {
        !cf(c)
    } else {
        cf(c)
    }
}

/// The state after a jump to `a`, which takes four cycles.
pub open spec fn jumped<T: Sys>(c: CpuView<T::V>, a: u16) -> CpuView<T::V> {
    CpuView { pc: a, ..cpu_stepped::<T>(c, 4) }
}

/// A write of the word `v` at `a` and `a + 1`, after the eight cycles of the access.
pub open spec fn mem_written16<T: Sys>(c: CpuView<T::V>, a: u16, v: u16) -> CpuView<T::V> {
    let c1 = cpu_stepped::<T>(c, 8);
    CpuView {
        sys: T::write8(T::write8(c1.sys, a, v as u8), (a + 1) as u16, (v >> 8u16) as u8),
        ..c1
    }
}

/// The adjustment that decimal correction adds (or, after a subtraction, takes away).
pub open spec fn daa_adj<S>(c: CpuView<S>) -> int {
    let nf = c.f & 0x40 == 0x40;
    let hf = c.f & 0x20 == 0x20;
    (if hf || (!nf && c.a % 16 > 9) {
        6int
    } else {
        0int
    }) + (if cf(c) || (!nf && c.a > 0x99) {
        0x60int
    } else {
        0int
    })
}

/// Decimal correction of `a` after an addition or subtraction of two BCD numbers.
pub open spec fn daa_effect<S>(c: CpuView<S>) -> CpuView<S> {
    let nf = c.f & 0x40 == 0x40;
    let v = if nf {
        c.a - daa_adj(c)
    } else {
        c.a + daa_adj(c)
    };
    let a = (v % 256) as u8;
    let cy = cf(c) || (!nf && c.a > 0x99);
    set_flag(set_flag(set_flag(CpuView { a: a, ..c }, 0x80, a == 0), 0x20, false), 0x10, cy)
}

/// Whether decimal correction stays clear of an underflow, on which it fails.
pub open spec fn daa_ok<S>(c: CpuView<S>) -> bool {
    c.f & 0x40 == 0x40 ==> c.a >= daa_adj(c)
}

/// A read of the byte at `a`, after the four cycles of the access.
pub open spec fn mem_read<T: Sys>(c: CpuView<T::V>, a: u16) -> (CpuView<T::V>, u8) {
    let c1 = cpu_stepped::<T>(c, 4);
    (c1, T::read8(c1.sys, a))
}

/// A write of `v` at `a`, after the four cycles of the access.
pub open spec fn mem_written<T: Sys>(c: CpuView<T::V>, a: u16, v: u8) -> CpuView<T::V> {
    let c1 = cpu_stepped::<T>(c, 4);
    CpuView { sys: T::write8(c1.sys, a, v), ..c1 }
}

/// The 8-bit immediate operand.
pub open spec fn imm8<T: Sys>(c: CpuView<T::V>, arg: u16) -> (CpuView<T::V>, u8) {
    mem_read::<T>(c, c.pc.wrapping_add(arg))
}

/// The 16-bit immediate operand, little-endian, read in eight cycles.
pub open spec fn imm16<T: Sys>(c: CpuView<T::V>, arg: u16) -> (CpuView<T::V>, u16) {
    let a = c.pc.wrapping_add(arg);
    let c1 = cpu_stepped::<T>(c, 8);
    (c1, word(T::read8(c1.sys, (a + 1) as u16), T::read8(c1.sys, a)))
}

/// The 8-bit operand of index `r`: a register, or (6) the byte at hl, read in four cycles.
pub open spec fn read_r8<T: Sys>(c: CpuView<T::V>, r: u8) -> (CpuView<T::V>, u8) {
    if r == 6 {
        mem_read::<T>(c, hl(c))
    } else {
        (c, reg8(c, r))
    }
}

/// The state after `v` is stored in the 8-bit operand of index `r`.
pub open spec fn write_r8<T: Sys>(c: CpuView<T::V>, r: u8, v: u8) -> CpuView<T::V> {
    if r == 6 {
        mem_written::<T>(c, hl(c), v)
    } else {
        set_reg8(c, r, v)
    }
}

/// The arithmetic or logic operation `y` (add, adc, sub, sbc, and, xor, or, cp) of `a`
/// and `q`.
pub open spec fn alu_effect<S>(c: CpuView<S>, y: u8, q: u8) -> CpuView<S> {
    let a = c.a;
    if y == 0 || y == 1 {
        let r = add8_spec(a, q, y == 1 && cf(c));
        with_flags(CpuView { a: r.0, ..c }, r.3, false, r.1, r.2)
    } else if y == 2 || y == 3 || y == 7 {
        let r = sub8_spec(a, q, y == 3 && cf(c));
        let c1 = if y == 7 {
            c
        } else {
            CpuView { a: r.0, ..c }
        };
        with_flags(c1, r.3, true, r.1, r.2)
    } else {
        let v = if y == 4 {
            a & q
        } else if y == 5 {
            a ^ q
        } else {
            a | q
        };
        with_flags(CpuView { a: v, ..c }, v == 0, false, y == 4, false)
    }
}

/// The eight rotations and shifts, bit by bit in arithmetic.
proof fn lemma_shift_arith(v: u8, cy: bool)
    by (bit_vector)
    ensures
        (v << 1u8) | (v >> 7u8) == ((v % 128) * 2 + v / 128) as u8,
        (v >> 1u8) | (v << 7u8) == ((v % 2) * 128 + v / 2) as u8,
        (v << 1u8) | (if cy { 1u8 } else { 0u8 }) == ((v % 128) * 2 + (if cy { 1u8 } else { 0u8 })) as u8,
        (v >> 1u8) | (if cy { 0x80u8 } else { 0u8 }) == ((if cy { 128u8 } else { 0u8 }) + v / 2) as u8,
        v << 1u8 == ((v % 128) * 2) as u8,
        (v >> 1u8) | (v & 0x80) == ((if v >= 128 { 128u8 } else { 0u8 }) + v / 2) as u8,
        (v << 4u8) | (v >> 4u8) == ((v % 16) * 16 + v / 16) as u8,
        v >> 1u8 == v / 2,
        (v & 0x80 != 0) == (v >= 128),
        (v & 1 != 0) == (v % 2 == 1),
{
}

/// What the CB-prefixed rotations and shifts (and rlca, rrca, rla, rra) compute, as arithmetic
/// on the operand `v` and the carry `cy`: rlc and rrc rotate the byte, rl and rr rotate it
/// through the carry, sla shifts in a 0, sra keeps bit 7 (an arithmetic shift), swap exchanges
/// the nibbles, srl shifts in a 0; the carry out is the bit shifted out (none for swap).
pub proof fn lemma_rot_arith(y: u8, v: u8, cy: bool)
    requires
        y < 8,
    ensures
        y == 0 ==> rot_spec(y, v, cy).0 == ((v % 128) * 2 + v / 128) as u8 && rot_spec(y, v, cy).1
            == (v >= 128),
        y == 1 ==> rot_spec(y, v, cy).0 == ((v % 2) * 128 + v / 2) as u8 && rot_spec(y, v, cy).1 == (v
            % 2 == 1),
        y == 2 ==> rot_spec(y, v, cy).0 == ((v % 128) * 2 + (if cy { 1u8 } else { 0u8 })) as u8
            && rot_spec(y, v, cy).1 == (v >= 128),
        y == 3 ==> rot_spec(y, v, cy).0 == ((if cy { 128u8 } else { 0u8 }) + v / 2) as u8
            && rot_spec(y, v, cy).1 == (v % 2 == 1),
        y == 4 ==> rot_spec(y, v, cy).0 == ((v % 128) * 2) as u8 && rot_spec(y, v, cy).1 == (v >= 128),
        y == 5 ==> rot_spec(y, v, cy).0 == ((if v >= 128 { 128u8 } else { 0u8 }) + v / 2) as u8
            && rot_spec(y, v, cy).1 == (v % 2 == 1),
        y == 6 ==> rot_spec(y, v, cy).0 == ((v % 16) * 16 + v / 16) as u8 && !rot_spec(y, v, cy).1,
        y == 7 ==> rot_spec(y, v, cy).0 == v / 2 && rot_spec(y, v, cy).1 == (v % 2 == 1),
{
    lemma_shift_arith(v, cy);
}

/// The rotation or shift `y` (rlc, rrc, rl, rr, sla, sra, swap, srl) of `v` with carry
/// `cy`: the result and the carry out.
pub open spec fn rot_spec(y: u8, v: u8, cy: bool) -> (u8, bool) {
    if y == 0 {
        ((v << 1u8) | (v >> 7u8), v & 0x80 != 0)
    } else if y == 1 {
        ((v >> 1u8) | (v << 7u8), v & 1 != 0)
    } else if y == 2 {
        ((v << 1u8) | (if cy { 1u8 } else { 0u8 }), v & 0x80 != 0)
    } else if y == 3 {
        ((v >> 1u8) | (if cy { 0x80u8 } else { 0u8 }), v & 1 != 0)
    } else if y == 4 {
        (v << 1u8, v & 0x80 != 0)
    } else if y == 5 {
        ((v >> 1u8) | (v & 0x80), v & 1 != 0)
    } else if y == 6 {
        ((v << 4u8) | (v >> 4u8), false)
    } else {
        (v >> 1u8, v & 1 != 0)
    }
}

/// Opcodes `0x00..=0x3f` whose low three bits are `z = 0`: nop, ld (a16),sp, jr and jr cc.
pub open spec fn block0_z0<T: Sys>(c: CpuView<T::V>, y: u8, arg: u16) -> (CpuView<T::V>, usize, usize) {
    if y == 0 {
        (c, 4, 1)
    } else if y == 1 {
        let (c1, x) = imm16::<T>(c, arg);
        (mem_written16::<T>(c1, x, c.sp), 20, 3)
    } else {
        let (c1, p) = imm8::<T>(c, arg);
        if y == 3 || cond(c, (y - 4) as u8) {
            (jumped::<T>(c1, c1.pc.wrapping_add(signed_spec(p))), 12, 2)
        } else {
            (c1, 8, 2)
        }
    }
}

/// Opcodes `0x00..=0x3f` with `z = 1`: ld rr,d16 and add hl,rr.
pub open spec fn block0_z1<T: Sys>(c: CpuView<T::V>, y: u8, arg: u16) -> (CpuView<T::V>, usize, usize) {
    let p = y / 2;
    if y % 2 == 0 {
        let (c1, v) = imm16::<T>(c, arg);
        (set_reg16(c1, p, v), 12, 3)
    } else {
        let r = add16_spec(hl(c), reg16(c, p), false);
        let c1 = cpu_stepped::<T>(set_reg16(c, 2, r.0), 4);
        (with_nhc(c1, false, r.1, r.2), 8, 1)
    }
}

/// Opcodes `0x00..=0x3f` with `z = 2`: loads between a and the byte at bc, de or hl, the
/// last two moving hl up (ldi) or down (ldd).
pub open spec fn block0_z2<T: Sys>(c: CpuView<T::V>, y: u8) -> (CpuView<T::V>, usize, usize) {
    let addr = if y < 4 {
        reg16(c, y / 2)
    } else {
        hl(c)
    };
    let c1 = if y % 2 == 0 {
        mem_written::<T>(c, addr, c.a)
    } else {
        let (c0, v) = mem_read::<T>(c, addr);
        CpuView { a: v, ..c0 }
    };
    let c2 = if y == 4 || y == 5 {
        set_reg16(c1, 2, hl(c).wrapping_add(1))
    } else if y == 6 || y == 7 {
        set_reg16(c1, 2, hl(c).wrapping_sub(1))
    } else {
        c1
    };
    (c2, 8, 1)
}

/// Opcodes `0x00..=0x3f` with `z = 3`: inc rr and dec rr.
pub open spec fn block0_z3<T: Sys>(c: CpuView<T::V>, y: u8) -> (CpuView<T::V>, usize, usize) {
    let p = y / 2;
    let v = if y % 2 == 0 {
        reg16(c, p).wrapping_add(1)
    } else {
        reg16(c, p).wrapping_sub(1)
    };
    (cpu_stepped::<T>(set_reg16(c, p, v), 4), 8, 1)
}

/// Opcodes `0x00..=0x3f` with `z` of 4, 5 or 6: inc r, dec r and ld r,d8.
pub open spec fn block0_z456<T: Sys>(c: CpuView<T::V>, y: u8, z: u8, arg: u16) -> (CpuView<T::V>, usize, usize) {
    if z == 6 {
        let (c1, v) = imm8::<T>(c, arg);
        (write_r8::<T>(c1, y, v), if y == 6 { 12 } else { 8 }, 2)
    } else {
        let (c1, v) = read_r8::<T>(c, y);
        let r = if z == 4 {
            add8_spec(v, 1, false)
        } else {
            sub8_spec(v, 1, false)
        };
        let c2 = write_r8::<T>(c1, y, r.0);
        (with_znh(c2, r.3, z == 5, r.1), if y == 6 { 12 } else { 4 }, 1)
    }
}

/// Opcodes `0x00..=0x3f` with `z = 7`: rotations of a, daa, cpl, scf and ccf.
pub open spec fn block0_z7<S>(c: CpuView<S>, y: u8) -> (CpuView<S>, usize, usize) {
    let c1 = if y < 4 {
        let r = rot_spec(y, c.a, cf(c));
        with_flags(CpuView { a: r.0, ..c }, false, false, false, r.1)
    } else if y == 4 {
        daa_effect(c)
    } else if y == 5 {
        set_flag(set_flag(CpuView { a: c.a ^ 0xff, ..c }, 0x40, true), 0x20, true)
    } else if y == 6 {
        with_nhc(c, false, false, true)
    } else {
        with_nhc(c, false, false, !cf(c))
    };
    (c1, 4, 1)
}

/// Opcodes `0x00..=0x3f`.
pub open spec fn block0<T: Sys>(c: CpuView<T::V>, op: u8, arg: u16) -> (CpuView<T::V>, usize, usize) {
    let y = op / 8;
    let z = op % 8;
    if z == 0 {
        block0_z0::<T>(c, y, arg)
    } else if z == 1 {
        block0_z1::<T>(c, y, arg)
    } else if z == 2 {
        block0_z2::<T>(c, y)
    } else if z == 3 {
        block0_z3::<T>(c, y)
    } else if z == 7 {
        block0_z7(c, y)
    } else {
        block0_z456::<T>(c, y, z, arg)
    }
}

/// The opcodes `0x00..=0x3f` that run to completion: all but stop, a decimal correction
/// that would underflow, and word accesses that would run past the address space.
pub open spec fn block0_ok<T: Sys>(c: CpuView<T::V>, op: u8, arg: u16) -> bool {
    &&& op < 0x40
    &&& op != 0x10
    &&& op == 0x27 ==> daa_ok(c)
    &&& (op == 0x08 || op % 16 == 1) ==> c.pc.wrapping_add(arg) < 0xffff
    &&& op == 0x08 ==> imm16::<T>(c, arg).1 < 0xffff
}

/// Opcodes `0x40..=0x7f`: ld r,r' and (0x76) halt.
pub open spec fn block1<T: Sys>(c: CpuView<T::V>, op: u8) -> (CpuView<T::V>, usize, usize) {
    let y = (op / 8) % 8;
    let z = op % 8;
    if op == 0x76 {
        let c1 = if !c.ime && T::int_vec(c.sys) is Some {
            CpuView { halt_bug: true, ..c }
        } else {
            CpuView { halt: true, ..c }
        };
        (c1, 4, 1)
    } else {
        let (c1, v) = read_r8::<T>(c, z);
        (write_r8::<T>(c1, y, v), if y == 6 || z == 6 { 8 } else { 4 }, 1)
    }
}

/// Opcodes `0x80..=0xbf`: add, adc, sub, sbc, and, xor, or and cp of a with an operand.
pub open spec fn block2<T: Sys>(c: CpuView<T::V>, op: u8) -> (CpuView<T::V>, usize, usize) {
    let y = (op / 8) % 8;
    let z = op % 8;
    let (c1, q) = read_r8::<T>(c, z);
    (alu_effect(c1, y, q), if z == 6 { 8 } else { 4 }, 1)
}

/// A pop of a word from the stack in eight cycles.
pub open spec fn popped<T: Sys>(c: CpuView<T::V>) -> (CpuView<T::V>, u16) {
    let c1 = cpu_stepped::<T>(CpuView { sp: c.sp.wrapping_add(2), ..c }, 8);
    (c1, word(T::read8(c1.sys, (c.sp + 1) as u16), T::read8(c1.sys, c.sp)))
}

/// Opcodes `0xc0..=0xff` with `z = 0`: ret cc and the high-page, stack-pointer and
/// hl-from-stack-pointer loads.
pub open spec fn block3_z0<T: Sys>(c: CpuView<T::V>, y: u8, arg: u16) -> (CpuView<T::V>, usize, usize) {
    if y < 4 {
        let c1 = cpu_stepped::<T>(c, 4);
        if cond(c, y) {
            let (c2, v) = popped::<T>(c1);
            (jumped::<T>(c2, v), 20, 0)
        } else {
            (c1, 8, 1)
        }
    } else {
        let (c1, x) = imm8::<T>(c, arg);
        if y == 4 {
            (mem_written::<T>(c1, (0xff00 + x) as u16, c.a), 12, 2)
        } else if y == 6 {
            let (c2, v) = mem_read::<T>(c1, (0xff00 + x) as u16);
            (CpuView { a: v, ..c2 }, 12, 2)
        } else {
            let r = add16e_spec(c.sp, x, false);
            let c2 = if y == 5 {
                cpu_stepped::<T>(CpuView { sp: r.0, ..c1 }, 8)
            } else {
                cpu_stepped::<T>(set_reg16(c1, 2, r.0), 4)
            };
            (with_flags(c2, false, false, r.1, r.2), if y == 5 { 16 } else { 12 }, 2)
        }
    }
}

/// Opcodes `0xc0..=0xff` with `z = 1`: pop, ret, reti, jp hl and ld sp,hl.
pub open spec fn block3_z1<T: Sys>(c: CpuView<T::V>, y: u8) -> (CpuView<T::V>, usize, usize) {
    if y % 2 == 0 {
        let (c1, v) = popped::<T>(c);
        (set_stack_reg(c1, y / 2, v), 12, 1)
    } else if y == 1 || y == 3 {
        let (c1, v) = popped::<T>(c);
        let c2 = jumped::<T>(c1, v.wrapping_sub(1));
        (if y == 3 {
            CpuView { ime: true, ..c2 }
        } else {
            c2
        }, 16, 1)
    } else if y == 5 {
        (CpuView { pc: hl(c).wrapping_sub(1), ..c }, 4, 1)
    } else {
        (cpu_stepped::<T>(CpuView { sp: hl(c), ..c }, 4), 8, 1)
    }
}

/// Opcodes `0xc0..=0xff` with `z = 2`: jp cc and the loads of a through c or an address.
pub open spec fn block3_z2<T: Sys>(c: CpuView<T::V>, y: u8, arg: u16) -> (CpuView<T::V>, usize, usize) {
    if y == 4 {
        (mem_written::<T>(c, (0xff00 + c.c) as u16, c.a), 8, 1)
    } else if y == 6 {
        let (c1, v) = mem_read::<T>(c, (0xff00 + c.c) as u16);
        (CpuView { a: v, ..c1 }, 8, 1)
    } else {
        let (c1, x) = imm16::<T>(c, arg);
        if y < 4 {
            if cond(c, y) {
                (jumped::<T>(c1, x), 16, 0)
            } else {
                (c1, 12, 3)
            }
        } else if y == 5 {
            (mem_written::<T>(c1, x, c.a), 16, 3)
        } else {
            let (c2, v) = mem_read::<T>(c1, x);
            (CpuView { a: v, ..c2 }, 16, 3)
        }
    }
}

/// Opcodes `0xc0..=0xff` with `z` of 3, 4 or 5: jp, the CB prefix, di, ei, call, call cc
/// and push.
pub open spec fn block3_z345<T: Sys>(c: CpuView<T::V>, y: u8, z: u8, arg: u16) -> (CpuView<T::V>, usize, usize) {
    if z == 3 {
        if y == 0 {
            let (c1, x) = imm16::<T>(c, arg);
            (jumped::<T>(c1, x.wrapping_sub(3)), 16, 3)
        } else if y == 1 {
            (c, 4, 1)
        } else {
            (CpuView { ime: y == 7, ..c }, 4, 1)
        }
    } else if z == 4 {
        let (c1, x) = imm16::<T>(c, arg);
        if cond(c, y) {
            (jumped::<T>(cpu_pushed::<T>(c1, c.pc.wrapping_add(3)), x), 24, 0)
        } else {
            (c1, 12, 3)
        }
    } else if y % 2 == 0 {
        (cpu_stepped::<T>(cpu_pushed::<T>(c, stack_reg(c, y / 2)), 4), 16, 1)
    } else {
        let c1 = cpu_pushed::<T>(c, c.pc.wrapping_add(3));
        let (c2, x) = imm16::<T>(c1, arg);
        (jumped::<T>(c2, x.wrapping_sub(3)), 24, 3)
    }
}

/// Opcodes `0xc0..=0xff`.
pub open spec fn block3<T: Sys>(c: CpuView<T::V>, op: u8, arg: u16) -> (CpuView<T::V>, usize, usize) {
    let y = (op / 8) % 8;
    let z = op % 8;
    if z == 0 {
        block3_z0::<T>(c, y, arg)
    } else if z == 1 {
        block3_z1::<T>(c, y)
    } else if z == 2 {
        block3_z2::<T>(c, y, arg)
    } else if z == 6 {
        let (c1, q) = imm8::<T>(c, arg);
        (alu_effect(c1, y, q), 8, 2)
    } else if z == 7 {
        (jumped::<T>(cpu_pushed::<T>(c, c.pc.wrapping_add(1)), ((y * 8) as u16).wrapping_sub(1)), 16, 1)
    } else {
        block3_z345::<T>(c, y, z, arg)
    }
}

/// The opcodes of `0xc0..=0xff` that exist and run to completion: the stack and the word
/// operands stay within the address space.
pub open spec fn block3_ok<T: Sys>(c: CpuView<T::V>, op: u8, arg: u16) -> bool {
    let y = (op / 8) % 8;
    let z = op % 8;
    &&& op >= 0xc0
    &&& !(op == 0xd3 || op == 0xdb || op == 0xdd || op == 0xe3 || op == 0xe4 || op == 0xeb
        || op == 0xec || op == 0xed || op == 0xf4 || op == 0xfc || op == 0xfd)
    &&& ((z == 1 && y % 2 == 0) || op == 0xc9 || op == 0xd9 || (z == 0 && y < 4 && cond(c, y)))
        ==> c.sp < 0xffff
    &&& ((z == 2 && (y < 4 || y == 5 || y == 7)) || op == 0xc3 || z == 4 || op == 0xcd)
        ==> c.pc.wrapping_add(arg) < 0xffff
    &&& ((z == 5 && y % 2 == 0) || z == 7 || (z == 4 && cond(c, y)) || op == 0xcd) ==> can_push(c)
}

/// CB-prefixed opcodes: rotations and shifts, bit tests, and bit resets and sets.
pub open spec fn cb_effect<T: Sys>(c: CpuView<T::V>, op: u8) -> (CpuView<T::V>, usize, usize) {
    let x = op / 64;
    let y = (op / 8) % 8;
    let z = op % 8;
    let (c1, v) = read_r8::<T>(c, z);
    if x == 0 {
        let r = rot_spec(y, v, cf(c));
        let c2 = write_r8::<T>(c1, z, r.0);
        (with_flags(c2, r.0 == 0, false, false, r.1), if z == 6 { 16 } else { 8 }, 2)
    } else if x == 1 {
        (with_znh(c1, v & (1u8 << y) == 0, false, true), if z == 6 { 12 } else { 8 }, 2)
    } else {
        let w = if x == 2 {
            v & !(1u8 << y)
        } else {
            v | (1u8 << y)
        };
        (write_r8::<T>(c1, z, w), if z == 6 { 16 } else { 8 }, 2)
    }
}

/// The opcodes that exist and on which the instruction runs to completion.
pub open spec fn decode_ok<T: Sys>(c: CpuView<T::V>, code: u16, arg: u16) -> bool {
    if code >= 0xcb00 {
        code <= 0xcbff
    } else if code < 0x40 {
        block0_ok::<T>(c, code as u8, arg)
    } else if code < 0xc0 {
        true
    } else if code < 0x100 {
        block3_ok::<T>(c, code as u8, arg)
    } else {
        false
    }
}

/// What the instruction `code` does: the state after it (including the four cycles that
/// every instruction takes at its end), its cycle time and its length.
pub open spec fn decoded<T: Sys>(c: CpuView<T::V>, code: u16, arg: u16) -> (CpuView<T::V>, usize, usize) {
    let r = if code >= 0xcb00 {
        cb_effect::<T>(c, (code - 0xcb00) as u8)
    } else if code < 0x40 {
        block0::<T>(c, code as u8, arg)
    } else if code < 0x80 {
        block1::<T>(c, code as u8)
    } else if code < 0xc0 {
        block2::<T>(c, code as u8)
    } else {
        block3::<T>(c, code as u8, arg)
    };
    (cpu_stepped::<T>(r.0, 4), r.1, r.2)
}

impl<T: Sys> Cpu<T> {
    /// Reads the 8-bit operand of index `r`.
    fn read_r8(&mut self, r: u8) -> (v: u8)
        requires
            T::sys_wf(old(self)@.sys),
            r < 8,
        ensures
            T::sys_wf(final(self)@.sys),
            (final(self)@, v) == read_r8::<T>(old(self)@, r),
    {
        if r == 0 {
            self.get_b()
        } else if r == 1 {
            self.get_c()
        } else if r == 2 {
            self.get_d()
        } else if r == 3 {
            self.get_e()
        } else if r == 4 {
            self.get_h()
        } else if r == 5 {
            self.get_l()
        } else if r == 6 {
            let x = self.get_hl();
            self.get8(x)
        } else {
            self.get_a()
        }
    }

    /// Stores `v` in the 8-bit operand of index `r`.
    fn write_r8(&mut self, r: u8, v: u8)
        requires
            T::sys_wf(old(self)@.sys),
            r < 8,
        ensures
            T::sys_wf(final(self)@.sys),
            final(self)@ == write_r8::<T>(old(self)@, r, v),
    {
        if r == 0 {
            self.set_b(v)
        } else if r == 1 {
            self.set_c(v)
        } else if r == 2 {
            self.set_d(v)
        } else if r == 3 {
            self.set_e(v)
        } else if r == 4 {
            self.set_h(v)
        } else if r == 5 {
            self.set_l(v)
        } else if r == 6 {
            let x = self.get_hl();
            self.set8(x, v)
        } else {
            self.set_a(v)
        }
    }

    /// Sets the zero, subtract and half-carry flags.
    fn set_znh(&mut self, z: bool, n: bool, h: bool)
        ensures
            final(self)@ == with_znh(old(self)@, z, n, h),
    {
        self.set_zf(z);
        self.set_nf(n);
        self.set_hf(h);
    }

    /// Sets all four flags.
    fn set_flags(&mut self, z: bool, n: bool, h: bool, cy: bool)
        ensures
            final(self)@ == with_flags(old(self)@, z, n, h, cy),
    {
        self.set_znh(z, n, h);
        self.set_cf(cy);
    }

    /// Reads the 8-bit immediate operand.
    fn imm8(&mut self, arg: u16) -> (v: u8)
        requires
            T::sys_wf(old(self)@.sys),
        ensures
            T::sys_wf(final(self)@.sys),
            (final(self)@, v) == imm8::<T>(old(self)@, arg),
    {
        let x = self.get_pc().wrapping_add(arg);
        self.get8(x)
    }

    /// Reads the 16-bit immediate operand.
    fn imm16(&mut self, arg: u16) -> (v: u16)
        requires
            T::sys_wf(old(self)@.sys),
            old(self)@.pc.wrapping_add(arg) < 0xffff,
        ensures
            T::sys_wf(final(self)@.sys),
            (final(self)@, v) == imm16::<T>(old(self)@, arg),
    {
        let x = self.get_pc().wrapping_add(arg);
        self.get16(x)
    }

    /// Applies the arithmetic or logic operation `y` to `a` and `q`.
    fn alu(&mut self, y: u8, q: u8)
        requires
            y < 8,
        ensures
            final(self)@ == alu_effect(old(self)@, y, q),
    {
        let a = self.get_a();
        if y == 0 || y == 1 {
            let (v, h, c, z) = crate::alu::add8(a, q, y == 1 && self.get_cf());
            self.set_a(v);
            self.set_flags(z, false, h, c);
        } else if y == 2 || y == 3 || y == 7 {
            let (v, h, c, z) = crate::alu::sub8(a, q, y == 3 && self.get_cf());
            if y != 7 {
                self.set_a(v);
            }
            self.set_flags(z, true, h, c);
        } else {
            let v = if y == 4 {
                a & q
            } else if y == 5 {
                a ^ q
            } else {
                a | q
            };
            self.set_a(v);
            self.set_flags(v == 0, false, y == 4, false);
        }
    }

    /// Whether condition `k` (nz, z, nc, c) holds.
    fn cond(&self, k: u8) -> (r: bool)
        ensures
            r == cond(self@, k),
    {
        if k == 0 {
            !self.get_zf()
        } else if k == 1 {
            self.get_zf()
        } else if k == 2 {
            !self.get_cf()
        } else {
            self.get_cf()
        }
    }

    /// Sets the subtract, half-carry and carry flags.
    fn set_nhc(&mut self, n: bool, h: bool, cy: bool)
        ensures
            final(self)@ == with_nhc(old(self)@, n, h, cy),
    {
        self.set_nf(n);
        self.set_hf(h);
        self.set_cf(cy);
    }

    /// Runs nop, ld (a16),sp, jr or jr cc (`y` selects which).
    fn exec_block0_z0(&mut self, y: u8, arg: u16) -> (r: (usize, usize))
        requires
            T::sys_wf(old(self)@.sys),
            y < 8,
            y != 2,
            y == 1 ==> old(self)@.pc.wrapping_add(arg) < 0xffff,
            y == 1 ==> imm16::<T>(old(self)@, arg).1 < 0xffff,
        ensures
            T::sys_wf(final(self)@.sys),
            (final(self)@, r.0, r.1) == block0_z0::<T>(old(self)@, y, arg),
    {
        if y == 0 {
            (4, 1)
        } else if y == 1 {
            let v = self.get_sp();
            let x = self.imm16(arg);
            self.set16(x, v);
            (20, 3)
        } else {
            let flg = if y == 3 {
                true
            } else {
                self.cond(y - 4)
            };
            let p = self.imm8(arg);
            if flg {
                let pc = self.get_pc().wrapping_add(crate::alu::signed(p));
                self.jump(pc);
                (12, 2)
            } else {
                (8, 2)
            }
        }
    }

    /// Runs ld rr,d16 or add hl,rr.
    fn exec_block0_z1(&mut self, y: u8, arg: u16) -> (r: (usize, usize))
        requires
            T::sys_wf(old(self)@.sys),
            y < 8,
            y % 2 == 0 ==> old(self)@.pc.wrapping_add(arg) < 0xffff,
        ensures
            T::sys_wf(final(self)@.sys),
            (final(self)@, r.0, r.1) == block0_z1::<T>(old(self)@, y, arg),
    {
        let p = y / 2;
        if y % 2 == 0 {
            let v = self.imm16(arg);
            self.set_reg16(p, v);
            (12, 3)
        } else {
            let a = self.get_hl();
            let b = self.reg16(p);
            let (v, h, c, _z) = crate::alu::add16(a, b, false);
            self.set_hl(v);
            self.step(4);
            self.set_nhc(false, h, c);
            (8, 1)
        }
    }

    /// The 16-bit register of index `p` (bc, de, hl, sp).
    fn reg16(&self, p: u8) -> (r: u16)
        ensures
            r == reg16(self@, p),
    {
        if p == 0 {
            self.get_bc()
        } else if p == 1 {
            self.get_de()
        } else if p == 2 {
            self.get_hl()
        } else {
            self.get_sp()
        }
    }

    /// Sets the 16-bit register of index `p` (bc, de, hl, sp).
    fn set_reg16(&mut self, p: u8, v: u16)
        ensures
            final(self)@ == set_reg16(old(self)@, p, v),
    {
        if p == 0 {
            self.set_bc(v)
        } else if p == 1 {
            self.set_de(v)
        } else if p == 2 {
            self.set_hl(v)
        } else {
            self.set_sp(v)
        }
    }

    /// Runs a load between a and the byte at bc, de or hl.
    fn exec_block0_z2(&mut self, y: u8) -> (r: (usize, usize))
        requires
            T::sys_wf(old(self)@.sys),
            y < 8,
        ensures
            T::sys_wf(final(self)@.sys),
            (final(self)@, r.0, r.1) == block0_z2::<T>(old(self)@, y),
    {
        let x = if y < 4 {
            self.reg16(y / 2)
        } else {
            self.get_hl()
        };
        if y % 2 == 0 {
            let v = self.get_a();
            self.set8(x, v);
        } else {
            let v = self.get8(x);
            self.set_a(v);
        }
        if y == 4 || y == 5 {
            self.set_hl(x.wrapping_add(1));
        } else if y == 6 || y == 7 {
            self.set_hl(x.wrapping_sub(1));
        }
        (8, 1)
    }

    /// Runs inc rr or dec rr.
    fn exec_block0_z3(&mut self, y: u8) -> (r: (usize, usize))
        requires
            T::sys_wf(old(self)@.sys),
            y < 8,
        ensures
            T::sys_wf(final(self)@.sys),
            (final(self)@, r.0, r.1) == block0_z3::<T>(old(self)@, y),
    {
        let p = y / 2;
        let v = if y % 2 == 0 {
            self.reg16(p).wrapping_add(1)
        } else {
            self.reg16(p).wrapping_sub(1)
        };
        self.set_reg16(p, v);
        self.step(4);
        (8, 1)
    }

    /// Runs inc r, dec r or ld r,d8.
    fn exec_block0_z456(&mut self, y: u8, z: u8, arg: u16) -> (r: (usize, usize))
        requires
            T::sys_wf(old(self)@.sys),
            y < 8,
            4 <= z <= 6,
        ensures
            T::sys_wf(final(self)@.sys),
            (final(self)@, r.0, r.1) == block0_z456::<T>(old(self)@, y, z, arg),
    {
        if z == 6 {
            let v = self.imm8(arg);
            self.write_r8(y, v);
            (if y == 6 { 12 } else { 8 }, 2)
        } else {
            let v = self.read_r8(y);
            let (v, h, _c, z0) = if z == 4 {
                crate::alu::add8(v, 1, false)
            } else {
                crate::alu::sub8(v, 1, false)
            };
            self.write_r8(y, v);
            self.set_znh(z0, z == 5, h);
            (if y == 6 { 12 } else { 4 }, 1)
        }
    }

    /// Runs a rotation of a, daa, cpl, scf or ccf.
    fn exec_block0_z7(&mut self, y: u8) -> (r: (usize, usize))
        requires
            y < 8,
            y == 4 ==> daa_ok(old(self)@),
        ensures
            (final(self)@, r.0, r.1) == block0_z7(old(self)@, y),
    {
        if y < 4 {
            let (v, c) = rot(y, self.get_a(), self.get_cf());
            self.set_a(v);
            self.set_flags(false, false, false, c);
        } else if y == 4 {
            self.daa();
        } else if y == 5 {
            self.set_a(self.get_a() ^ 0xff);
            self.set_nf(true);
            self.set_hf(true);
        } else if y == 6 {
            self.set_nhc(false, false, true);
        } else {
            let c = !self.get_cf();
            self.set_nhc(false, false, c);
        }
        (4, 1)
    }

    /// Decimal correction of a.
    fn daa(&mut self)
        requires
            daa_ok(old(self)@),
        ensures
            final(self)@ == daa_effect(old(self)@),
    {
        let mut adj: u8 = 0;
        let v = self.get_a();
        if self.get_hf() || (!self.get_nf() && v % 16 > 9) {
            adj = 6;
        }
        let c = if self.get_cf() || (!self.get_nf() && v > 0x99) {
            adj = adj + 0x60;
            true
        } else {
            false
        };
        let w: u16 = if self.get_nf() {
            (v - adj) as u16
        } else {
            v as u16 + adj as u16
        };
        let a = (w % 256) as u8;
        self.set_a(a);
        self.set_zf(a == 0);
        self.set_hf(false);
        self.set_cf(c);
    }

    /// Runs an opcode of `0x00..=0x3f`.
    fn exec_block0(&mut self, op: u8, arg: u16) -> (r: (usize, usize))
        requires
            T::sys_wf(old(self)@.sys),
            block0_ok::<T>(old(self)@, op, arg),
        ensures
            T::sys_wf(final(self)@.sys),
            (final(self)@, r.0, r.1) == block0::<T>(old(self)@, op, arg),
    {
        let y = op / 8;
        let z = op % 8;
        if z == 0 {
            self.exec_block0_z0(y, arg)
        } else if z == 1 {
            self.exec_block0_z1(y, arg)
        } else if z == 2 {
            self.exec_block0_z2(y)
        } else if z == 3 {
            self.exec_block0_z3(y)
        } else if z == 7 {
            self.exec_block0_z7(y)
        } else {
            self.exec_block0_z456(y, z, arg)
        }
    }

    /// Runs ld r,r' or halt.
    fn exec_block1(&mut self, op: u8) -> (r: (usize, usize))
        requires
            T::sys_wf(old(self)@.sys),
            0x40 <= op < 0x80,
        ensures
            T::sys_wf(final(self)@.sys),
            (final(self)@, r.0, r.1) == block1::<T>(old(self)@, op),
    {
        let y = (op / 8) % 8;
        let z = op % 8;
        if op == 0x76 {
            self.halt();
            (4, 1)
        } else {
            let v = self.read_r8(z);
            self.write_r8(y, v);
            (if y == 6 || z == 6 { 8 } else { 4 }, 1)
        }
    }

    /// Runs an arithmetic or logic operation on a.
    fn exec_block2(&mut self, op: u8) -> (r: (usize, usize))
        requires
            T::sys_wf(old(self)@.sys),
            0x80 <= op < 0xc0,
        ensures
            T::sys_wf(final(self)@.sys),
            (final(self)@, r.0, r.1) == block2::<T>(old(self)@, op),
    {
        let y = (op / 8) % 8;
        let z = op % 8;
        let q = self.read_r8(z);
        self.alu(y, q);
        (if z == 6 { 8 } else { 4 }, 1)
    }

    /// Runs ret cc or a high-page, stack-pointer or hl-from-stack-pointer load.
    fn exec_block3_z0(&mut self, y: u8, arg: u16) -> (r: (usize, usize))
        requires
            T::sys_wf(old(self)@.sys),
            y < 8,
            y < 4 && cond(old(self)@, y) ==> old(self)@.sp < 0xffff,
        ensures
            T::sys_wf(final(self)@.sys),
            (final(self)@, r.0, r.1) == block3_z0::<T>(old(self)@, y, arg),
    {
        if y < 4 {
            let flg = self.cond(y);
            self.step(4);
            if flg {
                let pc = self.pop();
                self.jump(pc);
                (20, 0)
            } else {
                (8, 1)
            }
        } else {
            let a = self.get_a();
            let sp = self.get_sp();
            let x = self.imm8(arg);
            if y == 4 {
                self.set8(0xff00 + x as u16, a);
                (12, 2)
            } else if y == 6 {
                let v = self.get8(0xff00 + x as u16);
                self.set_a(v);
                (12, 2)
            } else {
                let (v, h, c, _z) = crate::alu::add16e(sp, x, false);
                if y == 5 {
                    self.set_sp(v);
                    self.step(8);
                } else {
                    self.set_hl(v);
                    self.step(4);
                }
                self.set_flags(false, false, h, c);
                (if y == 5 { 16 } else { 12 }, 2)
            }
        }
    }

    /// Sets the register pair of stack index `p` (bc, de, hl, af).
    fn set_stack_reg(&mut self, p: u8, v: u16)
        ensures
            final(self)@ == set_stack_reg(old(self)@, p, v),
    {
        if p == 3 {
            self.set_af(v)
        } else {
            self.set_reg16(p, v)
        }
    }

    /// The register pair of stack index `p` (bc, de, hl, af).
    fn stack_reg(&self, p: u8) -> (r: u16)
        ensures
            r == stack_reg(self@, p),
    {
        if p == 3 {
            self.get_af()
        } else {
            self.reg16(p)
        }
    }

    /// Runs pop, ret, reti, jp hl or ld sp,hl.
    fn exec_block3_z1(&mut self, y: u8) -> (r: (usize, usize))
        requires
            T::sys_wf(old(self)@.sys),
            y < 8,
            (y % 2 == 0 || y == 1 || y == 3) ==> old(self)@.sp < 0xffff,
        ensures
            T::sys_wf(final(self)@.sys),
            (final(self)@, r.0, r.1) == block3_z1::<T>(old(self)@, y),
    {
        if y % 2 == 0 {
            let v = self.pop();
            self.set_stack_reg(y / 2, v);
            (12, 1)
        } else if y == 1 || y == 3 {
            let pc = self.pop().wrapping_sub(1);
            self.jump(pc);
            if y == 3 {
                self.enable_interrupt();
            }
            (16, 1)
        } else if y == 5 {
            let pc = self.get_hl();
            self.set_pc(pc.wrapping_sub(1));
            (4, 1)
        } else {
            let v = self.get_hl();
            self.set_sp(v);
            self.step(4);
            (8, 1)
        }
    }

    /// Runs jp cc or a load of a through c or an address.
    fn exec_block3_z2(&mut self, y: u8, arg: u16) -> (r: (usize, usize))
        requires
            T::sys_wf(old(self)@.sys),
            y < 8,
            (y < 4 || y == 5 || y == 7) ==> old(self)@.pc.wrapping_add(arg) < 0xffff,
        ensures
            T::sys_wf(final(self)@.sys),
            (final(self)@, r.0, r.1) == block3_z2::<T>(old(self)@, y, arg),
    {
        let a = self.get_a();
        if y == 4 {
            self.set8(0xff00 + self.get_c() as u16, a);
            (8, 1)
        } else if y == 6 {
            let v = self.get8(0xff00 + self.get_c() as u16);
            self.set_a(v);
            (8, 1)
        } else {
            let flg = self.cond(y);
            let x = self.imm16(arg);
            if y < 4 {
                if flg {
                    self.jump(x);
                    (16, 0)
                } else {
                    (12, 3)
                }
            } else if y == 5 {
                self.set8(x, a);
                (16, 3)
            } else {
                let v = self.get8(x);
                self.set_a(v);
                (16, 3)
            }
        }
    }

    /// Runs jp, the CB prefix, di, ei, call cc, push or call.
    fn exec_block3_z345(&mut self, y: u8, z: u8, arg: u16) -> (r: (usize, usize))
        requires
            T::sys_wf(old(self)@.sys),
            y < 8,
            3 <= z <= 5,
            z == 3 ==> y == 0 || y == 1 || y == 6 || y == 7,
            z == 4 ==> y < 4,
            z == 5 ==> y % 2 == 0 || y == 1,
            ((z == 3 && y == 0) || z == 4 || (z == 5 && y == 1)) ==> old(self)@.pc.wrapping_add(arg)
                < 0xffff,
            ((z == 5) || (z == 4 && cond(old(self)@, y))) ==> can_push(old(self)@),
        ensures
            T::sys_wf(final(self)@.sys),
            (final(self)@, r.0, r.1) == block3_z345::<T>(old(self)@, y, z, arg),
    {
        if z == 3 {
            if y == 0 {
                let x = self.imm16(arg);
                self.jump(x.wrapping_sub(3));
                (16, 3)
            } else if y == 1 {
                (4, 1)
            } else {
                if y == 7 {
                    self.enable_interrupt();
                } else {
                    self.disable_interrupt();
                }
                (4, 1)
            }
        } else if z == 4 {
            let flg = self.cond(y);
            let x = self.imm16(arg);
            if flg {
                self.push(self.get_pc().wrapping_add(3));
                self.jump(x);
                (24, 0)
            } else {
                (12, 3)
            }
        } else if y % 2 == 0 {
            self.push(self.stack_reg(y / 2));
            self.step(4);
            (16, 1)
        } else {
            self.push(self.get_pc().wrapping_add(3));
            let x = self.imm16(arg);
            self.jump(x.wrapping_sub(3));
            (24, 3)
        }
    }

    /// Runs an opcode of `0xc0..=0xff`.
    fn exec_block3(&mut self, op: u8, arg: u16) -> (r: (usize, usize))
        requires
            T::sys_wf(old(self)@.sys),
            block3_ok::<T>(old(self)@, op, arg),
        ensures
            T::sys_wf(final(self)@.sys),
            (final(self)@, r.0, r.1) == block3::<T>(old(self)@, op, arg),
    {
        let y = (op / 8) % 8;
        let z = op % 8;
        if z == 0 {
            self.exec_block3_z0(y, arg)
        } else if z == 1 {
            self.exec_block3_z1(y)
        } else if z == 2 {
            self.exec_block3_z2(y, arg)
        } else if z == 6 {
            let q = self.imm8(arg);
            self.alu(y, q);
            (8, 2)
        } else if z == 7 {
            self.push(self.get_pc().wrapping_add(1));
            self.jump(((y as u16) * 8).wrapping_sub(1));
            (16, 1)
        } else {
            self.exec_block3_z345(y, z, arg)
        }
    }

    /// Runs a CB-prefixed opcode.
    fn exec_cb(&mut self, op: u8) -> (r: (usize, usize))
        requires
            T::sys_wf(old(self)@.sys),
        ensures
            T::sys_wf(final(self)@.sys),
            (final(self)@, r.0, r.1) == cb_effect::<T>(old(self)@, op),
    {
        let x = op / 64;
        let y = (op / 8) % 8;
        let z = op % 8;
        let v = self.read_r8(z);
        if x == 0 {
            let (w, c) = rot(y, v, self.get_cf());
            self.write_r8(z, w);
            self.set_flags(w == 0, false, false, c);
            (if z == 6 { 16 } else { 8 }, 2)
        } else if x == 1 {
            self.set_znh(v & (1u8 << y) == 0, false, true);
            (if z == 6 { 12 } else { 8 }, 2)
        } else {
            let w = if x == 2 {
                v & !(1u8 << y)
            } else {
                v | (1u8 << y)
            };
            self.write_r8(z, w);
            (if z == 6 { 16 } else { 8 }, 2)
        }
    }

    /// Runs the instruction `code` (see the module documentation for `arg` and the program
    /// counter) and returns its cycle time and its length. Every instruction ends with four
    /// cycles of its own.
    pub fn decode(&mut self, code: u16, arg: u16) -> (r: (usize, usize))
        requires
            T::sys_wf(old(self)@.sys),
            decode_ok::<T>(old(self)@, code, arg),
        ensures
            T::sys_wf(final(self)@.sys),
            (final(self)@, r.0, r.1) == decoded::<T>(old(self)@, code, arg),
    {
        let (time, size) = if code >= 0xcb00 {
            self.exec_cb((code - 0xcb00) as u8)
        } else if code < 0x40 {
            self.exec_block0(code as u8, arg)
        } else if code < 0x80 {
            self.exec_block1(code as u8)
        } else if code < 0xc0 {
            self.exec_block2(code as u8)
        } else {
            self.exec_block3(code as u8, arg)
        };
        self.step(4);
        (time, size)
    }
}

/// The rotation or shift `y` of `v` with carry `cy`: the result and the carry out.
fn rot(y: u8, v: u8, cy: bool) -> (r: (u8, bool))
    requires
        y < 8,
    ensures
        r == rot_spec(y, v, cy),
{
    if y == 0 {
        ((v << 1u8) | (v >> 7u8), v & 0x80 != 0)
    } else if y == 1 {
        ((v >> 1u8) | (v << 7u8), v & 1 != 0)
    } else if y == 2 {
        ((v << 1u8) | (if cy { 1u8 } else { 0u8 }), v & 0x80 != 0)
    } else if y == 3 {
        ((v >> 1u8) | (if cy { 0x80u8 } else { 0u8 }), v & 1 != 0)
    } else if y == 4 {
        (v << 1u8, v & 0x80 != 0)
    } else if y == 5 {
        ((v >> 1u8) | (v & 0x80), v & 1 != 0)
    } else if y == 6 {
        ((v << 4u8) | (v >> 4u8), false)
    } else {
        (v >> 1u8, v & 1 != 0)
    }
}

} // verus!

verus! {

/// Two cycle counts added one after the other wrap as their sum does.
proof fn lemma_wrapping_add_twice(x: usize, a: usize, b: usize)
    requires
        a + b <= 64,
    ensures
        x.wrapping_add(a).wrapping_add(b) == x.wrapping_add((a + b) as usize),
{
}

/// Wrapping additions of small cycle counts chain as one addition of their sum.
proof fn lemma_cycles_chain()
    ensures
        forall|x: usize, a: usize, b: usize|
            a + b <= 64 ==> #[trigger] x.wrapping_add(a).wrapping_add(b) == x.wrapping_add(
                (a + b) as usize,
            ),
{
    assert forall|x: usize, a: usize, b: usize| a + b <= 64 implies #[trigger] x.wrapping_add(
        a,
    ).wrapping_add(b) == x.wrapping_add((a + b) as usize) by {
        lemma_wrapping_add_twice(x, a, b);
    }
}

proof fn lemma_block0_cycles<T: Sys>(c: CpuView<T::V>, op: u8, arg: u16)
    requires
        block0_ok::<T>(c, op, arg),
    ensures
        ({
            let r = block0::<T>(c, op, arg);
            r.1 >= 4 && r.0.cycles == c.cycles.wrapping_add((r.1 - 4) as usize)
        }),
{
    lemma_cycles_chain();
    let y = op / 8;
    let z = op % 8;
    if z == 0 {
        assert(block0_z0::<T>(c, y, arg) == block0::<T>(c, op, arg));
    } else if z == 1 {
        assert(block0_z1::<T>(c, y, arg) == block0::<T>(c, op, arg));
    } else if z == 2 {
        assert(block0_z2::<T>(c, y) == block0::<T>(c, op, arg));
    } else if z == 3 {
        assert(block0_z3::<T>(c, y) == block0::<T>(c, op, arg));
    } else if z == 7 {
        assert(block0_z7(c, y) == block0::<T>(c, op, arg));
    } else {
        assert(block0_z456::<T>(c, y, z, arg) == block0::<T>(c, op, arg));
    }
}

proof fn lemma_block3_cycles<T: Sys>(c: CpuView<T::V>, op: u8, arg: u16)
    requires
        block3_ok::<T>(c, op, arg),
    ensures
        ({
            let r = block3::<T>(c, op, arg);
            r.1 >= 4 && r.0.cycles == c.cycles.wrapping_add((r.1 - 4) as usize)
        }),
{
    lemma_cycles_chain();
    let y = (op / 8) % 8;
    let z = op % 8;
    if z == 0 {
        assert(block3_z0::<T>(c, y, arg) == block3::<T>(c, op, arg));
    } else if z == 1 {
        assert(block3_z1::<T>(c, y) == block3::<T>(c, op, arg));
    } else if z == 2 {
        assert(block3_z2::<T>(c, y, arg) == block3::<T>(c, op, arg));
    } else if z == 6 || z == 7 {
    } else {
        assert(block3_z345::<T>(c, y, z, arg) == block3::<T>(c, op, arg));
    }
}

proof fn lemma_other_cycles<T: Sys>(c: CpuView<T::V>, code: u16)
    requires
        0x40 <= code < 0xc0 || 0xcb00 <= code <= 0xcbff,
    ensures
        code >= 0xcb00 ==> ({
            let r = cb_effect::<T>(c, (code - 0xcb00) as u8);
            r.1 >= 8 && r.0.cycles == c.cycles.wrapping_add((r.1 - 8) as usize)
        }),
        code < 0xc0 ==> ({
            let r = if code < 0x80 {
                block1::<T>(c, code as u8)
            } else {
                block2::<T>(c, code as u8)
            };
            r.1 >= 4 && r.0.cycles == c.cycles.wrapping_add((r.1 - 4) as usize)
        }),
{
    lemma_cycles_chain();
}

/// Every instruction consumes exactly the cycles that it reports, less the four cycles of
/// the CB prefix, which are spent fetching the prefix before the instruction runs.
pub proof fn lemma_decode_cycles<T: Sys>(c: CpuView<T::V>, code: u16, arg: u16)
    requires
        decode_ok::<T>(c, code, arg),
    ensures
        ({
            let r = decoded::<T>(c, code, arg);
            r.0.cycles == c.cycles.wrapping_add(
                if code >= 0xcb00 {
                    (r.1 - 4) as usize
                } else {
                    r.1
                },
            )
        }),
{
    lemma_cycles_chain();
    if code >= 0xcb00 {
        lemma_other_cycles::<T>(c, code);
    } else if code < 0x40 {
        lemma_block0_cycles::<T>(c, code as u8, arg);
    } else if code < 0xc0 {
        lemma_other_cycles::<T>(c, code);
    } else {
        lemma_block3_cycles::<T>(c, code as u8, arg);
    }
}

/// Setting or clearing a flag leaves the low four bits of the flag register alone.
proof fn lemma_flag_keeps_low(f: u8, m: u8, v: bool)
    requires
        m & 0x0f == 0,
    ensures
        flag(f, m, v) & 0x0f == f & 0x0f,
{
    assert((if v { f | m } else { f & !m }) & 0x0f == f & 0x0f) by (bit_vector)
        requires
            m & 0x0f == 0,
    ;
}

/// Every flag update keeps the low four bits of the flag register.
proof fn lemma_flags_keep_low()
    ensures
        forall|f: u8, m: u8, v: bool|
            m & 0x0f == 0 ==> #[trigger] flag(f, m, v) & 0x0f == f & 0x0f,
        forall|v: u16| #[trigger] ((v & 0xf0) as u8) & 0x0f == 0,
        0x80u8 & 0x0f == 0 && 0x40u8 & 0x0f == 0 && 0x20u8 & 0x0f == 0 && 0x10u8 & 0x0f == 0,
{
    assert forall|f: u8, m: u8, v: bool| m & 0x0f == 0 implies #[trigger] flag(f, m, v) & 0x0f
        == f & 0x0f by {
        lemma_flag_keeps_low(f, m, v);
    }
    assert forall|v: u16| #[trigger] ((v & 0xf0) as u8) & 0x0f == 0 by {
        assert(((v & 0xf0) as u8) & 0x0f == 0) by (bit_vector);
    }
    assert(0x80u8 & 0x0f == 0 && 0x40u8 & 0x0f == 0 && 0x20u8 & 0x0f == 0 && 0x10u8 & 0x0f == 0)
        by (bit_vector);
}

proof fn lemma_block0_flags_low<T: Sys>(c: CpuView<T::V>, op: u8, arg: u16)
    requires
        block0_ok::<T>(c, op, arg),
        c.f & 0x0f == 0,
    ensures
        block0::<T>(c, op, arg).0.f & 0x0f == 0,
{
    lemma_flags_keep_low();
    let y = op / 8;
    let z = op % 8;
    if z == 0 {
        assert(block0_z0::<T>(c, y, arg).0.f == c.f);
    } else if z == 1 {
    } else if z == 2 {
        assert(block0_z2::<T>(c, y).0.f == c.f);
    } else if z == 3 {
        assert(block0_z3::<T>(c, y).0.f == c.f);
    } else if z == 7 {
    } else {
    }
}

proof fn lemma_block3_flags_low<T: Sys>(c: CpuView<T::V>, op: u8, arg: u16)
    requires
        block3_ok::<T>(c, op, arg),
        c.f & 0x0f == 0,
    ensures
        block3::<T>(c, op, arg).0.f & 0x0f == 0,
{
    lemma_flags_keep_low();
    let y = (op / 8) % 8;
    let z = op % 8;
    if z == 0 {
    } else if z == 1 {
    } else if z == 2 {
        assert(block3_z2::<T>(c, y, arg).0.f == c.f);
    } else if z == 6 {
    } else if z == 7 {
    } else {
        assert(block3_z345::<T>(c, y, z, arg).0.f == c.f);
    }
}

/// The low four bits of the flag register, once zero, stay zero across every instruction:
/// flags are set one bit at a time, and a pop into af clears them.
pub proof fn lemma_decode_flags_low<T: Sys>(c: CpuView<T::V>, code: u16, arg: u16)
    requires
        decode_ok::<T>(c, code, arg),
        c.f & 0x0f == 0,
    ensures
        decoded::<T>(c, code, arg).0.f & 0x0f == 0,
{
    lemma_flags_keep_low();
    if code >= 0xcb00 {
    } else if code < 0x40 {
        lemma_block0_flags_low::<T>(c, code as u8, arg);
    } else if code < 0x80 {
    } else if code < 0xc0 {
    } else {
        lemma_block3_flags_low::<T>(c, code as u8, arg);
    }
}

} // verus!
