//! CPU state and the interface through which it reaches memory and devices.
use crate::inst::{decode_ok, decoded, lemma_decode_cycles};
use vstd::prelude::*;

verus! {

/// The CPU clock frequency in Hz.
pub const CPU_FREQ_HZ: usize = 4_194_304;

/// The little-endian word made of two bytes.
pub open spec fn word(h: u8, l: u8) -> u16 {
    ((h as u16) << 8u16 | l as u16) as u16
}

/// Interface for CPU to interact with memory/devices
pub trait Sys: View + Sized {
    /// The states the system can be in.
    spec fn sys_wf(s: Self::V) -> bool;

    /// The byte a read of `addr` returns.
    spec fn read8(s: Self::V, addr: u16) -> u8;

    /// The state after a write of `v` at `addr`.
    spec fn write8(s: Self::V, addr: u16, v: u8) -> Self::V;

    /// The state after `cycles` CPU cycles.
    spec fn stepped(s: Self::V, cycles: nat) -> Self::V;

    /// The vector of the interrupt to serve, if any is requested and enabled.
    spec fn int_vec(s: Self::V) -> Option<u8>;

    /// The state after the interrupt to serve is acknowledged.
    spec fn int_acked(s: Self::V) -> Self::V;

    /// Get the interrupt vector address clearing the interrupt flag state
    fn pop_int_vec(&mut self) -> (r: Option<u8>)
        requires
            Self::sys_wf(old(self)@),
        ensures
            Self::sys_wf(final(self)@),
            r == Self::int_vec(old(self)@),
            final(self)@ == Self::int_acked(old(self)@),
    ;

    /// Get the interrupt vector address without clearing the interrupt flag state
    fn peek_int_vec(&self) -> (r: Option<u8>)
        requires
            Self::sys_wf(self@),
        ensures
            r == Self::int_vec(self@),
    ;

    /// Read a byte from the address.
    fn get8(&self, addr: u16) -> (r: u8)
        requires
            Self::sys_wf(self@),
        ensures
            r == Self::read8(self@, addr),
    ;

    /// Write a byte to the address.
    fn set8(&mut self, addr: u16, v: u8)
        requires
            Self::sys_wf(old(self)@),
        ensures
            Self::sys_wf(final(self)@),
            final(self)@ == Self::write8(old(self)@, addr, v),
    ;

    /// Reads two bytes from the given addresss in the memory.
    fn get16(&self, addr: u16) -> (r: u16)
        requires
            Self::sys_wf(self@),
            addr < 0xffff,
        ensures
            r == word(Self::read8(self@, (addr + 1) as u16), Self::read8(self@, addr)),
    {
        let l = self.get8(addr);
        let h = self.get8(addr + 1);
        (h as u16) << 8u16 | l as u16
    }

    /// Writes two bytes at the given address in the memory.
    fn set16(&mut self, addr: u16, v: u16)
        requires
            Self::sys_wf(old(self)@),
            addr < 0xffff,
        ensures
            Self::sys_wf(final(self)@),
            final(self)@ == Self::write8(
                Self::write8(old(self)@, addr, v as u8),
                (addr + 1) as u16,
                (v >> 8u16) as u8,
            ),
    {
        self.set8(addr, v as u8);
        self.set8(addr + 1, (v >> 8u16) as u8);
    }

    /// Proceed the system state by the given CPU cycles.
    fn step(&mut self, cycles: usize)
        requires
            Self::sys_wf(old(self)@),
        ensures
            Self::sys_wf(final(self)@),
            final(self)@ == Self::stepped(old(self)@, cycles as nat),
    ;
}

/// A flat 64 KiB memory with no devices and no interrupts.
pub struct Ram {
    mem: Vec<u8>,
}

impl View for Ram {
    type V = Seq<u8>;

    closed spec fn view(&self) -> Seq<u8> {
        self.mem@
    }
}

impl Ram {
    pub fn new() -> (r: Self)
        ensures
            r@ == Seq::new(0x10000, |i: int| 0u8),
    {
        let r = Self { mem: vec![0; 0x10000] };
        assert(r.mem@ =~= Seq::new(0x10000, |i: int| 0u8));
        r
    }

    /// Loads `bytes` from address 0.
    pub fn write(&mut self, bytes: &[u8])
        requires
            old(self)@.len() == 0x10000,
            bytes@.len() <= 0x10000,
        ensures
            final(self)@ == bytes@ + old(self)@.subrange(bytes@.len() as int, 0x10000),
    {
        let mut i: usize = 0;
        while i < bytes.len()
            invariant
                i <= bytes@.len() <= 0x10000,
                self@.len() == 0x10000,
                forall|j: int| 0 <= j < i ==> self@[j] == bytes@[j],
                forall|j: int| i <= j < 0x10000 ==> self@[j] == old(self)@[j],
            decreases bytes@.len() - i,
        {
            self.mem.set(i, bytes[i]);
            i = i + 1;
        }
        assert(self@ =~= bytes@ + old(self)@.subrange(bytes@.len() as int, 0x10000));
    }
}

impl Sys for Ram {
    open spec fn sys_wf(s: Seq<u8>) -> bool {
        s.len() == 0x10000
    }

    open spec fn read8(s: Seq<u8>, addr: u16) -> u8 {
        s[addr as int]
    }

    open spec fn write8(s: Seq<u8>, addr: u16, v: u8) -> Seq<u8> {
        s.update(addr as int, v)
    }

    open spec fn stepped(s: Seq<u8>, cycles: nat) -> Seq<u8> {
        s
    }

    open spec fn int_vec(s: Seq<u8>) -> Option<u8> {
        None
    }

    open spec fn int_acked(s: Seq<u8>) -> Seq<u8> {
        s
    }

    fn pop_int_vec(&mut self) -> (r: Option<u8>) {
        None
    }

    fn peek_int_vec(&self) -> (r: Option<u8>) {
        None
    }

    fn get8(&self, addr: u16) -> (r: u8) {
        self.mem[addr as usize]
    }

    fn set8(&mut self, addr: u16, v: u8) {
        self.mem.set(addr as usize, v);
    }

    fn step(&mut self, cycles: usize) {
    }
}

/// The abstract state of a [`Cpu`]: its registers, interrupt state, cycle count and system.
pub struct CpuView<S> {
    pub a: u8,
    pub b: u8,
    pub c: u8,
    pub d: u8,
    pub e: u8,
    pub f: u8,
    pub h: u8,
    pub l: u8,
    pub pc: u16,
    pub sp: u16,
    pub ime: bool,
    pub ei_delay: usize,
    pub di_delay: usize,
    pub halt: bool,
    pub halt_bug: bool,
    pub cycles: usize,
    pub sys: S,
}

/// Represents CPU state.
pub struct Cpu<T> {
    a: u8,
    b: u8,
    c: u8,
    d: u8,
    e: u8,
    f: u8,
    h: u8,
    l: u8,
    pc: u16,
    sp: u16,
    ime: bool,
    ei_delay: usize,
    di_delay: usize,
    halt: bool,
    halt_bug: bool,
    cycles: usize,
    sys: T,
}

impl<T: View> View for Cpu<T> {
    type V = CpuView<T::V>;

    closed spec fn view(&self) -> CpuView<T::V> {
        CpuView {
            a: self.a,
            b: self.b,
            c: self.c,
            d: self.d,
            e: self.e,
            f: self.f,
            h: self.h,
            l: self.l,
            pc: self.pc,
            sp: self.sp,
            ime: self.ime,
            ei_delay: self.ei_delay,
            di_delay: self.di_delay,
            halt: self.halt,
            halt_bug: self.halt_bug,
            cycles: self.cycles,
            sys: self.sys@,
        }
    }
}

/// The state after `cycles` cycles: counted (wrapping) and passed on to the system.
pub open spec fn cpu_stepped<T: Sys>(c: CpuView<T::V>, cycles: usize) -> CpuView<T::V> {
    CpuView { cycles: c.cycles.wrapping_add(cycles), sys: T::stepped(c.sys, cycles as nat), ..c }
}

/// The state after the program counter moves past a fetched byte: it stays once after the
/// HALT bug.
pub open spec fn cpu_inc_pc<S>(c: CpuView<S>) -> CpuView<S> {
    if c.halt_bug {
        CpuView { halt_bug: false, ..c }
    } else {
        CpuView { pc: c.pc.wrapping_add(1), ..c }
    }
}

/// The state after the delayed DI and EI count down; either takes effect when its count
/// reaches one.
pub open spec fn cpu_update_ime<S>(c: CpuView<S>) -> CpuView<S> {
    let c1 = if c.di_delay > 0 {
        CpuView {
            ime: if c.di_delay == 1 {
                false
            } else {
                c.ime
            },
            di_delay: (c.di_delay - 1) as usize,
            ..c
        }
    } else {
        c
    };
    if c1.ei_delay > 0 {
        CpuView {
            ime: if c1.ei_delay == 1 {
                true
            } else {
                c1.ime
            },
            ei_delay: (c1.ei_delay - 1) as usize,
            ..c1
        }
    } else {
        c1
    }
}

/// The state after `v` is pushed on the stack at `sp - 2` (8 cycles).
pub open spec fn cpu_pushed<T: Sys>(c: CpuView<T::V>, v: u16) -> CpuView<T::V> {
    let p = c.sp.wrapping_sub(2);
    let c1 = cpu_stepped::<T>(CpuView { sp: p, ..c }, 8);
    CpuView {
        sys: T::write8(T::write8(c1.sys, p, v as u8), (p + 1) as u16, (v >> 8u16) as u8),
        ..c1
    }
}

/// The state after the interrupt check: with interrupts enabled, a requested interrupt is
/// acknowledged and served (the program counter pushed, a jump to its vector, interrupts
/// disabled, halt left, 20 cycles or 24 from halt); with interrupts disabled a pending
/// interrupt only wakes a halted CPU (4 cycles).
pub open spec fn cpu_interrupt_checked<T: Sys>(c: CpuView<T::V>) -> CpuView<T::V> {
    if !c.ime {
        if c.halt && T::int_vec(c.sys) is Some {
            CpuView { halt: false, ..cpu_stepped::<T>(c, 4) }
        } else {
            c
        }
    } else {
        match T::int_vec(c.sys) {
            None => CpuView { sys: T::int_acked(c.sys), ..c },
            Some(v) => {
                let c0 = CpuView { sys: T::int_acked(c.sys), ime: false, ..c };
                let c1 = CpuView { pc: v as u16, ..cpu_pushed::<T>(c0, c.pc) };
                CpuView { halt: false, ..cpu_stepped::<T>(c1, if c.halt { 24 } else { 20 }) }
            },
        }
    }
}

/// The opcode at the program counter, its operand offset and the state it is decoded in. The
/// byte after a CB prefix is read in four cycles. After the HALT bug the byte at the program
/// counter is read twice, which amounts to decoding one byte earlier.
pub open spec fn cpu_fetched<T: Sys>(c: CpuView<T::V>) -> (CpuView<T::V>, u16, u16) {
    let base = if c.halt_bug {
        c.pc.wrapping_sub(1)
    } else {
        c.pc
    };
    let c0 = CpuView { pc: base, halt_bug: false, ..c };
    let b = T::read8(c.sys, c.pc);
    if b == 0xcb {
        let c1 = cpu_stepped::<T>(c0, 4);
        (c1, 0xcb00u16 | T::read8(c1.sys, base.wrapping_add(1)) as u16, 2)
    } else {
        (c0, b as u16, 1)
    }
}

/// The state after the instruction at the program counter (or four idle cycles while halted),
/// with the program counter moved on by the instruction's length.
pub open spec fn cpu_stepped_instruction<T: Sys>(c: CpuView<T::V>) -> CpuView<T::V> {
    if c.halt {
        cpu_stepped::<T>(c, 4)
    } else {
        let (cf, code, arg) = cpu_fetched::<T>(c);
        let (cd, t, s) = decoded::<T>(cf, code, arg);
        CpuView { pc: cd.pc.wrapping_add(s as u16), ..cd }
    }
}

/// The state after `execute`, before its cycle count is handed back and cleared: the
/// instruction, the delayed DI/EI update and the interrupt check.
pub open spec fn cpu_executed<T: Sys>(c: CpuView<T::V>) -> CpuView<T::V> {
    cpu_interrupt_checked::<T>(cpu_update_ime(cpu_stepped_instruction::<T>(c)))
}

/// Whether `execute` runs to completion: the instruction exists and runs to completion, the
/// cycle count starts at zero (the instruction's time is checked against it), and the
/// interrupt check can push the program counter.
pub open spec fn cpu_can_execute<T: Sys>(c: CpuView<T::V>) -> bool {
    &&& T::sys_wf(c.sys)
    &&& !c.halt ==> ({
        let (cf, code, arg) = cpu_fetched::<T>(c);
        decode_ok::<T>(cf, code, arg) && c.cycles == 0
    })
    &&& can_push(cpu_stepped_instruction::<T>(c))
}

/// Whether a push stays within the address space.
pub open spec fn can_push<S>(c: CpuView<S>) -> bool {
    c.sp.wrapping_sub(2) < 0xffff
}

impl<T: Sys> Cpu<T> {
    /// Create a new CPU state.
    pub fn new(sys: T) -> (r: Cpu<T>)
        ensures
            r@ == (CpuView {
                a: 0,
                b: 0,
                c: 0,
                d: 0,
                e: 0,
                f: 0,
                h: 0,
                l: 0,
                pc: 0,
                sp: 0,
                ime: true,
                ei_delay: 0,
                di_delay: 0,
                halt: false,
                halt_bug: false,
                cycles: 0,
                sys: sys@,
            }),
    {
        Cpu {
            a: 0,
            b: 0,
            c: 0,
            d: 0,
            e: 0,
            f: 0,
            h: 0,
            l: 0,
            pc: 0,
            sp: 0,
            ime: true,
            ei_delay: 0,
            di_delay: 0,
            halt: false,
            halt_bug: false,
            cycles: 0,
            sys,
        }
    }

    /// The system the CPU drives.
    pub fn sys(&self) -> (r: &T)
        ensures
            r@ == self@.sys,
    {
        &self.sys
    }

    /// The system the CPU drives, for the machine around it to report its events.
    pub fn sys_mut(&mut self) -> (r: &mut T)
        ensures
            (*r)@ == old(self)@.sys,
            final(self)@ == (CpuView { sys: (*final(r))@, ..old(self)@ }),
    {
        &mut self.sys
    }

    /// Switch the CPU state to halting. With interrupts disabled and one pending, the CPU
    /// does not halt and the next fetch repeats a byte instead.
    pub fn halt(&mut self)
        requires
            T::sys_wf(old(self)@.sys),
        ensures
            final(self)@ == (if !old(self)@.ime && T::int_vec(old(self)@.sys) is Some {
                CpuView { halt_bug: true, ..old(self)@ }
            } else {
                CpuView { halt: true, ..old(self)@ }
            }),
    {
        if !self.ime && self.sys.peek_int_vec().is_some() {
            self.halt_bug = true;
        } else {
            self.halt = true;
        }
    }

    /// Step forward
    pub fn step(&mut self, cycles: usize)
        requires
            T::sys_wf(old(self)@.sys),
        ensures
            T::sys_wf(final(self)@.sys),
            final(self)@ == cpu_stepped::<T>(old(self)@, cycles),
    {
        self.cycles = self.cycles.wrapping_add(cycles);
        self.sys.step(cycles);
    }

    /// Handles DI
    pub fn di(&mut self)
        ensures
            final(self)@ == (CpuView { di_delay: 2, ..old(self)@ }),
    {
        self.di_delay = 2;
    }

    /// Handles EI
    pub fn ei(&mut self)
        ensures
            final(self)@ == (CpuView { ei_delay: 2, ..old(self)@ }),
    {
        self.ei_delay = 2;
    }

    /// Update IME: a DI or EI takes effect after the instruction that follows it.
    pub fn update_ime(&mut self)
        ensures
            final(self)@ == cpu_update_ime(old(self)@),
    {
        if self.di_delay > 0 {
            if self.di_delay == 1 {
                self.ime = false;
            }
            self.di_delay -= 1;
        }
        if self.ei_delay > 0 {
            if self.ei_delay == 1 {
                self.ime = true;
            }
            self.ei_delay -= 1;
        }
    }

    /// Disable interrupts to this CPU.
    pub fn disable_interrupt(&mut self)
        ensures
            final(self)@ == (CpuView { ime: false, ..old(self)@ }),
    {
        self.ime = false;
    }

    /// Enable interrupts to this CPU.
    pub fn enable_interrupt(&mut self)
        ensures
            final(self)@ == (CpuView { ime: true, ..old(self)@ }),
    {
        self.ime = true;
    }

    /// Execute a single instruction: fetch the opcode at the program counter, run it and move
    /// the program counter past it (a halted CPU idles four cycles instead), then apply a
    /// delayed DI or EI and serve a pending interrupt. Returns the cycles spent, which the
    /// count is then cleared of; the instruction's own share equals the time it reports.
    pub fn execute(&mut self) -> (r: usize)
        requires
            cpu_can_execute::<T>(old(self)@),
        ensures
            T::sys_wf(final(self)@.sys),
            r == cpu_executed::<T>(old(self)@).cycles,
            final(self)@ == (CpuView { cycles: 0, ..cpu_executed::<T>(old(self)@) }),
            !old(self)@.halt ==> ({
                let (cf, code, arg) = cpu_fetched::<T>(old(self)@);
                decoded::<T>(cf, code, arg).0.cycles == decoded::<T>(cf, code, arg).1
            }),
    {
        self.run_instruction();
        self.update_ime();
        self.check_interrupt();
        let cycles = self.cycles;
        self.cycles = 0;
        cycles
    }

    /// Runs the instruction at the program counter, or idles four cycles while halted.
    fn run_instruction(&mut self)
        requires
            cpu_can_execute::<T>(old(self)@),
        ensures
            T::sys_wf(final(self)@.sys),
            final(self)@ == cpu_stepped_instruction::<T>(old(self)@),
            !old(self)@.halt ==> ({
                let (cf, code, arg) = cpu_fetched::<T>(old(self)@);
                decoded::<T>(cf, code, arg).0.cycles == decoded::<T>(cf, code, arg).1
            }),
    {
        if self.halt {
            self.step(4);
        } else {
            let (code, arg) = self.fetch_for_decode();
            let ghost cf = self@;
            let (time, size) = self.decode(code, arg);
            proof {
                lemma_fetched_cycles::<T>(old(self)@, cf, code, arg);
            }
            self.pc = self.pc.wrapping_add(size as u16);
        }
    }

    /// Reads the opcode at the program counter for `decode` and returns it with its operand
    /// offset, leaving the program counter where `decode` expects it.
    fn fetch_for_decode(&mut self) -> (r: (u16, u16))
        requires
            T::sys_wf(old(self)@.sys),
        ensures
            T::sys_wf(final(self)@.sys),
            (final(self)@, r.0, r.1) == cpu_fetched::<T>(old(self)@),
    {
        let pc = self.pc;
        let b = self.sys.get8(pc);
        let base = if self.halt_bug {
            pc.wrapping_sub(1)
        } else {
            pc
        };
        self.halt_bug = false;
        self.pc = base;
        if b == 0xcb {
            let x = self.get8(base.wrapping_add(1));
            (0xcb00u16 | x as u16, 2)
        } else {
            (b as u16, 1)
        }
    }

    /// Check if pending interrupts in the interrupt controller, and process them if any:
    /// push the program counter, jump to the vector with interrupts disabled, and leave halt.
    /// With interrupts disabled a pending interrupt only wakes a halted CPU.
    pub fn check_interrupt(&mut self)
        requires
            T::sys_wf(old(self)@.sys),
            can_push(old(self)@),
        ensures
            T::sys_wf(final(self)@.sys),
            final(self)@ == cpu_interrupt_checked::<T>(old(self)@),
            !old(self)@.ime ==> final(self)@ == (if old(self)@.halt && T::int_vec(old(self)@.sys) is Some {
                CpuView { halt: false, ..cpu_stepped::<T>(old(self)@, 4) }
            } else {
                old(self)@
            }),
            old(self)@.ime ==> final(self)@ == (match T::int_vec(old(self)@.sys) {
                None => CpuView { sys: T::int_acked(old(self)@.sys), ..old(self)@ },
                Some(v) => {
                    let c0 = CpuView { sys: T::int_acked(old(self)@.sys), ime: false, ..old(self)@ };
                    let c1 = CpuView { pc: v as u16, ..cpu_pushed::<T>(c0, old(self)@.pc) };
                    CpuView {
                        halt: false,
                        ..cpu_stepped::<T>(c1, if old(self)@.halt { 24 } else { 20 })
                    }
                },
            }),
    {
        if !self.ime {
            if self.halt && self.sys.peek_int_vec().is_some() {
                // If HALT is executed while interrupt is disabled,
                // the interrupt wakes up CPU without being consumed.
                self.step(4);
                self.halt = false;
            }
            return;
        }
        let value = match self.sys.pop_int_vec() {
            Some(value) => value,
            None => return,
        };
        self.interrupted(value);
        if self.halt {
            self.step(24);
        } else {
            self.step(20);
        }
        self.halt = false;
    }

    fn interrupted(&mut self, vector_addr: u8)
        requires
            T::sys_wf(old(self)@.sys),
            can_push(old(self)@),
        ensures
            T::sys_wf(final(self)@.sys),
            final(self)@ == (CpuView {
                pc: vector_addr as u16,
                ..cpu_pushed::<T>(CpuView { ime: false, ..old(self)@ }, old(self)@.pc)
            }),
    {
        self.disable_interrupt();
        let pc = self.get_pc();
        self.push(pc);
        self.set_pc(vector_addr as u16);
    }

    /// Gets the value of `z` flag in the flag register.
    pub fn get_zf(&self) -> (r: bool)
        ensures
            r == (self@.f & 0x80 == 0x80),
    {
        self.f & 0x80 == 0x80
    }

    /// Gets the value of `n` flag in the flag register.
    pub fn get_nf(&self) -> (r: bool)
        ensures
            r == (self@.f & 0x40 == 0x40),
    {
        self.f & 0x40 == 0x40
    }

    /// Gets the value of `h` flag in the flag register.
    pub fn get_hf(&self) -> (r: bool)
        ensures
            r == (self@.f & 0x20 == 0x20),
    {
        self.f & 0x20 == 0x20
    }

    /// Gets the value of `c` flag in the flag register.
    pub fn get_cf(&self) -> (r: bool)
        ensures
            r == (self@.f & 0x10 == 0x10),
    {
        self.f & 0x10 == 0x10
    }

    /// Updates the value of `z` flag in the flag register.
    pub fn set_zf(&mut self, v: bool)
        ensures
            final(self)@ == (CpuView {
                f: if v {
                    old(self)@.f | 0x80
                } else {
                    old(self)@.f & !0x80u8
                },
                ..old(self)@
            }),
    {
        if v {
            self.f = self.f | 0x80
        } else {
            self.f = self.f & !0x80
        }
    }

    /// Updates the value of `n` flag in the flag register.
    pub fn set_nf(&mut self, v: bool)
        ensures
            final(self)@ == (CpuView {
                f: if v {
                    old(self)@.f | 0x40
                } else {
                    old(self)@.f & !0x40u8
                },
                ..old(self)@
            }),
    {
        if v {
            self.f = self.f | 0x40
        } else {
            self.f = self.f & !0x40
        }
    }

    /// Updates the value of `h` flag in the flag register.
    pub fn set_hf(&mut self, v: bool)
        ensures
            final(self)@ == (CpuView {
                f: if v {
                    old(self)@.f | 0x20
                } else {
                    old(self)@.f & !0x20u8
                },
                ..old(self)@
            }),
    {
        if v {
            self.f = self.f | 0x20
        } else {
            self.f = self.f & !0x20
        }
    }

    /// Updates the value of `c` flag in the flag register.
    pub fn set_cf(&mut self, v: bool)
        ensures
            final(self)@ == (CpuView {
                f: if v {
                    old(self)@.f | 0x10
                } else {
                    old(self)@.f & !0x10u8
                },
                ..old(self)@
            }),
    {
        if v {
            self.f = self.f | 0x10
        } else {
            self.f = self.f & !0x10
        }
    }

    /// Updates the value of `a` register.
    pub fn set_a(&mut self, v: u8)
        ensures
            final(self)@ == (CpuView { a: v, ..old(self)@ }),
    {
        self.a = v
    }

    /// Updates the value of `b` register.
    pub fn set_b(&mut self, v: u8)
        ensures
            final(self)@ == (CpuView { b: v, ..old(self)@ }),
    {
        self.b = v
    }

    /// Updates the value of `c` register.
    pub fn set_c(&mut self, v: u8)
        ensures
            final(self)@ == (CpuView { c: v, ..old(self)@ }),
    {
        self.c = v
    }

    /// Updates the value of `d` register.
    pub fn set_d(&mut self, v: u8)
        ensures
            final(self)@ == (CpuView { d: v, ..old(self)@ }),
    {
        self.d = v
    }

    /// Updates the value of `e` register.
    pub fn set_e(&mut self, v: u8)
        ensures
            final(self)@ == (CpuView { e: v, ..old(self)@ }),
    {
        self.e = v
    }

    /// Updates the value of `h` register.
    pub fn set_h(&mut self, v: u8)
        ensures
            final(self)@ == (CpuView { h: v, ..old(self)@ }),
    {
        self.h = v
    }

    /// Updates the value of `l` register.
    pub fn set_l(&mut self, v: u8)
        ensures
            final(self)@ == (CpuView { l: v, ..old(self)@ }),
    {
        self.l = v
    }

    /// Updates the value of `a` and `f` register as a single 16-bit register; the low four
    /// bits of `f` stay zero.
    pub fn set_af(&mut self, v: u16)
        ensures
            final(self)@ == (CpuView { a: (v >> 8u16) as u8, f: (v & 0xf0) as u8, ..old(self)@ }),
    {
        self.a = (v >> 8u16) as u8;
        self.f = (v & 0xf0) as u8;
    }

    /// Updates the value of `b` and `c` register as a single 16-bit register.
    pub fn set_bc(&mut self, v: u16)
        ensures
            final(self)@ == (CpuView { b: (v >> 8u16) as u8, c: v as u8, ..old(self)@ }),
    {
        self.b = (v >> 8u16) as u8;
        self.c = v as u8;
    }

    /// Updates the value of `d` and `e` register as a single 16-bit register.
    pub fn set_de(&mut self, v: u16)
        ensures
            final(self)@ == (CpuView { d: (v >> 8u16) as u8, e: v as u8, ..old(self)@ }),
    {
        self.d = (v >> 8u16) as u8;
        self.e = v as u8;
    }

    /// Updates the value of `h` and `l` register as a single 16-bit register.
    pub fn set_hl(&mut self, v: u16)
        ensures
            final(self)@ == (CpuView { h: (v >> 8u16) as u8, l: v as u8, ..old(self)@ }),
    {
        self.h = (v >> 8u16) as u8;
        self.l = v as u8;
    }

    /// Gets the value of `a` register.
    pub fn get_a(&self) -> (r: u8)
        ensures
            r == self@.a,
    {
        self.a
    }

    /// Gets the value of `b` register.
    pub fn get_b(&self) -> (r: u8)
        ensures
            r == self@.b,
    {
        self.b
    }

    /// Gets the value of `c` register.
    pub fn get_c(&self) -> (r: u8)
        ensures
            r == self@.c,
    {
        self.c
    }

    /// Gets the value of `d` register.
    pub fn get_d(&self) -> (r: u8)
        ensures
            r == self@.d,
    {
        self.d
    }

    /// Gets the value of `e` register.
    pub fn get_e(&self) -> (r: u8)
        ensures
            r == self@.e,
    {
        self.e
    }

    /// Gets the value of `h` register.
    pub fn get_h(&self) -> (r: u8)
        ensures
            r == self@.h,
    {
        self.h
    }

    /// Gets the value of `l` register.
    pub fn get_l(&self) -> (r: u8)
        ensures
            r == self@.l,
    {
        self.l
    }

    /// Gets the value of `a` and `f` register as a single 16-bit register.
    pub fn get_af(&self) -> (r: u16)
        ensures
            r == word(self@.a, self@.f),
    {
        (self.a as u16) << 8u16 | self.f as u16
    }

    /// Gets the value of `b` and `c` register as a single 16-bit register.
    pub fn get_bc(&self) -> (r: u16)
        ensures
            r == word(self@.b, self@.c),
    {
        (self.b as u16) << 8u16 | self.c as u16
    }

    /// Gets the value of `d` and `e` register as a single 16-bit register.
    pub fn get_de(&self) -> (r: u16)
        ensures
            r == word(self@.d, self@.e),
    {
        (self.d as u16) << 8u16 | self.e as u16
    }

    /// Gets the value of `h` and `l` register as a single 16-bit register.
    pub fn get_hl(&self) -> (r: u16)
        ensures
            r == word(self@.h, self@.l),
    {
        (self.h as u16) << 8u16 | self.l as u16
    }

    /// Gets the value of the program counter.
    pub fn get_pc(&self) -> (r: u16)
        ensures
            r == self@.pc,
    {
        self.pc
    }

    /// Updates the value of the program counter.
    pub fn set_pc(&mut self, v: u16)
        ensures
            final(self)@ == (CpuView { pc: v, ..old(self)@ }),
    {
        self.pc = v
    }

    /// Gets the value of the stack pointer register.
    pub fn get_sp(&self) -> (r: u16)
        ensures
            r == self@.sp,
    {
        self.sp
    }

    /// Updates the value of the stack pointer register.
    pub fn set_sp(&mut self, v: u16)
        ensures
            final(self)@ == (CpuView { sp: v, ..old(self)@ }),
    {
        self.sp = v
    }

    /// Jump
    pub fn jump(&mut self, a: u16)
        requires
            T::sys_wf(old(self)@.sys),
        ensures
            T::sys_wf(final(self)@.sys),
            final(self)@ == (CpuView { pc: a, ..cpu_stepped::<T>(old(self)@, 4) }),
    {
        self.step(4);
        self.set_pc(a);
    }

    /// Read a byte from memory
    pub fn get8(&mut self, a: u16) -> (r: u8)
        requires
            T::sys_wf(old(self)@.sys),
        ensures
            T::sys_wf(final(self)@.sys),
            final(self)@ == cpu_stepped::<T>(old(self)@, 4),
            r == T::read8(final(self)@.sys, a),
    {
        self.step(4);
        self.sys.get8(a)
    }

    /// Read a word from memory
    pub fn get16(&mut self, a: u16) -> (r: u16)
        requires
            T::sys_wf(old(self)@.sys),
            a < 0xffff,
        ensures
            T::sys_wf(final(self)@.sys),
            final(self)@ == cpu_stepped::<T>(old(self)@, 8),
            r == word(T::read8(final(self)@.sys, (a + 1) as u16), T::read8(final(self)@.sys, a)),
    {
        self.step(8);
        self.sys.get16(a)
    }

    /// Write a byte to memory
    pub fn set8(&mut self, a: u16, v: u8)
        requires
            T::sys_wf(old(self)@.sys),
        ensures
            T::sys_wf(final(self)@.sys),
            final(self)@ == (CpuView {
                sys: T::write8(cpu_stepped::<T>(old(self)@, 4).sys, a, v),
                ..cpu_stepped::<T>(old(self)@, 4)
            }),
    {
        self.step(4);
        self.sys.set8(a, v);
    }

    /// Write a word to memory
    pub fn set16(&mut self, a: u16, v: u16)
        requires
            T::sys_wf(old(self)@.sys),
            a < 0xffff,
        ensures
            T::sys_wf(final(self)@.sys),
            final(self)@ == (CpuView {
                sys: T::write8(
                    T::write8(cpu_stepped::<T>(old(self)@, 8).sys, a, v as u8),
                    (a + 1) as u16,
                    (v >> 8u16) as u8,
                ),
                ..cpu_stepped::<T>(old(self)@, 8)
            }),
    {
        self.step(8);
        self.sys.set16(a, v)
    }

    /// Pushes a 16-bit value to the stack, updating the stack pointer register.
    pub fn push(&mut self, v: u16)
        requires
            T::sys_wf(old(self)@.sys),
            can_push(old(self)@),
        ensures
            T::sys_wf(final(self)@.sys),
            final(self)@ == cpu_pushed::<T>(old(self)@, v),
    {
        let p = self.get_sp().wrapping_sub(2);
        self.set_sp(self.get_sp().wrapping_sub(2));
        self.set16(p, v)
    }

    /// Pops a 16-bit value from the stack, updating the stack pointer register.
    pub fn pop(&mut self) -> (r: u16)
        requires
            T::sys_wf(old(self)@.sys),
            old(self)@.sp < 0xffff,
        ensures
            T::sys_wf(final(self)@.sys),
            final(self)@ == cpu_stepped::<T>(
                CpuView { sp: old(self)@.sp.wrapping_add(2), ..old(self)@ },
                8,
            ),
            r == word(
                T::read8(final(self)@.sys, (old(self)@.sp + 1) as u16),
                T::read8(final(self)@.sys, old(self)@.sp),
            ),
    {
        let p = self.get_sp();
        self.set_sp(self.get_sp().wrapping_add(2));
        self.get16(p)
    }

    fn inc_pc(&mut self)
        ensures
            final(self)@ == cpu_inc_pc(old(self)@),
    {
        if self.halt_bug {
            self.halt_bug = false;
        } else {
            self.set_pc(self.get_pc().wrapping_add(1));
        }
    }

    /// Fetch a byte consuming cycles
    pub fn fetch8(&mut self) -> (r: u8)
        requires
            T::sys_wf(old(self)@.sys),
        ensures
            T::sys_wf(final(self)@.sys),
            final(self)@ == cpu_inc_pc(cpu_stepped::<T>(old(self)@, 4)),
            r == T::read8(final(self)@.sys, old(self)@.pc),
    {
        let pc = self.get_pc();
        let b = self.get8(pc);
        self.inc_pc();
        b
    }

    /// Fetch a word consuming cycles
    pub fn fetch16(&mut self) -> (r: u16)
        requires
            T::sys_wf(old(self)@.sys),
        ensures
            T::sys_wf(final(self)@.sys),
            ({
                let c1 = cpu_inc_pc(cpu_stepped::<T>(old(self)@, 4));
                let c2 = cpu_inc_pc(cpu_stepped::<T>(c1, 4));
                &&& final(self)@ == c2
                &&& r == word(T::read8(c2.sys, c1.pc), T::read8(c1.sys, old(self)@.pc))
            }),
    {
        let l = self.fetch8();
        let h = self.fetch8();
        (h as u16) << 8u16 | l as u16
    }

    /// Fetch next instruction without consuming cycles
    fn prefetch(&mut self) -> (r: u8)
        requires
            T::sys_wf(old(self)@.sys),
        ensures
            final(self)@ == cpu_inc_pc(old(self)@),
            r == T::read8(old(self)@.sys, old(self)@.pc),
    {
        let b = self.sys.get8(self.get_pc());
        self.inc_pc();
        b
    }

    /// Fetches an opcode from the memory: one byte, or 0xcb and the byte after it.
    pub fn fetch_opcode(&mut self) -> (r: u16)
        requires
            T::sys_wf(old(self)@.sys),
        ensures
            T::sys_wf(final(self)@.sys),
            ({
                let c1 = cpu_inc_pc(old(self)@);
                let b = T::read8(old(self)@.sys, old(self)@.pc);
                if b == 0xcb {
                    let c2 = cpu_inc_pc(cpu_stepped::<T>(c1, 4));
                    &&& final(self)@ == c2
                    &&& r == (0xcb00u16 | T::read8(c2.sys, c1.pc) as u16)
                } else {
                    &&& final(self)@ == c1
                    &&& r == b as u16
                }
            }),
    {
        let b = self.prefetch();
        if b == 0xcb {
            0xcb00 | self.fetch8() as u16
        } else {
            b as u16
        }
    }
}

/// A 16-bit register pair reads back what was written to it.
pub proof fn lemma_pair_roundtrip(v: u16)
    ensures
        word((v >> 8u16) as u8, v as u8) == v,
{
    assert(((((v >> 8u16) as u8) as u16) << 8u16 | ((v as u8) as u16)) == v) by (bit_vector);
}

/// `af` reads back what was written with the low four bits of `f` cleared.
pub proof fn lemma_af_roundtrip(v: u16)
    ensures
        word((v >> 8u16) as u8, (v & 0xf0) as u8) == v & 0xfff0,
{
    assert(((((v >> 8u16) as u8) as u16) << 8u16 | (((v & 0xf0) as u8) as u16)) == v & 0xfff0)
        by (bit_vector);
}

/// Setting a flag changes that flag to the value given and leaves the other flags alone.
pub proof fn lemma_flag_set_get(f: u8, bit: u8, other: u8, v: bool)
    requires
        bit == 0x80 || bit == 0x40 || bit == 0x20 || bit == 0x10,
        other == 0x80 || other == 0x40 || other == 0x20 || other == 0x10,
        other != bit,
    ensures
        ((if v {
            f | bit
        } else {
            f & !bit
        }) & bit == bit) == v,
        ((if v {
            f | bit
        } else {
            f & !bit
        }) & other == other) == (f & other == other),
{
    if v {
        assert((f | bit) & bit == bit) by (bit_vector)
            requires
                bit == 0x80 || bit == 0x40 || bit == 0x20 || bit == 0x10,
        ;
        assert(((f | bit) & other == other) == (f & other == other)) by (bit_vector)
            requires
                bit == 0x80 || bit == 0x40 || bit == 0x20 || bit == 0x10,
                other == 0x80 || other == 0x40 || other == 0x20 || other == 0x10,
                other != bit,
        ;
    } else {
        assert((f & !bit) & bit != bit) by (bit_vector)
            requires
                bit == 0x80 || bit == 0x40 || bit == 0x20 || bit == 0x10,
        ;
        assert(((f & !bit) & other == other) == (f & other == other)) by (bit_vector)
            requires
                bit == 0x80 || bit == 0x40 || bit == 0x20 || bit == 0x10,
                other == 0x80 || other == 0x40 || other == 0x20 || other == 0x10,
                other != bit,
        ;
    }
}

/// On plain memory a pop gives back what the push before it stored, and the stack pointer
/// returns to where it was.
pub proof fn lemma_push_pop_roundtrip(c: CpuView<Seq<u8>>, v: u16)
    requires
        Ram::sys_wf(c.sys),
        can_push(c),
    ensures
        ({
            let c1 = cpu_pushed::<Ram>(c, v);
            let c2 = cpu_stepped::<Ram>(CpuView { sp: c1.sp.wrapping_add(2), ..c1 }, 8);
            &&& c1.sp < 0xffff
            &&& c2.sp == c.sp
            &&& word(Ram::read8(c2.sys, (c1.sp + 1) as u16), Ram::read8(c2.sys, c1.sp)) == v
        }),
{
    let p = c.sp.wrapping_sub(2);
    let sp = c.sp;
    assert(p.wrapping_add(2) == sp) by (bit_vector)
        requires
            p == sp.wrapping_sub(2),
    ;
    lemma_pair_roundtrip(v);
}

/// Starting from a cleared count, the cycles counted by the time an instruction is decoded
/// and run equal the time it reports: the CB prefix's four cycles are spent by the fetch.
proof fn lemma_fetched_cycles<T: Sys>(c: CpuView<T::V>, cf: CpuView<T::V>, code: u16, arg: u16)
    requires
        !c.halt,
        c.cycles == 0,
        (cf, code, arg) == cpu_fetched::<T>(c),
        decode_ok::<T>(cf, code, arg),
    ensures
        decoded::<T>(cf, code, arg).0.cycles == decoded::<T>(cf, code, arg).1,
{
    lemma_decode_cycles::<T>(cf, code, arg);
    let base = if c.halt_bug {
        c.pc.wrapping_sub(1)
    } else {
        c.pc
    };
    if T::read8(c.sys, c.pc) == 0xcb {
        let x = T::read8(cf.sys, base.wrapping_add(1));
        assert(0xcb00u16 | x as u16 >= 0xcb00u16) by (bit_vector);
    }
}

} // verus!
