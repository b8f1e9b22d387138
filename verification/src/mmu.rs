//! The memory bus: work RAM, high RAM, and the unit that routes the CPU's accesses to the
//! devices.
use vstd::prelude::*;

use crate::clock::prescaled_timer::prescaled_step_spec;
use crate::cpu::Sys;
use crate::dma::{dma_step_spec, dma_wf, Dma, DmaView};
use crate::gpu::{gpu_read_spec, gpu_step_spec, gpu_wf, gpu_write_spec, line_pixel, Gpu, GpuView};
use crate::hardware::{VRAM_HEIGHT, VRAM_WIDTH};
use crate::ic::{check_spec, ints_bits, ints_from_bits, Ic, Ints, Irq};
use crate::joypad::{joypad_value, Joypad, Keys};
use crate::mbc::{cart_can_read, cart_can_write, cart_read, cart_write_at, valid_rom, CartView, Mbc};
use crate::serial::{serial_step_spec, Serial};
use crate::timer::{
    lemma_timer_short_steps, tim_step_spec, timer_read_spec, timer_wf, timer_write_spec, Timer,
    TimerBlockView,
};

verus! {

/// What a memory-mapped device answers to a read.
#[derive(Debug, Clone, Copy, PartialEq, Eq, Structural)]
pub enum MemRead {
    /// The read returns this value.
    Replace(u8),
    /// The read goes on to the memory behind the device.
    PassThrough,
}

/// What a memory-mapped device does with a write.
#[derive(Debug, Clone, Copy, PartialEq, Eq, Structural)]
pub enum MemWrite {
    /// The write goes on to the memory behind the device.
    PassThrough,
    /// The write stops at the device.
    Block,
}

/// The abstract state of [`Wram`]: the selected bank and the eight 4 KiB banks, flat.
pub struct WramView {
    pub n: nat,
    pub bank: Seq<u8>,
}

/// The offset into the banks of a work RAM address (0xc000-0xfdff, echo RAM included).
pub open spec fn wram_offset(n: nat, addr: u16) -> int {
    let a = if addr >= 0xe000 {
        addr - 0xe000 + 0xc000
    } else {
        addr as int
    };
    if a <= 0xcfff {
        a - 0xc000
    } else {
        n * 0x1000 + (a - 0xd000)
    }
}

pub open spec fn wram_wf(v: WramView) -> bool {
    v.n < 8 && v.bank.len() == 0x8000
}

/// Handles work ram access between 0xc000 - 0xdfff
pub struct Wram {
    n: usize,
    bank: Vec<u8>,
}

impl View for Wram {
    type V = WramView;

    closed spec fn view(&self) -> WramView {
        WramView { n: self.n as nat, bank: self.bank@ }
    }
}

impl Wram {
    pub fn new() -> (r: Self)
        ensures
            wram_wf(r@),
            r@.n == 1,
            r@.bank == Seq::new(0x8000, |i: int| 0u8),
    {
        let r = Self { n: 1, bank: vec![0; 0x8000] };
        assert(r.bank@ =~= Seq::new(0x8000, |i: int| 0u8));
        r
    }

    /// Selects the bank mapped at 0xd000 (SVBK).
    pub fn switch_bank(&mut self, n: u8)
        ensures
            final(self)@ == (WramView { n: n as nat, ..old(self)@ }),
    {
        self.n = n as usize;
    }

    pub fn get8(&self, addr: u16) -> (r: u8)
        requires
            wram_wf(self@),
            0xc000 <= addr <= 0xfdff,
        ensures
            r == self@.bank[wram_offset(self@.n, addr)],
    {
        let a = if addr >= 0xe000 {
            addr - 0xe000 + 0xc000
        } else {
            addr
        };
        if a <= 0xcfff {
            self.bank[a as usize - 0xc000]
        } else {
            self.bank[self.n * 0x1000 + (a as usize - 0xd000)]
        }
    }

    pub fn set8(&mut self, addr: u16, v: u8)
        requires
            wram_wf(old(self)@),
            0xc000 <= addr <= 0xfdff,
        ensures
            wram_wf(final(self)@),
            final(self)@ == (WramView {
                bank: old(self)@.bank.update(wram_offset(old(self)@.n, addr), v),
                ..old(self)@
            }),
    {
        let a = if addr >= 0xe000 {
            addr - 0xe000 + 0xc000
        } else {
            addr
        };
        if a <= 0xcfff {
            self.bank.set(a as usize - 0xc000, v);
        } else {
            let i = self.n * 0x1000 + (a as usize - 0xd000);
            self.bank.set(i, v);
        }
    }
}

/// Echo RAM (0xe000-0xfdff) mirrors 0xc000-0xddff: both addresses reach the same byte.
pub proof fn lemma_echo_ram_mirrors(n: nat, addr: u16)
    requires
        0xe000 <= addr <= 0xfdff,
    ensures
        wram_offset(n, addr) == wram_offset(n, (addr - 0x2000) as u16),
{
}

/// Handles high ram access between 0xff80 - 0xfffe
pub struct Hram {
    bank: Vec<u8>,
}

impl View for Hram {
    type V = Seq<u8>;

    closed spec fn view(&self) -> Seq<u8> {
        self.bank@
    }
}

impl Hram {
    pub fn new() -> (r: Self)
        ensures
            r@ == Seq::new(0x7f, |i: int| 0u8),
    {
        let r = Self { bank: vec![0; 0x7f] };
        assert(r.bank@ =~= Seq::new(0x7f, |i: int| 0u8));
        r
    }

    pub fn get8(&self, addr: u16) -> (r: u8)
        requires
            self@.len() == 0x7f,
            0xff80 <= addr <= 0xfffe,
        ensures
            r == self@[addr - 0xff80],
    {
        self.bank[addr as usize - 0xff80]
    }

    pub fn set8(&mut self, addr: u16, v: u8)
        requires
            old(self)@.len() == 0x7f,
            0xff80 <= addr <= 0xfffe,
        ensures
            final(self)@ == old(self)@.update(addr - 0xff80, v),
    {
        self.bank.set(addr as usize - 0xff80, v);
    }
}

/// The unit that an address of the CPU's address space belongs to.
#[derive(Debug, Clone, Copy, PartialEq, Eq, Structural)]
pub enum Region {
    /// Cartridge ROM (0x0000-0x7fff) and cartridge RAM (0xa000-0xbfff).
    Cartridge,
    /// Video RAM (0x8000-0x9fff).
    Vram,
    /// Work RAM and its echo (0xc000-0xfdff).
    Wram,
    /// Sprite attributes (0xfe00-0xfe9f).
    Oam,
    /// The unusable area (0xfea0-0xfeff), which no access may reach.
    Unusable,
    /// I/O registers (0xff00-0xff7f).
    Io,
    /// High RAM (0xff80-0xfffe).
    Hram,
    /// The interrupt enable register (0xffff).
    InterruptEnable,
}

/// The unit behind `addr` in the memory map.
pub open spec fn region_spec(addr: u16) -> Region {
    if addr <= 0x7fff || (0xa000 <= addr && addr <= 0xbfff) {
        Region::Cartridge
    } else if addr <= 0x9fff {
        Region::Vram
    } else if addr <= 0xfdff {
        Region::Wram
    } else if addr <= 0xfe9f {
        Region::Oam
    } else if addr <= 0xfeff {
        Region::Unusable
    } else if addr <= 0xff7f {
        Region::Io
    } else if addr <= 0xfffe {
        Region::Hram
    } else {
        Region::InterruptEnable
    }
}

/// Routes a CPU access to the unit that handles it.
pub fn region(addr: u16) -> (r: Region)
    ensures
        r == region_spec(addr),
{
    if addr <= 0x7fff || (0xa000 <= addr && addr <= 0xbfff) {
        Region::Cartridge
    } else if addr <= 0x9fff {
        Region::Vram
    } else if addr <= 0xfdff {
        Region::Wram
    } else if addr <= 0xfe9f {
        Region::Oam
    } else if addr <= 0xfeff {
        Region::Unusable
    } else if addr <= 0xff7f {
        Region::Io
    } else if addr <= 0xfffe {
        Region::Hram
    } else {
        Region::InterruptEnable
    }
}

/// The device behind an I/O register.
#[derive(Debug, Clone, Copy, PartialEq, Eq, Structural)]
pub enum IoPort {
    /// P1 (0xff00).
    Joypad,
    /// SB (0xff01).
    SerialData,
    /// SC (0xff02).
    SerialCtrl,
    /// DIV, TIMA, TMA and TAC (0xff04-0xff07).
    Timer,
    /// IF (0xff0f).
    InterruptFlags,
    /// The sound registers and wave RAM (0xff10-0xff3f).
    Sound,
    /// The LCD, palette, VRAM bank and HDMA registers.
    Gpu,
    /// The boot ROM switch (0xff50), written only.
    BootRomOff,
    /// A register that the bus does not support (0xff03, 0xff08-0xff0e, 0xff6c-0xff7f).
    Unsupported,
}

/// The device that a read of the I/O register `addr` (0xff00-0xff7f) goes to.
pub open spec fn io_read_port_spec(addr: u16) -> IoPort {
    if addr == 0xff00 {
        IoPort::Joypad
    } else if addr == 0xff01 {
        IoPort::SerialData
    } else if addr == 0xff02 {
        IoPort::SerialCtrl
    } else if 0xff04 <= addr && addr <= 0xff07 {
        IoPort::Timer
    } else if addr == 0xff0f {
        IoPort::InterruptFlags
    } else if 0xff10 <= addr && addr <= 0xff3f {
        IoPort::Sound
    } else if 0xff40 <= addr && addr <= 0xff6b {
        IoPort::Gpu
    } else {
        IoPort::Unsupported
    }
}

/// The device that a write of the I/O register `addr` (0xff00-0xff7f) goes to: as for reads,
/// except that 0xff50 switches the boot ROM off.
pub open spec fn io_write_port_spec(addr: u16) -> IoPort {
    if addr == 0xff50 {
        IoPort::BootRomOff
    } else {
        io_read_port_spec(addr)
    }
}

/// Routes a read of an I/O register.
pub fn io_read_port(addr: u16) -> (r: IoPort)
    ensures
        r == io_read_port_spec(addr),
{
    if addr == 0xff00 {
        IoPort::Joypad
    } else if addr == 0xff01 {
        IoPort::SerialData
    } else if addr == 0xff02 {
        IoPort::SerialCtrl
    } else if 0xff04 <= addr && addr <= 0xff07 {
        IoPort::Timer
    } else if addr == 0xff0f {
        IoPort::InterruptFlags
    } else if 0xff10 <= addr && addr <= 0xff3f {
        IoPort::Sound
    } else if 0xff40 <= addr && addr <= 0xff6b {
        IoPort::Gpu
    } else {
        IoPort::Unsupported
    }
}

/// Routes a write of an I/O register.
pub fn io_write_port(addr: u16) -> (r: IoPort)
    ensures
        r == io_write_port_spec(addr),
{
    if addr == 0xff50 {
        IoPort::BootRomOff
    } else {
        io_read_port(addr)
    }
}

/// The abstract state of the [`Mmu`]: the memory array behind the devices, every device, and
/// what the bus exchanges with the machine around it (pressed keys, the host clock, link cable
/// bytes, the last line drawn).
pub struct MmuView {
    pub ram: Seq<u8>,
    pub wram: WramView,
    pub hram: Seq<u8>,
    pub oam: Seq<u8>,
    pub gpu: GpuView,
    pub dma: DmaView,
    pub timer: TimerBlockView,
    pub irq: Irq,
    pub serial: Serial,
    pub joypad: u8,
    pub keys: Keys,
    pub cart: CartView,
    pub cart_ok: bool,
    pub boot_rom: Seq<u8>,
    pub use_boot_rom: bool,
    pub now: Option<u64>,
    pub incoming: Option<u8>,
    pub sent: Seq<u8>,
    pub line: Option<(usize, Seq<u32>)>,
}

/// The bus invariant: every unit in its own invariant, the arrays at their sizes, and a running
/// OAM DMA transfer reading below 0xe000 and writing inside OAM.
pub open spec fn mmu_wf(s: MmuView) -> bool {
    &&& s.ram.len() == 0x10000
    &&& wram_wf(s.wram)
    &&& s.hram.len() == 0x7f
    &&& s.oam.len() == 0xa0
    &&& gpu_wf(s.gpu)
    &&& dma_wf(s.dma)
    &&& (s.dma.cycles != 0 ==> 0xfe00 <= s.dma.dst && s.dma.dst + s.dma.cycles / 4 <= 0xfea0
        && s.dma.src + s.dma.cycles / 4 <= 0xe000)
    &&& timer_wf(s.timer)
    &&& s.cart_ok
    &&& s.boot_rom.len() >= 0x100
}

/// The byte a device answer gives: its own, or the memory array's.
pub open spec fn mem_read(r: MemRead, ram: Seq<u8>, addr: u16) -> u8 {
    match r {
        MemRead::Replace(v) => v,
        MemRead::PassThrough => ram[addr as int],
    }
}

/// Whether a cartridge write goes on to the memory array: RAM writes of a cartridge without a
/// controller.
pub open spec fn cart_write_passes(c: CartView, addr: u16) -> bool {
    c is NoController && 0xa000 <= addr <= 0xbfff
}

/// What a read of the I/O register `addr` returns. Registers the bus does not support read
/// as 0xff.
pub open spec fn io_read_spec(s: MmuView, addr: u16) -> u8 {
    match io_read_port_spec(addr) {
        IoPort::Joypad => joypad_value(s.joypad, s.keys),
        IoPort::SerialData => s.serial.data,
        IoPort::SerialCtrl => s.serial.ctrl,
        IoPort::Timer => timer_read_spec(s.timer, addr),
        IoPort::InterruptFlags => ints_bits(s.irq.request) | 0xe0,
        IoPort::Sound => 0,
        IoPort::Gpu => if addr == 0xff46 {
            0xff
        } else {
            mem_read(gpu_read_spec(s.gpu, addr), s.ram, addr)
        },
        _ => 0xff,
    }
}

/// What a CPU read of `addr` returns. The boot ROM answers 0x0000-0x00ff while mapped; a
/// cartridge read it does not support, and the unusable area, read as 0xff.
pub open spec fn mmu_read_spec(s: MmuView, addr: u16) -> u8 {
    match region_spec(addr) {
        Region::Cartridge => if s.use_boot_rom && addr < 0x100 {
            s.boot_rom[addr as int]
        } else if cart_can_read(s.cart, addr) {
            mem_read(cart_read(s.cart, addr), s.ram, addr)
        } else {
            0xff
        },
        Region::Vram => mem_read(gpu_read_spec(s.gpu, addr), s.ram, addr),
        Region::Wram => s.wram.bank[wram_offset(s.wram.n, addr)],
        Region::Oam => s.oam[addr - 0xfe00],
        Region::Unusable => 0xff,
        Region::Io => io_read_spec(s, addr),
        Region::Hram => s.hram[addr - 0xff80],
        Region::InterruptEnable => ints_bits(s.irq.enable),
    }
}

/// The bus after a write of `v` to the I/O register `addr`. Starting an internal-clock serial
/// transfer sends the data byte at once and takes the other end's byte (0xff with none);
/// writing 0xff46 starts an OAM DMA transfer from `v << 8` (one from 0xe000 or above is not
/// started); writes to unsupported registers and to 0xff55 are ignored.
pub open spec fn io_write_spec(s: MmuView, addr: u16, v: u8) -> MmuView {
    io_port_write(s, io_write_port_spec(addr), addr, v)
}

/// The bus after a write of `v` to the I/O register `addr`, which belongs to `port`.
pub open spec fn io_port_write(s: MmuView, port: IoPort, addr: u16, v: u8) -> MmuView {
    match port {
        IoPort::Joypad => MmuView { joypad: v & 0xf0, ..s },
        IoPort::SerialData => MmuView { serial: Serial { data: v, ..s.serial }, ..s },
        IoPort::SerialCtrl => if v & 0x80 != 0 && v & 0x01 != 0 {
            MmuView {
                serial: Serial {
                    ctrl: v,
                    clock: 4096,
                    recv: match s.incoming {
                        Some(b) => b,
                        None => 0xff,
                    },
                    ..s.serial
                },
                sent: s.sent.push(s.serial.data),
                incoming: None,
                ..s
            }
        } else {
            MmuView { serial: Serial { ctrl: v, ..s.serial }, ..s }
        },
        IoPort::Timer => MmuView { timer: timer_write_spec(s.timer, addr, v), ..s },
        IoPort::InterruptFlags => MmuView { irq: Irq { request: ints_from_bits(v), ..s.irq }, ..s },
        IoPort::Gpu => if addr == 0xff46 {
            if v <= 0xdf {
                MmuView { dma: DmaView { src: (v as u16 * 256) as u16, dst: 0xfe00, cycles: 640 }, ..s }
            } else {
                s
            }
        } else if addr == 0xff55 {
            s
        } else {
            MmuView { gpu: gpu_write_spec(s.gpu, s.irq, addr, v).0, irq: gpu_write_spec(s.gpu, s.irq, addr, v).1, ..s }
        },
        IoPort::BootRomOff => MmuView { use_boot_rom: false, ..s },
        _ => s,
    }
}

/// The bus after a write of `v` at the cartridge address `addr`.
pub open spec fn cart_write_spec(s: MmuView, addr: u16, v: u8) -> MmuView {
    if (s.use_boot_rom && addr < 0x100) || !cart_can_write(s.cart, addr, v) {
        s
    } else {
        MmuView {
            cart: cart_write_at(s.cart, addr, v, s.now),
            ram: if cart_write_passes(s.cart, addr) {
                s.ram.update(addr as int, v)
            } else {
                s.ram
            },
            ..s
        }
    }
}

/// The bus after a write of `v` at `addr`, which belongs to `r`.
pub open spec fn region_write(s: MmuView, r: Region, addr: u16, v: u8) -> MmuView {
    match r {
        Region::Cartridge => cart_write_spec(s, addr, v),
        Region::Vram => MmuView { gpu: gpu_write_spec(s.gpu, s.irq, addr, v).0, irq: gpu_write_spec(s.gpu, s.irq, addr, v).1, ..s },
        Region::Wram => MmuView {
            wram: WramView { bank: s.wram.bank.update(wram_offset(s.wram.n, addr), v), ..s.wram },
            ..s
        },
        Region::Oam => MmuView { oam: s.oam.update(addr - 0xfe00, v), ..s },
        Region::Unusable => s,
        Region::Io => io_write_spec(s, addr, v),
        Region::Hram => MmuView { hram: s.hram.update(addr - 0xff80, v), ..s },
        Region::InterruptEnable => MmuView { irq: Irq { enable: ints_from_bits(v), ..s.irq }, ..s },
    }
}

/// The bus after a CPU write of `v` at `addr`. Writes to the mapped boot ROM, unsupported
/// cartridge writes, and writes to the unusable area are ignored.
pub open spec fn mmu_write_spec(s: MmuView, addr: u16, v: u8) -> MmuView {
    region_write(s, region_spec(addr), addr, v)
}

/// Through the bus, a read of work RAM, OAM or high RAM gives back the byte last written
/// there, and a write changes no other byte of those areas.
pub proof fn lemma_bus_read_after_write(s: MmuView, addr: u16, b: u16, v: u8)
    requires
        mmu_wf(s),
        region_spec(addr) == Region::Wram || region_spec(addr) == Region::Oam || region_spec(addr)
            == Region::Hram,
        region_spec(b) == region_spec(addr),
    ensures
        mmu_read_spec(mmu_write_spec(s, addr, v), addr) == v,
        region_spec(addr) != Region::Wram && b != addr ==> mmu_read_spec(mmu_write_spec(s, addr, v), b)
            == mmu_read_spec(s, b),
        region_spec(addr) == Region::Wram && wram_offset(s.wram.n, b) != wram_offset(s.wram.n, addr)
            ==> mmu_read_spec(mmu_write_spec(s, addr, v), b) == mmu_read_spec(s, b),
{
}

/// One machine cycle of OAM DMA: the unit's next state and OAM with the byte it copies.
pub open spec fn mmu_dma_spec(s: MmuView) -> (DmaView, Seq<u8>) {
    match dma_step_spec(s.dma, 4).1 {
        Some((src, dst, len)) => (dma_step_spec(s.dma, 4).0, s.oam.update(dst - 0xfe00, mmu_read_spec(s, src))),
        None => (s.dma, s.oam),
    }
}

/// The bus after one machine cycle of OAM DMA.
pub open spec fn mmu_dma_tick(s: MmuView) -> MmuView {
    MmuView { dma: mmu_dma_spec(s).0, oam: mmu_dma_spec(s).1, ..s }
}

/// The bus after the LCD controller runs `c` cycles (while its line counter is below 255); a
/// line drawn replaces the last one.
pub open spec fn mmu_gpu_tick(s: MmuView, c: nat) -> MmuView {
    let g = gpu_step_spec(s.gpu, s.irq, c);
    if s.gpu.ly < 255 {
        MmuView {
            gpu: g.0,
            irq: g.1,
            line: if g.2 && s.gpu.ly < VRAM_HEIGHT {
                Some((s.gpu.ly as usize, Seq::new(VRAM_WIDTH as nat, |x: int| line_pixel(s.gpu, s.oam, x))))
            } else {
                s.line
            },
            ..s
        }
    } else {
        s
    }
}

/// The bus after DIV and TIMA run `c` cycles; a TIMA overflow requests the timer interrupt.
pub open spec fn mmu_timer_tick(s: MmuView, c: nat) -> MmuView {
    let t = tim_step_spec(s.timer.tim, s.timer.load, c);
    MmuView {
        timer: TimerBlockView { div: prescaled_step_spec(s.timer.div, c).0, tim: t.0, ..s.timer },
        irq: Irq { request: Ints { timer: s.irq.request.timer || t.1, ..s.irq.request }, ..s.irq },
        ..s
    }
}

/// The bus after the serial port runs `c` cycles: a byte handed back to the other end is
/// queued, and the incoming byte it answered is used up.
pub open spec fn mmu_serial_tick(s: MmuView, c: nat) -> MmuView {
    let sr = serial_step_spec(s.serial, s.irq, c, s.incoming);
    MmuView {
        serial: sr.0,
        irq: sr.1,
        sent: match sr.2 {
            Some(b) => s.sent.push(b),
            None => s.sent,
        },
        incoming: if sr.2 is Some {
            None
        } else {
            s.incoming
        },
        ..s
    }
}

/// The bus after `c` (at most 4) cycles: a whole machine cycle moves a DMA byte first; then the
/// LCD controller, the timers and the serial port advance.
pub open spec fn mmu_tick(s: MmuView, c: nat) -> MmuView {
    let s1 = if c == 4 {
        mmu_dma_tick(s)
    } else {
        s
    };
    mmu_serial_tick(mmu_timer_tick(mmu_gpu_tick(s1, c), c), c)
}

/// The bus after `cycles` cycles, taken a machine cycle (4 cycles) at a time.
pub open spec fn mmu_run(s: MmuView, cycles: nat) -> MmuView
    decreases cycles,
{
    if cycles == 0 {
        s
    } else if cycles <= 4 {
        mmu_tick(s, cycles)
    } else {
        mmu_run(mmu_tick(s, 4), (cycles - 4) as nat)
    }
}

/// Running the devices leaves the memory array, work RAM, high RAM, the cartridge and the
/// boot ROM mapping as they were: only OAM (through DMA) and device registers change.
pub proof fn lemma_bus_run_keeps_memory(s: MmuView, cycles: nat)
    ensures
        mmu_run(s, cycles).ram == s.ram,
        mmu_run(s, cycles).wram == s.wram,
        mmu_run(s, cycles).hram == s.hram,
        mmu_run(s, cycles).cart == s.cart,
        mmu_run(s, cycles).use_boot_rom == s.use_boot_rom,
    decreases cycles,
{
    if cycles > 4 {
        lemma_bus_run_keeps_memory(mmu_tick(s, 4), (cycles - 4) as nat);
    }
}

/// The memory management unit (MMU): it holds a memory byte array which represents the
/// address space, intercepts the CPU's accesses to it, and routes them to the devices.
pub struct Mmu {
    ram: Vec<u8>,
    wram: Wram,
    hram: Hram,
    oam: Vec<u8>,
    gpu: Gpu,
    dma: Dma,
    mbc: Mbc,
    timer: Timer,
    ic: Ic,
    serial: Serial,
    joypad: Joypad,
    keys: Keys,
    now: Option<u64>,
    incoming: Option<u8>,
    sent: Vec<u8>,
    line: Option<(usize, Vec<u32>)>,
}

impl View for Mmu {
    type V = MmuView;

    closed spec fn view(&self) -> MmuView {
        MmuView {
            ram: self.ram@,
            wram: self.wram@,
            hram: self.hram@,
            oam: self.oam@,
            gpu: self.gpu@,
            dma: self.dma@,
            timer: self.timer@,
            irq: self.ic@,
            serial: self.serial,
            joypad: self.joypad.select,
            keys: self.keys,
            cart: self.mbc.cartridge().mbc.cview(),
            cart_ok: self.mbc.cartridge().mbc.wf(),
            boot_rom: self.mbc.boot_rom(),
            use_boot_rom: self.mbc.use_boot_rom(),
            now: self.now,
            incoming: self.incoming,
            sent: self.sent@,
            line: match self.line {
                Some((n, b)) => Some((n, b@)),
                None => None,
            },
        }
    }
}

impl Mmu {
    /// A bus with the cartridge `rom` inserted and `boot_rom` (256 bytes) mapped at 0x0000.
    pub fn new(rom: Vec<u8>, boot_rom: Vec<u8>) -> (r: Self)
        requires
            valid_rom(rom@),
            boot_rom@.len() >= 0x100,
        ensures
            mmu_wf(r@),
            r@.use_boot_rom && r@.boot_rom == boot_rom@,
            r@.ram == Seq::new(0x10000, |i: int| 0u8),
            r@.oam == Seq::new(0xa0, |i: int| 0u8),
            r@.irq.enable == Ints::default_spec() && r@.irq.request == Ints::default_spec(),
            r@.dma.cycles == 0,
            r@.now is None && r@.incoming is None && r@.sent.len() == 0 && r@.line is None,
    {
        let mbc = Mbc::new(rom, boot_rom);
        let r = Mmu {
            ram: vec![0; 0x10000],
            wram: Wram::new(),
            hram: Hram::new(),
            oam: vec![0; 0xa0],
            gpu: Gpu::new(),
            dma: Dma::new(),
            mbc,
            timer: Timer::new(),
            ic: Ic::new(Irq::new()),
            serial: Serial::new(),
            joypad: Joypad::new(),
            keys: Keys {
                right: false,
                left: false,
                up: false,
                down: false,
                a: false,
                b: false,
                select: false,
                start: false,
            },
            now: None,
            incoming: None,
            sent: Vec::new(),
            line: None,
        };
        assert(r.ram@ =~= Seq::new(0x10000, |i: int| 0u8));
        assert(r.oam@ =~= Seq::new(0xa0, |i: int| 0u8));
        r
    }

    /// Reports the keys the player holds.
    pub fn set_keys(&mut self, keys: Keys)
        ensures
            final(self)@ == (MmuView { keys, ..old(self)@ }),
    {
        self.keys = keys;
    }

    /// Reports the host clock reading (whole seconds since the Unix epoch), for the clock
    /// registers of an MBC3 cartridge.
    pub fn set_clock(&mut self, now: Option<u64>)
        ensures
            final(self)@ == (MmuView { now, ..old(self)@ }),
    {
        self.now = now;
    }

    /// Reports a byte that the other end of the link cable sent, replacing one not yet used.
    pub fn set_incoming(&mut self, b: Option<u8>)
        ensures
            final(self)@ == (MmuView { incoming: b, ..old(self)@ }),
    {
        self.incoming = b;
    }

    /// Whether an external-clock transfer waits for a byte from the other end that has not
    /// been reported yet.
    pub fn link_waiting(&self) -> (r: bool)
        ensures
            r == (self@.serial.ctrl & 0x80 != 0 && self@.serial.ctrl & 0x01 == 0 && self@.incoming is None),
    {
        self.serial.wants_byte() && self.incoming.is_none()
    }

    /// Hands out the bytes sent on the link cable since the last call, oldest first.
    pub fn take_sent(&mut self) -> (r: Vec<u8>)
        ensures
            r@ == old(self)@.sent,
            final(self)@ == (MmuView { sent: Seq::empty(), ..old(self)@ }),
    {
        let mut r = Vec::new();
        std::mem::swap(&mut r, &mut self.sent);
        proof {
            assert(self.sent@ =~= Seq::<u8>::empty());
        }
        r
    }

    /// Hands out the last line drawn since the last call, with its number.
    pub fn take_line(&mut self) -> (r: Option<(usize, Vec<u32>)>)
        ensures
            match r {
                Some((n, b)) => old(self)@.line == Some((n, b@)),
                None => old(self)@.line is None,
            },
            final(self)@ == (MmuView { line: None, ..old(self)@ }),
    {
        self.line.take()
    }
}

impl Mmu {
    fn pass(&self, r: MemRead, addr: u16) -> (v: u8)
        requires
            self@.ram.len() == 0x10000,
        ensures
            v == mem_read(r, self@.ram, addr),
    {
        match r {
            MemRead::Replace(v) => v,
            MemRead::PassThrough => self.ram[addr as usize],
        }
    }

    fn read_cart(&self, addr: u16) -> (r: u8)
        requires
            mmu_wf(self@),
            region_spec(addr) == Region::Cartridge,
        ensures
            r == mmu_read_spec(self@, addr),
    {
        if self.mbc.can_read_at(addr) {
            let m = self.mbc.on_read(addr);
            self.pass(m, addr)
        } else {
            0xff
        }
    }

    fn read_io(&self, addr: u16) -> (r: u8)
        requires
            mmu_wf(self@),
            region_spec(addr) == Region::Io,
        ensures
            r == io_read_spec(self@, addr),
    {
        match io_read_port(addr) {
            IoPort::Joypad => {
                let m = self.joypad.on_read(addr, self.keys);
                self.pass(m, addr)
            },
            IoPort::SerialData => self.serial.get_data(),
            IoPort::SerialCtrl => self.serial.get_ctrl(),
            IoPort::Timer => self.timer.on_read(addr),
            IoPort::InterruptFlags => self.ic.read_flags(),
            IoPort::Sound => 0,
            IoPort::Gpu => if addr == 0xff46 {
                self.dma.read()
            } else {
                let m = self.gpu.on_read(addr);
                self.pass(m, addr)
            },
            _ => 0xff,
        }
    }

    fn write_mbc(&mut self, addr: u16, v: u8)
        requires
            mmu_wf(old(self)@),
            !(old(self)@.use_boot_rom && addr < 0x100),
            cart_can_write(old(self)@.cart, addr, v),
        ensures
            mmu_wf(final(self)@),
            final(self)@ == (MmuView { cart: cart_write_at(old(self)@.cart, addr, v, old(self)@.now), ..old(self)@ }),
    {
        self.mbc.on_write_at(addr, v, self.now);
    }

    fn write_cart(&mut self, addr: u16, v: u8)
        requires
            mmu_wf(old(self)@),
        ensures
            mmu_wf(final(self)@),
            final(self)@ == cart_write_spec(old(self)@, addr, v),
    {
        if addr < 0x100 && self.mbc.boot_mapped() {
            return;
        }
        if !self.mbc.can_write_at(addr, v) {
            return;
        }
        let passes = self.mbc.passes_write(addr);
        self.write_mbc(addr, v);
        if passes {
            self.ram.set(addr as usize, v);
        }
    }

    fn write_serial_ctrl(&mut self, v: u8)
        requires
            mmu_wf(old(self)@),
        ensures
            mmu_wf(final(self)@),
            final(self)@ == io_port_write(old(self)@, IoPort::SerialCtrl, 0xff02, v),
    {
        match self.serial.set_ctrl(v) {
            Some(b) => {
                self.sent.push(b);
                self.serial.receive(self.incoming);
                self.incoming = None;
            },
            None => {},
        }
    }

    fn write_gpu_port(&mut self, addr: u16, v: u8)
        requires
            mmu_wf(old(self)@),
        ensures
            mmu_wf(final(self)@),
            final(self)@ == io_port_write(old(self)@, IoPort::Gpu, addr, v),
    {
        if addr == 0xff46 {
            if v <= 0xdf {
                self.dma.start(v);
            }
        } else if addr == 0xff55 {
        } else {
            self.gpu.on_write(addr, v, self.ic.irq());
        }
    }

    fn write_joypad(&mut self, addr: u16, v: u8)
        requires
            mmu_wf(old(self)@),
        ensures
            mmu_wf(final(self)@),
            final(self)@ == io_port_write(old(self)@, IoPort::Joypad, addr, v),
    {
        self.joypad.on_write(0xff00, v);
    }

    fn write_serial_data(&mut self, addr: u16, v: u8)
        requires
            mmu_wf(old(self)@),
        ensures
            mmu_wf(final(self)@),
            final(self)@ == io_port_write(old(self)@, IoPort::SerialData, addr, v),
    {
        self.serial.set_data(v);
    }

    fn write_timer(&mut self, addr: u16, v: u8)
        requires
            mmu_wf(old(self)@),
            0xff04 <= addr <= 0xff07,
        ensures
            mmu_wf(final(self)@),
            final(self)@ == io_port_write(old(self)@, IoPort::Timer, addr, v),
    {
        self.timer.on_write(addr, v);
    }

    fn write_flags(&mut self, addr: u16, v: u8)
        requires
            mmu_wf(old(self)@),
        ensures
            mmu_wf(final(self)@),
            final(self)@ == io_port_write(old(self)@, IoPort::InterruptFlags, addr, v),
    {
        self.ic.write_flags(v);
    }

    fn write_boot_off(&mut self, addr: u16, v: u8)
        requires
            mmu_wf(old(self)@),
        ensures
            mmu_wf(final(self)@),
            final(self)@ == io_port_write(old(self)@, IoPort::BootRomOff, addr, v),
    {
        self.mbc.on_write(0xff50, v);
    }

    fn write_io(&mut self, addr: u16, v: u8)
        requires
            mmu_wf(old(self)@),
        ensures
            mmu_wf(final(self)@),
            final(self)@ == io_write_spec(old(self)@, addr, v),
    {
        let port = io_write_port(addr);
        match port {
            IoPort::Joypad => self.write_joypad(addr, v),
            IoPort::SerialData => self.write_serial_data(addr, v),
            IoPort::SerialCtrl => self.write_serial_ctrl(v),
            IoPort::Timer => self.write_timer(addr, v),
            IoPort::InterruptFlags => self.write_flags(addr, v),
            IoPort::Gpu => self.write_gpu_port(addr, v),
            IoPort::BootRomOff => self.write_boot_off(addr, v),
            _ => {},
        }
    }
}

impl Mmu {
    /// Reads one byte from the given address in the memory.
    pub fn read8(&self, addr: u16) -> (r: u8)
        requires
            mmu_wf(self@),
        ensures
            r == mmu_read_spec(self@, addr),
    {
        match region(addr) {
            Region::Cartridge => self.read_cart(addr),
            Region::Vram => {
                let m = self.gpu.on_read(addr);
                self.pass(m, addr)
            },
            Region::Wram => self.wram.get8(addr),
            Region::Oam => self.oam[(addr - 0xfe00) as usize],
            Region::Unusable => 0xff,
            Region::Io => self.read_io(addr),
            Region::Hram => self.hram.get8(addr),
            Region::InterruptEnable => self.ic.read_enabled(),
        }
    }

    fn write_vram(&mut self, addr: u16, v: u8)
        requires
            mmu_wf(old(self)@),
            0x8000 <= addr <= 0x9fff,
        ensures
            mmu_wf(final(self)@),
            final(self)@ == region_write(old(self)@, Region::Vram, addr, v),
    {
        self.gpu.on_write(addr, v, self.ic.irq());
    }

    fn write_wram(&mut self, addr: u16, v: u8)
        requires
            mmu_wf(old(self)@),
            0xc000 <= addr <= 0xfdff,
        ensures
            mmu_wf(final(self)@),
            final(self)@ == region_write(old(self)@, Region::Wram, addr, v),
    {
        self.wram.set8(addr, v);
    }

    fn write_oam(&mut self, addr: u16, v: u8)
        requires
            mmu_wf(old(self)@),
            0xfe00 <= addr <= 0xfe9f,
        ensures
            mmu_wf(final(self)@),
            final(self)@ == region_write(old(self)@, Region::Oam, addr, v),
    {
        self.oam.set((addr - 0xfe00) as usize, v);
    }

    fn write_hram(&mut self, addr: u16, v: u8)
        requires
            mmu_wf(old(self)@),
            0xff80 <= addr <= 0xfffe,
        ensures
            mmu_wf(final(self)@),
            final(self)@ == region_write(old(self)@, Region::Hram, addr, v),
    {
        self.hram.set8(addr, v);
    }

    fn write_ie(&mut self, addr: u16, v: u8)
        requires
            mmu_wf(old(self)@),
            addr == 0xffff,
        ensures
            mmu_wf(final(self)@),
            final(self)@ == region_write(old(self)@, Region::InterruptEnable, addr, v),
    {
        self.ic.write_enabled(v);
    }

    /// Writes one byte at the given address in the memory.
    pub fn write8(&mut self, addr: u16, v: u8)
        requires
            mmu_wf(old(self)@),
        ensures
            mmu_wf(final(self)@),
            final(self)@ == mmu_write_spec(old(self)@, addr, v),
    {
        match region(addr) {
            Region::Cartridge => self.write_cart(addr, v),
            Region::Vram => self.write_vram(addr, v),
            Region::Wram => self.write_wram(addr, v),
            Region::Oam => self.write_oam(addr, v),
            Region::Unusable => {},
            Region::Io => self.write_io(addr, v),
            Region::Hram => self.write_hram(addr, v),
            Region::InterruptEnable => self.write_ie(addr, v),
        }
    }

    fn dma_cycle(&mut self)
        requires
            mmu_wf(old(self)@),
        ensures
            mmu_wf(final(self)@),
            final(self)@ == mmu_dma_tick(old(self)@),
    {
        if self.dma.active() {
            let b = self.read8(self.dma.source());
            match self.dma.step(4) {
                Some(req) => {
                    let dst = req.dst();
                    self.oam.set((dst - 0xfe00) as usize, b);
                },
                None => {},
            }
        }
    }

    fn set_line(&mut self, l: (usize, Vec<u32>))
        ensures
            final(self)@ == (MmuView { line: Some((l.0, l.1@)), ..old(self)@ }),
    {
        self.line = Some(l);
    }

    fn gpu_cycle(&mut self, c: usize)
        requires
            mmu_wf(old(self)@),
            c <= 4,
        ensures
            mmu_wf(final(self)@),
            final(self)@ == mmu_gpu_tick(old(self)@, c as nat),
    {
        if self.gpu.current_line() < 255 {
            let ghost s = self@;
            let r = self.gpu.step(c, self.oam.as_slice(), self.ic.irq());
            let ghost s1 = self@;
            assert(s1 == MmuView {
                gpu: gpu_step_spec(s.gpu, s.irq, c as nat).0,
                irq: gpu_step_spec(s.gpu, s.irq, c as nat).1,
                ..s
            });
            match r {
                Some(l) => {
                    assert(l.1@ =~= Seq::new(VRAM_WIDTH as nat, |x: int| line_pixel(s.gpu, s.oam, x)));
                    self.set_line(l);
                },
                None => {},
            }
        }
    }

    fn timer_cycle(&mut self, c: usize)
        requires
            mmu_wf(old(self)@),
            c <= 4,
        ensures
            mmu_wf(final(self)@),
            final(self)@ == mmu_timer_tick(old(self)@, c as nat),
    {
        proof {
            lemma_timer_short_steps(self.timer@, c as nat);
        }
        self.timer.step(c, self.ic.irq());
    }

    fn serial_cycle(&mut self, c: usize)
        requires
            mmu_wf(old(self)@),
        ensures
            mmu_wf(final(self)@),
            final(self)@ == mmu_serial_tick(old(self)@, c as nat),
    {
        match self.serial.step(c, self.ic.irq(), self.incoming) {
            Some(b) => {
                self.sent.push(b);
                self.incoming = None;
            },
            None => {},
        }
    }

    fn tick(&mut self, c: usize)
        requires
            mmu_wf(old(self)@),
            1 <= c <= 4,
        ensures
            mmu_wf(final(self)@),
            final(self)@ == mmu_tick(old(self)@, c as nat),
    {
        if c == 4 {
            self.dma_cycle();
        }
        self.gpu_cycle(c);
        self.timer_cycle(c);
        self.serial_cycle(c);
    }

    /// Runs the devices for `cycles` CPU cycles, a machine cycle at a time.
    pub fn run(&mut self, cycles: usize)
        requires
            mmu_wf(old(self)@),
        ensures
            mmu_wf(final(self)@),
            final(self)@ == mmu_run(old(self)@, cycles as nat),
    {
        let mut left = cycles;
        while left > 0
            invariant
                mmu_wf(self@),
                mmu_run(self@, left as nat) == mmu_run(old(self)@, cycles as nat),
            decreases left,
        {
            if left <= 4 {
                self.tick(left);
                left = 0;
            } else {
                self.tick(4);
                left = left - 4;
            }
        }
    }
}

impl Sys for Mmu {
    closed spec fn sys_wf(s: MmuView) -> bool {
        mmu_wf(s)
    }

    closed spec fn read8(s: MmuView, addr: u16) -> u8 {
        mmu_read_spec(s, addr)
    }

    closed spec fn write8(s: MmuView, addr: u16, v: u8) -> MmuView {
        mmu_write_spec(s, addr, v)
    }

    closed spec fn stepped(s: MmuView, cycles: nat) -> MmuView {
        mmu_run(s, cycles)
    }

    closed spec fn int_vec(s: MmuView) -> Option<u8> {
        check_spec(s.irq, false).1
    }

    closed spec fn int_acked(s: MmuView) -> MmuView {
        MmuView { irq: check_spec(s.irq, true).0, ..s }
    }

    fn pop_int_vec(&mut self) -> (r: Option<u8>) {
        self.ic.pop()
    }

    fn peek_int_vec(&self) -> (r: Option<u8>) {
        self.ic.peek()
    }

    fn get8(&self, addr: u16) -> (r: u8) {
        self.read8(addr)
    }

    fn set8(&mut self, addr: u16, v: u8) {
        self.write8(addr, v);
    }

    fn step(&mut self, cycles: usize) {
        self.run(cycles);
    }
}

} // verus!
