//! Cartridges and their memory bank controllers.
use vstd::prelude::*;

use crate::mmu::{MemRead, MemWrite};

verus! {

// ---------------------------------------------------------------------------------------------
// No controller
// ---------------------------------------------------------------------------------------------

/// A cartridge without a bank controller: 32 KiB of ROM.
pub struct MbcNone {
    rom: Vec<u8>,
}

impl MbcNone {
    pub closed spec fn rom(&self) -> Seq<u8> {
        self.rom@
    }

    fn new(rom: Vec<u8>) -> (r: Self)
        ensures
            r.rom() == rom@,
    {
        Self { rom }
    }

    fn can_read(&self, addr: u16) -> (r: bool)
        ensures
            r == (addr <= 0x7fff ==> addr < self.rom().len()),
    {
        addr > 0x7fff || (addr as usize) < self.rom.len()
    }

    fn on_read(&self, addr: u16) -> (r: MemRead)
        requires
            addr <= 0x7fff ==> addr < self.rom().len(),
        ensures
            r == (if addr <= 0x7fff {
                MemRead::Replace(self.rom()[addr as int])
            } else {
                MemRead::PassThrough
            }),
    {
        if addr <= 0x7fff {
            MemRead::Replace(self.rom[addr as usize])
        } else {
            MemRead::PassThrough
        }
    }

    fn on_write(&self, addr: u16, value: u8) -> (r: MemWrite)
        requires
            addr <= 0x7fff || 0xa000 <= addr <= 0xbfff,
        ensures
            r == (if addr <= 0x7fff {
                MemWrite::Block
            } else {
                MemWrite::PassThrough
            }),
    {
        if addr <= 0x7fff {
            MemWrite::Block
        } else {
            MemWrite::PassThrough
        }
    }
}

// ---------------------------------------------------------------------------------------------
// MBC1
// ---------------------------------------------------------------------------------------------

/// The abstract state of an MBC1 controller.
pub struct Mbc1View {
    pub rom: Seq<u8>,
    pub ram: Seq<u8>,
    pub rom_bank: usize,
    pub ram_bank: usize,
    pub ram_enable: bool,
    pub ram_select: bool,
}

pub open spec fn mbc1_wf(v: Mbc1View) -> bool {
    &&& v.ram.len() == 0x8000
    &&& v.rom_bank <= 0x7f
    &&& v.ram_bank <= 3
}

/// The ROM bank mapped at 0x4000: bank 0 reads as 1, and banks 0x20, 0x40, 0x60 as the next one.
pub open spec fn mbc1_effective_bank(rom_bank: usize) -> nat {
    let b: nat = if rom_bank == 0 {
        1
    } else {
        rom_bank as nat
    };
    if b == 0x20 || b == 0x40 || b == 0x60 {
        b + 1
    } else {
        b
    }
}

/// The ROM offset read for an address in 0x0000-0x7fff.
pub open spec fn mbc1_rom_offset(v: Mbc1View, addr: u16) -> nat {
    if addr <= 0x3fff {
        addr as nat
    } else {
        mbc1_effective_bank(v.rom_bank) * 0x4000 + (addr - 0x4000) as nat
    }
}

/// Whether a read from `addr` stays inside the ROM image.
pub open spec fn mbc1_can_read(v: Mbc1View, addr: u16) -> bool {
    addr <= 0x7fff ==> mbc1_rom_offset(v, addr) < v.rom.len()
}

pub open spec fn mbc1_read_spec(v: Mbc1View, addr: u16) -> MemRead {
    if addr <= 0x7fff {
        MemRead::Replace(v.rom[mbc1_rom_offset(v, addr) as int])
    } else if 0xa000 <= addr <= 0xbfff {
        if v.ram_enable {
            MemRead::Replace(v.ram[v.ram_bank * 0x2000 + (addr - 0xa000)])
        } else {
            MemRead::Replace(0)
        }
    } else {
        MemRead::PassThrough
    }
}

/// Whether the write is one the controller handles.
pub open spec fn mbc1_can_write(addr: u16, value: u8) -> bool {
    &&& addr <= 0x7fff || 0xa000 <= addr <= 0xbfff
    &&& 0x6000 <= addr <= 0x7fff ==> value <= 1
}

pub open spec fn mbc1_write_spec(v: Mbc1View, addr: u16, value: u8) -> (Mbc1View, MemWrite) {
    if addr <= 0x1fff {
        (Mbc1View { ram_enable: value & 0xf == 0x0a, ..v }, MemWrite::Block)
    } else if addr <= 0x3fff {
        (
            Mbc1View { rom_bank: (v.rom_bank & !0x1fusize) | (value as usize & 0x1f), ..v },
            MemWrite::Block,
        )
    } else if addr <= 0x5fff {
        if v.ram_select {
            (Mbc1View { ram_bank: value as usize & 0x3, ..v }, MemWrite::Block)
        } else {
            (
                Mbc1View {
                    rom_bank: (v.rom_bank & !0x60usize) | ((value as usize & 0x3) << 5usize),
                    ..v
                },
                MemWrite::Block,
            )
        }
    } else if addr <= 0x7fff {
        (Mbc1View { ram_select: value == 1, ..v }, MemWrite::Block)
    } else if v.ram_enable {
        (
            Mbc1View { ram: v.ram.update(v.ram_bank * 0x2000 + (addr - 0xa000), value), ..v },
            MemWrite::Block,
        )
    } else {
        (v, MemWrite::Block)
    }
}

/// MBC1: up to 2 MiB of ROM and 32 KiB of RAM.
pub struct Mbc1 {
    rom: Vec<u8>,
    ram: Vec<u8>,
    rom_bank: usize,
    ram_bank: usize,
    ram_enable: bool,
    ram_select: bool,
}

impl View for Mbc1 {
    type V = Mbc1View;

    closed spec fn view(&self) -> Mbc1View {
        Mbc1View {
            rom: self.rom@,
            ram: self.ram@,
            rom_bank: self.rom_bank,
            ram_bank: self.ram_bank,
            ram_enable: self.ram_enable,
            ram_select: self.ram_select,
        }
    }
}

impl Mbc1 {
    fn new(rom: Vec<u8>) -> (r: Self)
        ensures
            mbc1_wf(r@),
            r@ == (Mbc1View {
                rom: rom@,
                ram: Seq::new(0x8000, |i: int| 0u8),
                rom_bank: 0,
                ram_bank: 0,
                ram_enable: false,
                ram_select: false,
            }),
    {
        let r = Self {
            rom,
            ram: vec![0; 0x8000],
            rom_bank: 0,
            ram_bank: 0,
            ram_enable: false,
            ram_select: false,
        };
        assert(r.ram@ =~= Seq::new(0x8000, |i: int| 0u8));
        r
    }

    fn can_read(&self, addr: u16) -> (r: bool)
        requires
            mbc1_wf(self@),
        ensures
            r == mbc1_can_read(self@, addr),
    {
        if addr <= 0x3fff {
            (addr as usize) < self.rom.len()
        } else if addr <= 0x7fff {
            let rom_bank = if self.rom_bank == 0 {
                1
            } else {
                self.rom_bank
            };
            let rom_bank = if rom_bank == 0x20 || rom_bank == 0x40 || rom_bank == 0x60 {
                rom_bank + 1
            } else {
                rom_bank
            };
            rom_bank * 0x4000 + (addr as usize - 0x4000) < self.rom.len()
        } else {
            true
        }
    }

    fn on_read(&self, addr: u16) -> (r: MemRead)
        requires
            mbc1_wf(self@),
            mbc1_can_read(self@, addr),
        ensures
            r == mbc1_read_spec(self@, addr),
    {
        if addr <= 0x3fff {
            MemRead::Replace(self.rom[addr as usize])
        } else if addr >= 0x4000 && addr <= 0x7fff {
            let rom_bank = if self.rom_bank == 0 {
                1
            } else {
                self.rom_bank
            };
            // ROM bank 0x20, 0x40, 0x60 are somehow not available
            let rom_bank = if rom_bank == 0x20 || rom_bank == 0x40 || rom_bank == 0x60 {
                rom_bank + 1
            } else {
                rom_bank
            };
            let base = rom_bank * 0x4000;
            let offset = addr as usize - 0x4000;
            MemRead::Replace(self.rom[base + offset])
        } else if addr >= 0xa000 && addr <= 0xbfff {
            if self.ram_enable {
                let base = self.ram_bank * 0x2000;
                let offset = addr as usize - 0xa000;
                MemRead::Replace(self.ram[base + offset])
            } else {
                MemRead::Replace(0)
            }
        } else {
            MemRead::PassThrough
        }
    }

    fn on_write(&mut self, addr: u16, value: u8) -> (r: MemWrite)
        requires
            mbc1_wf(old(self)@),
            mbc1_can_write(addr, value),
        ensures
            mbc1_wf(final(self)@),
            (final(self)@, r) == mbc1_write_spec(old(self)@, addr, value),
    {
        if addr <= 0x1fff {
            self.ram_enable = value & 0xf == 0x0a;
            MemWrite::Block
        } else if addr >= 0x2000 && addr <= 0x3fff {
            let b = self.rom_bank;
            assert((b & !0x1fusize) | (value as usize & 0x1f) <= 0x7f) by (bit_vector)
                requires
                    b <= 0x7f,
            ;
            self.rom_bank = (self.rom_bank & !0x1f) | (value as usize & 0x1f);
            MemWrite::Block
        } else if addr >= 0x4000 && addr <= 0x5fff {
            if self.ram_select {
                proof {
                    crate::bits::lemma_wide_byte_fields(value as usize);
                }
                self.ram_bank = value as usize & 0x3;
            } else {
                let b = self.rom_bank;
                assert((b & !0x60usize) | ((value as usize & 0x3) << 5usize) <= 0x7f) by (bit_vector)
                    requires
                        b <= 0x7f,
                ;
                self.rom_bank = (self.rom_bank & !0x60) | ((value as usize & 0x3) << 5usize);
            }
            MemWrite::Block
        } else if addr >= 0x6000 && addr <= 0x7fff {
            if value == 0x00 {
                self.ram_select = false;
            } else {
                self.ram_select = true;
            }
            MemWrite::Block
        } else {
            if self.ram_enable {
                let base = self.ram_bank * 0x2000;
                let offset = addr as usize - 0xa000;
                self.ram.set(base + offset, value);
            }
            MemWrite::Block
        }
    }
}

// ---------------------------------------------------------------------------------------------
// MBC2
// ---------------------------------------------------------------------------------------------

/// The abstract state of an MBC2 controller.
pub struct Mbc2View {
    pub rom: Seq<u8>,
    pub ram: Seq<u8>,
    pub rom_bank: nat,
    pub ram_enable: bool,
}

pub open spec fn mbc2_wf(v: Mbc2View) -> bool {
    &&& v.ram.len() == 0x200
    &&& v.rom_bank <= 0xf
}

pub open spec fn mbc2_rom_offset(v: Mbc2View, addr: u16) -> nat {
    if addr <= 0x3fff {
        addr as nat
    } else {
        (if v.rom_bank == 0 {
            1
        } else {
            v.rom_bank
        }) * 0x4000 + (addr - 0x4000) as nat
    }
}

pub open spec fn mbc2_can_read(v: Mbc2View, addr: u16) -> bool {
    addr <= 0x7fff ==> mbc2_rom_offset(v, addr) < v.rom.len()
}

pub open spec fn mbc2_read_spec(v: Mbc2View, addr: u16) -> MemRead {
    if addr <= 0x7fff {
        MemRead::Replace(v.rom[mbc2_rom_offset(v, addr) as int])
    } else if 0xa000 <= addr <= 0xa1ff {
        if v.ram_enable {
            MemRead::Replace(v.ram[addr - 0xa000] & 0xf)
        } else {
            MemRead::Replace(0)
        }
    } else {
        MemRead::PassThrough
    }
}

pub open spec fn mbc2_write_spec(v: Mbc2View, addr: u16, value: u8) -> (Mbc2View, MemWrite) {
    if addr <= 0x3fff {
        if addr & 0x100 == 0 {
            (Mbc2View { ram_enable: value & 0x0f == 0x0a, ..v }, MemWrite::Block)
        } else {
            (
                Mbc2View {
                    rom_bank: if value & 0xf == 0 {
                        1
                    } else {
                        (value & 0xf) as nat
                    },
                    ..v
                },
                MemWrite::Block,
            )
        }
    } else if addr <= 0x7fff {
        (v, MemWrite::Block)
    } else if 0xa000 <= addr <= 0xa1ff {
        if v.ram_enable {
            (Mbc2View { ram: v.ram.update(addr - 0xa000, value & 0xf), ..v }, MemWrite::Block)
        } else {
            (v, MemWrite::Block)
        }
    } else {
        (v, MemWrite::PassThrough)
    }
}

/// MBC2: up to 256 KiB of ROM and 512 half-bytes of RAM.
pub struct Mbc2 {
    rom: Vec<u8>,
    ram: Vec<u8>,
    rom_bank: usize,
    ram_enable: bool,
}

impl View for Mbc2 {
    type V = Mbc2View;

    closed spec fn view(&self) -> Mbc2View {
        Mbc2View {
            rom: self.rom@,
            ram: self.ram@,
            rom_bank: self.rom_bank as nat,
            ram_enable: self.ram_enable,
        }
    }
}

impl Mbc2 {
    fn new(rom: Vec<u8>) -> (r: Self)
        ensures
            mbc2_wf(r@),
            r@ == (Mbc2View {
                rom: rom@,
                ram: Seq::new(0x200, |i: int| 0u8),
                rom_bank: 1,
                ram_enable: false,
            }),
    {
        let r = Self { rom, ram: vec![0; 0x200], rom_bank: 1, ram_enable: false };
        assert(r.ram@ =~= Seq::new(0x200, |i: int| 0u8));
        r
    }

    fn can_read(&self, addr: u16) -> (r: bool)
        requires
            mbc2_wf(self@),
        ensures
            r == mbc2_can_read(self@, addr),
    {
        if addr <= 0x3fff {
            (addr as usize) < self.rom.len()
        } else if addr <= 0x7fff {
            let bank = if self.rom_bank == 0 {
                1
            } else {
                self.rom_bank
            };
            bank * 0x4000 + (addr as usize - 0x4000) < self.rom.len()
        } else {
            true
        }
    }

    fn on_read(&self, addr: u16) -> (r: MemRead)
        requires
            mbc2_wf(self@),
            mbc2_can_read(self@, addr),
        ensures
            r == mbc2_read_spec(self@, addr),
    {
        if addr <= 0x3fff {
            MemRead::Replace(self.rom[addr as usize])
        } else if addr >= 0x4000 && addr <= 0x7fff {
            let bank = if self.rom_bank == 0 {
                1
            } else {
                self.rom_bank
            };
            let base = bank * 0x4000;
            let offset = addr as usize - 0x4000;
            MemRead::Replace(self.rom[base + offset])
        } else if addr >= 0xa000 && addr <= 0xa1ff {
            if self.ram_enable {
                MemRead::Replace(self.ram[addr as usize - 0xa000] & 0xf)
            } else {
                MemRead::Replace(0)
            }
        } else {
            MemRead::PassThrough
        }
    }

    fn on_write(&mut self, addr: u16, value: u8) -> (r: MemWrite)
        requires
            mbc2_wf(old(self)@),
        ensures
            mbc2_wf(final(self)@),
            (final(self)@, r) == mbc2_write_spec(old(self)@, addr, value),
    {
        if addr <= 0x3fff {
            if addr & 0x100 == 0 {
                self.ram_enable = (value & 0x0f) == 0x0a;
            } else {
                proof {
                    crate::bits::lemma_byte_fields(value);
                }
                let b = (value & 0xf) as usize;
                self.rom_bank = if b == 0 {
                    1
                } else {
                    b
                };
            }
            MemWrite::Block
        } else if addr >= 0x4000 && addr <= 0x7fff {
            MemWrite::Block
        } else if addr >= 0xa000 && addr <= 0xa1ff {
            if self.ram_enable {
                self.ram.set(addr as usize - 0xa000, value & 0xf);
            }
            MemWrite::Block
        } else {
            MemWrite::PassThrough
        }
    }
}

// ---------------------------------------------------------------------------------------------
// MBC3
// ---------------------------------------------------------------------------------------------

/// The host's clock, `std::time::SystemTime`, carried as an opaque value.
#[verifier::external_type_specification]
#[verifier::external_body]
pub struct ExSystemTime(std::time::SystemTime);

/// Reads the host clock with `SystemTime::now()`. Nothing is stated of the reading.
#[verifier::external_body]
fn system_now() -> (r: std::time::SystemTime) {
    std::time::SystemTime::now()
}

/// The time from the Unix epoch to `t`, by `SystemTime::duration_since(UNIX_EPOCH)`; the error
/// it returns for a time before the epoch becomes `None`. Nothing is stated of the duration,
/// which depends on the clock reading.
#[verifier::external_body]
fn since_unix_epoch(t: &std::time::SystemTime) -> (r: Option<core::time::Duration>) {
    match t.duration_since(std::time::SystemTime::UNIX_EPOCH) {
        Ok(d) => Some(d),
        Err(_) => None,
    }
}

/// The whole seconds of `d`, by `Duration::as_secs`. The duration is opaque here, so
/// nothing is stated of the number.
#[verifier::external_body]
fn whole_secs(d: &core::time::Duration) -> (r: u64) {
    d.as_secs()
}

/// The current time as seconds since the Unix epoch, or `None` when the host clock reads
/// before it.
pub fn epoch() -> (r: Option<u64>) {
    match since_unix_epoch(&system_now()) {
        Some(d) => Some(whole_secs(&d)),
        None => None,
    }
}

/// The abstract state of an MBC3 controller with its real-time clock.
pub struct Mbc3View {
    pub rom: Seq<u8>,
    pub ram: Seq<u8>,
    pub rom_bank: nat,
    pub enable: bool,
    pub select: u8,
    pub rtc_secs: u8,
    pub rtc_mins: u8,
    pub rtc_hours: u8,
    pub rtc_day_low: u8,
    pub rtc_day_high: u8,
    pub epoch: u64,
    pub prelatch: bool,
}

pub open spec fn mbc3_wf(v: Mbc3View) -> bool {
    &&& v.ram.len() == 0x8000
    &&& v.rom_bank <= 0x7f
}

/// Whether `select` names a RAM bank (0-3) or an RTC register (0x08-0x0c).
pub open spec fn mbc3_valid_select(select: u8) -> bool {
    select <= 3 || 0x08 <= select <= 0x0c
}

pub open spec fn mbc3_rom_offset(v: Mbc3View, addr: u16) -> nat {
    if addr <= 0x3fff {
        addr as nat
    } else {
        (if v.rom_bank == 0 {
            1
        } else {
            v.rom_bank
        }) * 0x4000 + (addr - 0x4000) as nat
    }
}

pub open spec fn mbc3_can_read(v: Mbc3View, addr: u16) -> bool {
    &&& addr <= 0x7fff || 0xa000 <= addr <= 0xbfff
    &&& addr <= 0x7fff ==> mbc3_rom_offset(v, addr) < v.rom.len()
    &&& 0xa000 <= addr ==> mbc3_valid_select(v.select)
}

pub open spec fn mbc3_read_spec(v: Mbc3View, addr: u16) -> MemRead {
    if addr <= 0x7fff {
        MemRead::Replace(v.rom[mbc3_rom_offset(v, addr) as int])
    } else if v.select <= 3 {
        MemRead::Replace(v.ram[v.select * 0x2000 + (addr - 0xa000)])
    } else if v.select == 0x08 {
        MemRead::Replace(v.rtc_secs)
    } else if v.select == 0x09 {
        MemRead::Replace(v.rtc_mins)
    } else if v.select == 0x0a {
        MemRead::Replace(v.rtc_hours)
    } else if v.select == 0x0b {
        MemRead::Replace(v.rtc_day_low)
    } else {
        MemRead::Replace(v.rtc_day_high)
    }
}

pub open spec fn mbc3_can_write(v: Mbc3View, addr: u16) -> bool {
    &&& addr <= 0x7fff || 0xa000 <= addr <= 0xbfff
    &&& 0xa000 <= addr ==> mbc3_valid_select(v.select)
}

/// The day counter as the controller computes it from its registers.
pub open spec fn mbc3_day(v: Mbc3View) -> u64 {
    ((v.rtc_day_high as u64 & 1) << 8u64) & v.rtc_day_low as u64
}

/// The clock registers as a number of seconds.
pub open spec fn mbc3_secs(v: Mbc3View) -> int {
    (mbc3_day(v) * 24 + v.rtc_hours) * 3600 + v.rtc_mins * 60 + v.rtc_secs
}

/// The state with the clock registers set from `secs` seconds: seconds, minutes, hours, the
/// low byte of the day, and bit 0 of the high day register for bit 8 of the day.
pub open spec fn mbc3_set_secs(v: Mbc3View, secs: u64) -> Mbc3View {
    Mbc3View {
        rtc_secs: (secs % 60) as u8,
        rtc_mins: ((secs / 60) % 60) as u8,
        rtc_hours: ((secs / 3600) % 24) as u8,
        rtc_day_low: (secs / 86400) as u8,
        rtc_day_high: (v.rtc_day_high & !1u8) | (((secs / 86400) >> 8u64) & 1) as u8,
        ..v
    }
}

/// The state after latching the clock with the host clock reading `now` (in seconds): the
/// seconds since the last latch are added to the registers, a day counter that goes back
/// sets the overflow bit (bit 7 of the high day register), and `now` becomes the last latch.
pub open spec fn mbc3_latched(v: Mbc3View, now: u64) -> Mbc3View {
    let elapsed = if now >= v.epoch {
        now - v.epoch
    } else {
        0
    };
    let total = if mbc3_secs(v) + elapsed > u64::MAX {
        u64::MAX
    } else {
        (mbc3_secs(v) + elapsed) as u64
    };
    let v1 = mbc3_set_secs(v, total);
    let v2 = if mbc3_day(v1) < mbc3_day(v) {
        Mbc3View { rtc_day_high: v1.rtc_day_high | 0x80, ..v1 }
    } else {
        v1
    };
    Mbc3View { epoch: now, ..v2 }
}

/// What a write of `value` at `addr` does to an MBC3 controller in state `a`, leaving it in
/// state `b` (the host clock reading that a write of a clock register or a latch takes is
/// left open).
pub open spec fn mbc3_written(a: Mbc3View, b: Mbc3View, addr: u16, value: u8) -> bool {
    &&& mbc3_wf(b)
    &&& b.rom == a.rom
    &&& addr <= 0x1fff ==> b == (Mbc3View {
        enable: if value == 0 {
            false
        } else if value == 0x0a {
            true
        } else {
            a.enable
        },
        ..a
    })
    &&& 0x2000 <= addr <= 0x3fff ==> b == (Mbc3View { rom_bank: (value & 0x7f) as nat, ..a })
    &&& 0x4000 <= addr <= 0x5fff ==> b == (Mbc3View { select: value, ..a })
    &&& 0x6000 <= addr <= 0x7fff && !(a.prelatch && value == 1) ==> b == (Mbc3View {
        prelatch: !a.prelatch && value == 0,
        ..a
    })
    &&& 0x6000 <= addr <= 0x7fff && a.prelatch && value == 1 ==> exists|now: u64|
        (a.rtc_day_high & 0x40 != 0 ==> now == a.epoch) && b == (Mbc3View {
            prelatch: false,
            ..#[trigger] mbc3_latched(a, now)
        })
    &&& 0xa000 <= addr && a.select <= 3 ==> b == (Mbc3View {
        ram: a.ram.update(a.select * 0x2000 + (addr - 0xa000), value),
        ..a
    })
    &&& 0xa000 <= addr && a.select == 0x08 ==> b == (Mbc3View { rtc_secs: value, epoch: b.epoch, ..a })
    &&& 0xa000 <= addr && a.select == 0x09 ==> b == (Mbc3View { rtc_mins: value, epoch: b.epoch, ..a })
    &&& 0xa000 <= addr && a.select == 0x0a ==> b == (Mbc3View { rtc_hours: value, epoch: b.epoch, ..a })
    &&& 0xa000 <= addr && a.select == 0x0b ==> b == (Mbc3View {
        rtc_day_low: value,
        epoch: b.epoch,
        ..a
    })
    &&& 0xa000 <= addr && a.select == 0x0c ==> b == (Mbc3View {
        rtc_day_high: value,
        epoch: b.epoch,
        ..a
    })
}

/// The state after a write of `value` at `addr` when the host clock reads `now` (`None`: no
/// reading, the clock keeps its last start time). Writes of a clock register restart the
/// elapsed time at `now`; the latch sequence (0 then 1 to 0x6000-0x7fff) latches at `now`,
/// or at the last start time while the clock is halted.
pub open spec fn mbc3_write_at(a: Mbc3View, addr: u16, value: u8, now: Option<u64>) -> Mbc3View {
    let ep = match now {
        Some(e) => e,
        None => a.epoch,
    };
    if addr <= 0x1fff {
        Mbc3View {
            enable: if value == 0 {
                false
            } else if value == 0x0a {
                true
            } else {
                a.enable
            },
            ..a
        }
    } else if addr <= 0x3fff {
        Mbc3View { rom_bank: (value & 0x7f) as nat, ..a }
    } else if addr <= 0x5fff {
        Mbc3View { select: value, ..a }
    } else if addr <= 0x7fff {
        if a.prelatch && value == 1 {
            Mbc3View {
                prelatch: false,
                ..mbc3_latched(a, if a.rtc_day_high & 0x40 != 0 { a.epoch } else { ep })
            }
        } else {
            Mbc3View { prelatch: !a.prelatch && value == 0, ..a }
        }
    } else if a.select <= 3 {
        Mbc3View { ram: a.ram.update(a.select * 0x2000 + (addr - 0xa000), value), ..a }
    } else if a.select == 0x08 {
        Mbc3View { rtc_secs: value, epoch: ep, ..a }
    } else if a.select == 0x09 {
        Mbc3View { rtc_mins: value, epoch: ep, ..a }
    } else if a.select == 0x0a {
        Mbc3View { rtc_hours: value, epoch: ep, ..a }
    } else if a.select == 0x0b {
        Mbc3View { rtc_day_low: value, epoch: ep, ..a }
    } else {
        Mbc3View { rtc_day_high: value, epoch: ep, ..a }
    }
}

/// MBC3: up to 2 MiB of ROM, 32 KiB of RAM and a real-time clock.
pub struct Mbc3 {
    rom: Vec<u8>,
    ram: Vec<u8>,
    rom_bank: usize,
    enable: bool,
    select: u8,
    rtc_secs: u8,
    rtc_mins: u8,
    rtc_hours: u8,
    rtc_day_low: u8,
    rtc_day_high: u8,
    epoch: u64,
    prelatch: bool,
}

impl View for Mbc3 {
    type V = Mbc3View;

    closed spec fn view(&self) -> Mbc3View {
        Mbc3View {
            rom: self.rom@,
            ram: self.ram@,
            rom_bank: self.rom_bank as nat,
            enable: self.enable,
            select: self.select,
            rtc_secs: self.rtc_secs,
            rtc_mins: self.rtc_mins,
            rtc_hours: self.rtc_hours,
            rtc_day_low: self.rtc_day_low,
            rtc_day_high: self.rtc_day_high,
            epoch: self.epoch,
            prelatch: self.prelatch,
        }
    }
}

impl Mbc3 {
    fn new(rom: Vec<u8>) -> (r: Self)
        ensures
            mbc3_wf(r@),
            r@.rom == rom@,
            r@.ram == Seq::new(0x8000, |i: int| 0u8),
            r@.rom_bank == 0 && !r@.enable && r@.select == 0 && !r@.prelatch,
            r@.rtc_secs == 0 && r@.rtc_mins == 0 && r@.rtc_hours == 0,
            r@.rtc_day_low == 0 && r@.rtc_day_high == 0,
    {
        let r = Self {
            rom,
            ram: vec![0; 0x8000],
            rom_bank: 0,
            enable: false,
            select: 0,
            rtc_secs: 0,
            rtc_mins: 0,
            rtc_hours: 0,
            rtc_day_low: 0,
            rtc_day_high: 0,
            epoch: match epoch() {
                Some(e) => e,
                None => 0,
            },
            prelatch: false,
        };
        assert(r.ram@ =~= Seq::new(0x8000, |i: int| 0u8));
        r
    }

    fn can_read(&self, addr: u16) -> (r: bool)
        requires
            mbc3_wf(self@),
        ensures
            r == mbc3_can_read(self@, addr),
    {
        if addr <= 0x3fff {
            (addr as usize) < self.rom.len()
        } else if addr <= 0x7fff {
            let bank = if self.rom_bank == 0 {
                1
            } else {
                self.rom_bank
            };
            bank * 0x4000 + (addr as usize - 0x4000) < self.rom.len()
        } else if 0xa000 <= addr && addr <= 0xbfff {
            self.select <= 3 || (0x08 <= self.select && self.select <= 0x0c)
        } else {
            false
        }
    }

    fn can_write(&self, addr: u16) -> (r: bool)
        ensures
            r == mbc3_can_write(self@, addr),
    {
        addr <= 0x7fff || (0xa000 <= addr && addr <= 0xbfff && (self.select <= 3 || (0x08
            <= self.select && self.select <= 0x0c)))
    }

    fn on_read(&self, addr: u16) -> (r: MemRead)
        requires
            mbc3_wf(self@),
            mbc3_can_read(self@, addr),
        ensures
            r == mbc3_read_spec(self@, addr),
    {
        if addr <= 0x3fff {
            MemRead::Replace(self.rom[addr as usize])
        } else if addr >= 0x4000 && addr <= 0x7fff {
            let rom_bank = if self.rom_bank == 0 {
                1
            } else {
                self.rom_bank
            };
            let base = rom_bank * 0x4000;
            let offset = addr as usize - 0x4000;
            MemRead::Replace(self.rom[base + offset])
        } else {
            let x = self.select;
            if x <= 3 {
                let base = x as usize * 0x2000;
                let offset = addr as usize - 0xa000;
                MemRead::Replace(self.ram[base + offset])
            } else if x == 0x08 {
                MemRead::Replace(self.rtc_secs)
            } else if x == 0x09 {
                MemRead::Replace(self.rtc_mins)
            } else if x == 0x0a {
                MemRead::Replace(self.rtc_hours)
            } else if x == 0x0b {
                MemRead::Replace(self.rtc_day_low)
            } else {
                MemRead::Replace(self.rtc_day_high)
            }
        }
    }

    /// Handles a write. Writes to the RTC registers restart the elapsed time from the host
    /// clock; a latch sequence (0 then 1 to 0x6000-0x7fff) copies the elapsed time into them.
    fn on_write(&mut self, addr: u16, value: u8) -> (r: MemWrite)
        requires
            mbc3_wf(old(self)@),
            mbc3_can_write(old(self)@, addr),
        ensures
            mbc3_wf(final(self)@),
            r == MemWrite::Block,
            mbc3_written(old(self)@, final(self)@, addr, value),
            final(self)@.rom == old(self)@.rom,
            addr <= 0x1fff ==> final(self)@ == (Mbc3View {
                enable: if value == 0 {
                    false
                } else if value == 0x0a {
                    true
                } else {
                    old(self)@.enable
                },
                ..old(self)@
            }),
            0x2000 <= addr <= 0x3fff ==> final(self)@ == (Mbc3View {
                rom_bank: (value & 0x7f) as nat,
                ..old(self)@
            }),
            0x4000 <= addr <= 0x5fff ==> final(self)@ == (Mbc3View { select: value, ..old(self)@ }),
            0x6000 <= addr <= 0x7fff ==> final(self)@.prelatch == (!old(self)@.prelatch && value
                == 0) && final(self)@.ram == old(self)@.ram && final(self)@.select == old(
                self,
            )@.select && final(self)@.rom_bank == old(self)@.rom_bank && (!(old(self)@.prelatch
                && value == 1) ==> final(self)@ == (Mbc3View {
                prelatch: final(self)@.prelatch,
                ..old(self)@
            })),
            0x6000 <= addr <= 0x7fff && old(self)@.prelatch && value == 1 ==> exists|now: u64|
                (old(self)@.rtc_day_high & 0x40 != 0 ==> now == old(self)@.epoch) && final(self)@
                    == (Mbc3View { prelatch: false, ..#[trigger] mbc3_latched(old(self)@, now) }),
            0xa000 <= addr && old(self)@.select <= 3 ==> final(self)@ == (Mbc3View {
                ram: old(self)@.ram.update(old(self)@.select * 0x2000 + (addr - 0xa000), value),
                ..old(self)@
            }),
            0xa000 <= addr && old(self)@.select == 0x08 ==> final(self)@ == (Mbc3View {
                rtc_secs: value,
                epoch: final(self)@.epoch,
                ..old(self)@
            }),
            0xa000 <= addr && old(self)@.select == 0x09 ==> final(self)@ == (Mbc3View {
                rtc_mins: value,
                epoch: final(self)@.epoch,
                ..old(self)@
            }),
            0xa000 <= addr && old(self)@.select == 0x0a ==> final(self)@ == (Mbc3View {
                rtc_hours: value,
                epoch: final(self)@.epoch,
                ..old(self)@
            }),
            0xa000 <= addr && old(self)@.select == 0x0b ==> final(self)@ == (Mbc3View {
                rtc_day_low: value,
                epoch: final(self)@.epoch,
                ..old(self)@
            }),
            0xa000 <= addr && old(self)@.select == 0x0c ==> final(self)@ == (Mbc3View {
                rtc_day_high: value,
                epoch: final(self)@.epoch,
                ..old(self)@
            }),
    {
        let now = epoch();
        self.on_write_at(addr, value, now)
    }

    /// Handles a write with the host clock reading `now` for the clock registers.
    fn on_write_at(&mut self, addr: u16, value: u8, now: Option<u64>) -> (r: MemWrite)
        requires
            mbc3_wf(old(self)@),
            mbc3_can_write(old(self)@, addr),
        ensures
            mbc3_wf(final(self)@),
            r == MemWrite::Block,
            final(self)@ == mbc3_write_at(old(self)@, addr, value, now),
    {
        if addr <= 0x1fff {
            if value == 0x00 {
                self.enable = false;
            } else if value == 0x0a {
                self.enable = true;
            }
            MemWrite::Block
        } else if addr >= 0x2000 && addr <= 0x3fff {
            proof {
                crate::bits::lemma_byte_fields(value);
            }
            self.rom_bank = (value & 0x7f) as usize;
            MemWrite::Block
        } else if addr >= 0x4000 && addr <= 0x5fff {
            self.select = value;
            MemWrite::Block
        } else if addr >= 0x6000 && addr <= 0x7fff {
            if self.prelatch {
                if value == 0x01 {
                    self.latch(now);
                }
                self.prelatch = false;
            } else {
                if value == 0x00 {
                    self.prelatch = true;
                }
            }
            MemWrite::Block
        } else {
            let x = self.select;
            if x <= 3 {
                let base = x as usize * 0x2000;
                let offset = addr as usize - 0xa000;
                self.ram.set(base + offset, value);
            } else if x == 0x08 {
                self.rtc_secs = value;
                self.update_epoch(now);
            } else if x == 0x09 {
                self.rtc_mins = value;
                self.update_epoch(now);
            } else if x == 0x0a {
                self.rtc_hours = value;
                self.update_epoch(now);
            } else if x == 0x0b {
                self.rtc_day_low = value;
                self.update_epoch(now);
            } else {
                self.rtc_day_high = value;
                self.update_epoch(now);
            }
            MemWrite::Block
        }
    }

    fn update_epoch(&mut self, now: Option<u64>)
        ensures
            final(self)@ == (Mbc3View {
                epoch: match now {
                    Some(e) => e,
                    None => old(self)@.epoch,
                },
                ..old(self)@
            }),
    {
        if let Some(e) = now {
            self.epoch = e;
        }
    }

    fn day(&self) -> (r: u64)
        ensures
            r == mbc3_day(self@),
    {
        ((self.rtc_day_high as u64 & 1) << 8u64) & self.rtc_day_low as u64
    }

    fn dhms_to_secs(&self) -> (r: u64)
        ensures
            r == (mbc3_day(self@) * 24 + self@.rtc_hours) * 3600 + self@.rtc_mins * 60
                + self@.rtc_secs,
    {
        let d = self.day();
        let hi = self.rtc_day_high as u64;
        let lo = self.rtc_day_low as u64;
        assert(((hi & 1) << 8u64) & lo <= 0xff) by (bit_vector)
            requires
                lo <= 0xff,
        ;
        let s = self.rtc_secs as u64;
        let m = self.rtc_mins as u64;
        let h = self.rtc_hours as u64;
        (d * 24 + h) * 3600 + m * 60 + s
    }

    /// Sets the clock registers from a number of seconds.
    pub fn secs_to_dhms(&mut self, secs: u64)
        ensures
            final(self)@ == mbc3_set_secs(old(self)@, secs),
            final(self)@ == (Mbc3View {
                rtc_secs: (secs % 60) as u8,
                rtc_mins: ((secs / 60) % 60) as u8,
                rtc_hours: ((secs / 3600) % 24) as u8,
                rtc_day_low: (secs / 86400) as u8,
                rtc_day_high: (old(self)@.rtc_day_high & !1u8) | (((secs / 86400) >> 8u64) & 1) as u8,
                ..old(self)@
            }),
    {
        let s = secs % 60;
        let m = (secs / 60) % 60;
        let h = (secs / 3600) % 24;
        let d = secs / (3600 * 24);
        self.rtc_secs = s as u8;
        self.rtc_mins = m as u8;
        self.rtc_hours = h as u8;
        self.rtc_day_low = d as u8;
        self.rtc_day_high = (self.rtc_day_high & !1) | ((d >> 8u64) & 1) as u8;
    }

    fn latch(&mut self, now: Option<u64>)
        requires
            mbc3_wf(old(self)@),
        ensures
            mbc3_wf(final(self)@),
            final(self)@ == mbc3_latched(
                old(self)@,
                if old(self)@.rtc_day_high & 0x40 != 0 {
                    old(self)@.epoch
                } else {
                    match now {
                        Some(e) => e,
                        None => old(self)@.epoch,
                    }
                },
            ),
    {
        let new_epoch = if self.rtc_day_high & 0x40 == 0 {
            match now {
                Some(e) => e,
                None => self.epoch,
            }
        } else {
            // Halt
            self.epoch
        };
        self.latch_at(new_epoch);
    }

    /// Latches the clock at the host clock reading `now`: the seconds since the last latch
    /// are added to the clock registers, a day counter that goes back sets the overflow bit,
    /// and `now` becomes the last latch.
    fn latch_at(&mut self, now: u64)
        requires
            mbc3_wf(old(self)@),
        ensures
            final(self)@ == mbc3_latched(old(self)@, now),
    {
        let elapsed = now.saturating_sub(self.epoch);
        let last_day = self.day();
        let last_secs = self.dhms_to_secs();
        self.secs_to_dhms(last_secs.saturating_add(elapsed));
        let new_day = self.day();
        // Overflow
        if new_day < last_day {
            self.rtc_day_high = self.rtc_day_high | 0x80;
        }
        self.epoch = now;
    }
}

// ---------------------------------------------------------------------------------------------
// Controller selection
// ---------------------------------------------------------------------------------------------

/// A controller type that reads no ROM and writes nowhere: any access is unsupported.
pub struct Mbc5 {
    rom: Vec<u8>,
}

/// A controller type that reads no ROM and writes nowhere: any access is unsupported.
pub struct HuC1 {
    rom: Vec<u8>,
}

/// The state of a cartridge controller: the ROM image of a cartridge without one, the state
/// of an MBC1, MBC2 or MBC3, or a controller the emulator does not support.
pub enum CartView {
    NoController(Seq<u8>),
    Mbc1(Mbc1View),
    Mbc2(Mbc2View),
    Mbc3(Mbc3View),
    Unsupported,
}

/// Whether a read of `addr` is supported and stays inside the ROM image.
pub open spec fn cart_can_read(c: CartView, addr: u16) -> bool {
    match c {
        CartView::NoController(rom) => addr <= 0x7fff ==> addr < rom.len(),
        CartView::Mbc1(v) => mbc1_can_read(v, addr),
        CartView::Mbc2(v) => mbc2_can_read(v, addr),
        CartView::Mbc3(v) => mbc3_can_read(v, addr),
        CartView::Unsupported => false,
    }
}

/// What a read of `addr` returns.
pub open spec fn cart_read(c: CartView, addr: u16) -> MemRead {
    match c {
        CartView::NoController(rom) => if addr <= 0x7fff {
            MemRead::Replace(rom[addr as int])
        } else {
            MemRead::PassThrough
        },
        CartView::Mbc1(v) => mbc1_read_spec(v, addr),
        CartView::Mbc2(v) => mbc2_read_spec(v, addr),
        CartView::Mbc3(v) => mbc3_read_spec(v, addr),
        CartView::Unsupported => MemRead::PassThrough,
    }
}

/// Whether a write of `value` at `addr` is supported.
pub open spec fn cart_can_write(c: CartView, addr: u16, value: u8) -> bool {
    match c {
        CartView::NoController(_) => addr <= 0x7fff || 0xa000 <= addr <= 0xbfff,
        CartView::Mbc1(_) => mbc1_can_write(addr, value),
        CartView::Mbc2(_) => true,
        CartView::Mbc3(v) => mbc3_can_write(v, addr),
        CartView::Unsupported => false,
    }
}

/// The state after a write of `value` at `addr` with the host clock reading `now`.
pub open spec fn cart_write_at(c: CartView, addr: u16, value: u8, now: Option<u64>) -> CartView {
    match c {
        CartView::Mbc1(v) => CartView::Mbc1(mbc1_write_spec(v, addr, value).0),
        CartView::Mbc2(v) => CartView::Mbc2(mbc2_write_spec(v, addr, value).0),
        CartView::Mbc3(v) => CartView::Mbc3(mbc3_write_at(v, addr, value, now)),
        _ => c,
    }
}

/// The controller's invariant.
pub open spec fn cart_wf(c: CartView) -> bool {
    match c {
        CartView::Mbc1(v) => mbc1_wf(v),
        CartView::Mbc2(v) => mbc2_wf(v),
        CartView::Mbc3(v) => mbc3_wf(v),
        _ => true,
    }
}

/// The controller named by a cartridge header.
pub enum MbcType {
    NoController(MbcNone),
    Mbc1(Mbc1),
    Mbc2(Mbc2),
    Mbc3(Mbc3),
    Mbc5(Mbc5),
    HuC1(HuC1),
}

/// The cartridge type codes that the emulator supports.
pub open spec fn supported_code(code: u8) -> bool {
    code == 0x00 || (0x01 <= code <= 0x03) || code == 0x05 || code == 0x06 || (0x0f <= code
        <= 0x13) || (0x19 <= code <= 0x1e) || code == 0xff
}

/// The controller kind named by a cartridge type code: 0 none, 1 MBC1, 2 MBC2, 3 MBC3,
/// 5 MBC5, 6 HuC1.
pub open spec fn kind_of_code(code: u8) -> nat {
    if code == 0x00 {
        0
    } else if code <= 0x03 {
        1
    } else if code <= 0x06 {
        2
    } else if code <= 0x13 {
        3
    } else if code <= 0x1e {
        5
    } else {
        6
    }
}

impl MbcType {
    pub open spec fn kind(&self) -> nat {
        match self {
            MbcType::NoController(_) => 0,
            MbcType::Mbc1(_) => 1,
            MbcType::Mbc2(_) => 2,
            MbcType::Mbc3(_) => 3,
            MbcType::Mbc5(_) => 5,
            MbcType::HuC1(_) => 6,
        }
    }

    pub open spec fn wf(&self) -> bool {
        match self {
            MbcType::NoController(_) => true,
            MbcType::Mbc1(c) => mbc1_wf(c@),
            MbcType::Mbc2(c) => mbc2_wf(c@),
            MbcType::Mbc3(c) => mbc3_wf(c@),
            MbcType::Mbc5(_) => true,
            MbcType::HuC1(_) => true,
        }
    }

    /// Whether a read from `addr` is supported and stays inside the ROM image.
    pub open spec fn can_read(&self, addr: u16) -> bool {
        match self {
            MbcType::NoController(c) => addr <= 0x7fff ==> addr < c.rom().len(),
            MbcType::Mbc1(c) => mbc1_can_read(c@, addr),
            MbcType::Mbc2(c) => mbc2_can_read(c@, addr),
            MbcType::Mbc3(c) => mbc3_can_read(c@, addr),
            MbcType::Mbc5(_) => false,
            MbcType::HuC1(_) => false,
        }
    }

    /// Whether a write to `addr` is supported.
    pub open spec fn can_write(&self, addr: u16, value: u8) -> bool {
        match self {
            MbcType::NoController(_) => addr <= 0x7fff || 0xa000 <= addr <= 0xbfff,
            MbcType::Mbc1(_) => mbc1_can_write(addr, value),
            MbcType::Mbc2(_) => true,
            MbcType::Mbc3(c) => mbc3_can_write(c@, addr),
            MbcType::Mbc5(_) => false,
            MbcType::HuC1(_) => false,
        }
    }

    /// What a read from `addr` returns.
    pub open spec fn read_spec(&self, addr: u16) -> MemRead {
        match self {
            MbcType::NoController(c) => if addr <= 0x7fff {
                MemRead::Replace(c.rom()[addr as int])
            } else {
                MemRead::PassThrough
            },
            MbcType::Mbc1(c) => mbc1_read_spec(c@, addr),
            MbcType::Mbc2(c) => mbc2_read_spec(c@, addr),
            MbcType::Mbc3(c) => mbc3_read_spec(c@, addr),
            _ => MemRead::PassThrough,
        }
    }

    /// The controller's state.
    pub open spec fn cview(&self) -> CartView {
        match self {
            MbcType::NoController(c) => CartView::NoController(c.rom()),
            MbcType::Mbc1(c) => CartView::Mbc1(c@),
            MbcType::Mbc2(c) => CartView::Mbc2(c@),
            MbcType::Mbc3(c) => CartView::Mbc3(c@),
            _ => CartView::Unsupported,
        }
    }

    /// Whether a read of `addr` is supported and stays inside the ROM image.
    fn can_read_at(&self, addr: u16) -> (r: bool)
        requires
            self.wf(),
        ensures
            r == cart_can_read(self.cview(), addr),
    {
        match self {
            MbcType::NoController(c) => c.can_read(addr),
            MbcType::Mbc1(c) => c.can_read(addr),
            MbcType::Mbc2(c) => c.can_read(addr),
            MbcType::Mbc3(c) => c.can_read(addr),
            _ => false,
        }
    }

    /// Whether a write of `value` at `addr` is supported.
    fn can_write_at(&self, addr: u16, value: u8) -> (r: bool)
        ensures
            r == cart_can_write(self.cview(), addr, value),
    {
        match self {
            MbcType::NoController(_) => addr <= 0x7fff || (0xa000 <= addr && addr <= 0xbfff),
            MbcType::Mbc1(_) => (addr <= 0x7fff || (0xa000 <= addr && addr <= 0xbfff)) && !(0x6000
                <= addr && addr <= 0x7fff && value > 1),
            MbcType::Mbc2(_) => true,
            MbcType::Mbc3(c) => c.can_write(addr),
            _ => false,
        }
    }

    /// A write with the host clock reading `now` for the clock registers.
    fn on_write_at(&mut self, addr: u16, value: u8, now: Option<u64>)
        requires
            old(self).wf(),
            cart_can_write(old(self).cview(), addr, value),
        ensures
            final(self).wf(),
            final(self).cview() == cart_write_at(old(self).cview(), addr, value, now),
    {
        match self {
            MbcType::NoController(c) => {
                c.on_write(addr, value);
            },
            MbcType::Mbc1(c) => {
                c.on_write(addr, value);
            },
            MbcType::Mbc2(c) => {
                c.on_write(addr, value);
            },
            MbcType::Mbc3(c) => {
                c.on_write_at(addr, value, now);
            },
            _ => {},
        }
    }

    /// Whether the controller is the one freshly made over the ROM image `rom`: no controller
    /// or MBC1, MBC2 and MBC3 in their initial states (zeroed RAM, first banks, RAM off, clock
    /// registers zero; the MBC3 clock's start time is the host clock reading).
    pub open spec fn made_from(&self, rom: Seq<u8>) -> bool {
        match self {
            MbcType::NoController(c) => c.rom() == rom,
            MbcType::Mbc1(c) => c@ == (Mbc1View {
                rom: rom,
                ram: Seq::new(0x8000, |i: int| 0u8),
                rom_bank: 0,
                ram_bank: 0,
                ram_enable: false,
                ram_select: false,
            }),
            MbcType::Mbc2(c) => c@ == (Mbc2View {
                rom: rom,
                ram: Seq::new(0x200, |i: int| 0u8),
                rom_bank: 1,
                ram_enable: false,
            }),
            MbcType::Mbc3(c) => c@ == (Mbc3View {
                rom: rom,
                ram: Seq::new(0x8000, |i: int| 0u8),
                rom_bank: 0,
                enable: false,
                select: 0,
                rtc_secs: 0,
                rtc_mins: 0,
                rtc_hours: 0,
                rtc_day_low: 0,
                rtc_day_high: 0,
                epoch: c@.epoch,
                prelatch: false,
            }),
            MbcType::Mbc5(_) => true,
            MbcType::HuC1(_) => true,
        }
    }

    /// What a write of `value` at `addr` with result `r` does: the controller goes from this
    /// state to `after` as its own write specification says.
    pub open spec fn written(&self, after: &MbcType, addr: u16, value: u8, r: MemWrite) -> bool {
        match (*self, *after) {
            (MbcType::Mbc1(a), MbcType::Mbc1(b)) => (b@, r) == mbc1_write_spec(a@, addr, value),
            (MbcType::Mbc2(a), MbcType::Mbc2(b)) => (b@, r) == mbc2_write_spec(a@, addr, value),
            (MbcType::NoController(a), MbcType::NoController(b)) => b.rom() == a.rom() && r == (if addr
                <= 0x7fff {
                MemWrite::Block
            } else {
                MemWrite::PassThrough
            }),
            (MbcType::Mbc3(a), MbcType::Mbc3(b)) => r == MemWrite::Block && mbc3_written(
                a@,
                b@,
                addr,
                value,
            ),
            _ => false,
        }
    }

    fn new(code: u8, rom: Vec<u8>) -> (r: Self)
        requires
            supported_code(code),
        ensures
            r.wf(),
            r.kind() == kind_of_code(code),
            r.made_from(rom@),
    {
        if code == 0x00 {
            MbcType::NoController(MbcNone::new(rom))
        } else if code <= 0x03 {
            MbcType::Mbc1(Mbc1::new(rom))
        } else if code <= 0x06 {
            MbcType::Mbc2(Mbc2::new(rom))
        } else if code <= 0x13 {
            MbcType::Mbc3(Mbc3::new(rom))
        } else if code <= 0x1e {
            MbcType::Mbc5(Mbc5 { rom })
        } else {
            MbcType::HuC1(HuC1 { rom })
        }
    }

    fn on_read(&self, addr: u16) -> (r: MemRead)
        requires
            self.wf(),
            self.can_read(addr),
        ensures
            r == self.read_spec(addr),
    {
        match self {
            MbcType::NoController(c) => c.on_read(addr),
            MbcType::Mbc1(c) => c.on_read(addr),
            MbcType::Mbc2(c) => c.on_read(addr),
            MbcType::Mbc3(c) => c.on_read(addr),
            MbcType::Mbc5(_) => MemRead::PassThrough,
            MbcType::HuC1(_) => MemRead::PassThrough,
        }
    }

    fn on_write(&mut self, addr: u16, value: u8) -> (r: MemWrite)
        requires
            old(self).wf(),
            old(self).can_write(addr, value),
        ensures
            final(self).wf(),
            final(self).kind() == old(self).kind(),
            old(self).written(&*final(self), addr, value, r),
    {
        match self {
            MbcType::NoController(c) => c.on_write(addr, value),
            MbcType::Mbc1(c) => c.on_write(addr, value),
            MbcType::Mbc2(c) => c.on_write(addr, value),
            MbcType::Mbc3(c) => c.on_write(addr, value),
            MbcType::Mbc5(_) => MemWrite::Block,
            MbcType::HuC1(_) => MemWrite::Block,
        }
    }
}

// ---------------------------------------------------------------------------------------------
// Cartridge header
// ---------------------------------------------------------------------------------------------

/// The 16-bit sum of the ROM bytes, skipping the checksum bytes themselves (0x14e, 0x14f).
pub open spec fn rom_sum(rom: Seq<u8>, n: nat) -> nat
    decreases n,
{
    if n == 0 {
        0
    } else {
        let i = (n - 1) as nat;
        let prev = rom_sum(rom, i);
        if i == 0x14e || i == 0x14f {
            prev
        } else {
            ((prev + rom[i as int]) % 65536) as nat
        }
    }
}

/// Whether the global checksum stored in the header matches the ROM contents.
pub fn verify(rom: &[u8], checksum: u16) -> (r: bool)
    ensures
        r == (rom_sum(rom@, rom@.len()) == checksum),
{
    let mut sum: u16 = 0;
    let mut i: usize = 0;
    while i < rom.len()
        invariant
            i <= rom@.len(),
            sum == rom_sum(rom@, i as nat),
        decreases rom.len() - i,
    {
        if i != 0x14e && i != 0x14f {
            sum = sum.wrapping_add(rom[i] as u16);
        }
        i = i + 1;
    }
    sum == checksum
}

/// The printable part of a header text: bytes up to the first with bit 7 set, NULs as spaces.
pub open spec fn header_text(b: Seq<u8>) -> Seq<u8>
    decreases b.len(),
{
    if b.len() == 0 || b[0] & 0x80 != 0 {
        Seq::empty()
    } else {
        seq![if b[0] == 0 { 0x20u8 } else { b[0] }] + header_text(b.drop_first())
    }
}

proof fn lemma_header_text_step(b: Seq<u8>, i: nat)
    requires
        i < b.len(),
        forall|j: int| 0 <= j < i ==> b[j] & 0x80 == 0,
    ensures
        header_text(b) == (Seq::new(i, |j: int| if b[j] == 0 { 0x20u8 } else { b[j] }) + header_text(
            b.subrange(i as int, b.len() as int),
        )),
    decreases i,
{
    if i > 0 {
        let t = b.drop_first();
        assert forall|j: int| 0 <= j < (i - 1) implies t[j] & 0x80 == 0 by {
            assert(t[j] == b[j + 1]);
        }
        lemma_header_text_step(t, (i - 1) as nat);
        assert(t.subrange((i - 1) as int, t.len() as int) =~= b.subrange(i as int, b.len() as int));
        assert(Seq::new(i, |j: int| if b[j] == 0 { 0x20u8 } else { b[j] }) =~= seq![
            if b[0] == 0 { 0x20u8 } else { b[0] },
        ] + Seq::new((i - 1) as nat, |j: int| if t[j] == 0 { 0x20u8 } else { t[j] }));
    } else {
        assert(b.subrange(0, b.len() as int) =~= b);
    }
}

/// Extracts the printable header text from a byte range.
pub fn parse_str(b: &[u8]) -> (r: Vec<u8>)
    ensures
        r@ == header_text(b@),
{
    let mut out: Vec<u8> = Vec::new();
    let mut i: usize = 0;
    while i < b.len() && b[i] & 0x80 == 0
        invariant
            i <= b@.len(),
            forall|j: int| 0 <= j < i ==> b@[j] & 0x80 == 0,
            out@ == Seq::new(i as nat, |j: int| if b@[j] == 0 { 0x20u8 } else { b@[j] }),
        decreases b.len() - i,
    {
        out.push(
            if b[i] == 0x00 {
                0x20u8
            } else {
                b[i]
            },
        );
        i = i + 1;
        assert(out@ =~= Seq::new(i as nat, |j: int| if b@[j] == 0 { 0x20u8 } else { b@[j] }));
    }
    proof {
        if i < b@.len() {
            lemma_header_text_step(b@, i as nat);
            assert(header_text(b@.subrange(i as int, b@.len() as int)) =~= Seq::<u8>::empty()) by {
                let t = b@.subrange(i as int, b@.len() as int);
                assert(t[0] == b@[i as int]);
            }
            assert(header_text(b@) =~= out@);
        } else {
            lemma_header_text_all(b@);
            assert(header_text(b@) =~= out@);
        }
    }
    out
}

proof fn lemma_header_text_all(b: Seq<u8>)
    requires
        forall|j: int| 0 <= j < b.len() ==> b[j] & 0x80 == 0,
    ensures
        header_text(b) == Seq::new(b.len(), |j: int| if b[j] == 0 { 0x20u8 } else { b[j] }),
    decreases b.len(),
{
    if b.len() > 0 {
        let t = b.drop_first();
        assert forall|j: int| 0 <= j < t.len() implies t[j] & 0x80 == 0 by {
            assert(t[j] == b[j + 1]);
        }
        lemma_header_text_all(t);
        assert(Seq::new(b.len(), |j: int| if b[j] == 0 { 0x20u8 } else { b[j] }) =~= seq![
            if b[0] == 0 { 0x20u8 } else { b[0] },
        ] + Seq::new(t.len(), |j: int| if t[j] == 0 { 0x20u8 } else { t[j] }));
    } else {
        assert(Seq::new(b.len(), |j: int| if b[j] == 0 { 0x20u8 } else { b[j] }) =~= Seq::<
            u8,
        >::empty());
    }
}

/// The cartridge header and its bank controller.
pub struct Cartridge {
    pub title: Vec<u8>,
    pub cgb: bool,
    pub cgb_only: bool,
    pub license_new: Vec<u8>,
    pub license_old: u8,
    pub sgb: bool,
    pub mbc: MbcType,
    pub rom_size: u8,
    pub ram_size: u8,
    pub dstcode: u8,
    pub rom_version: u8,
    pub rom_checksum: u16,
    pub checksum_ok: bool,
}

/// Whether a ROM image has a full header naming a supported controller.
pub open spec fn valid_rom(rom: Seq<u8>) -> bool {
    rom.len() >= 0x150 && supported_code(rom[0x147])
}

/// Whether a ROM image has a full header naming a supported controller, the condition for
/// [`Cartridge::new`].
pub fn is_valid_rom(rom: &[u8]) -> (r: bool)
    ensures
        r == valid_rom(rom@),
{
    if rom.len() < 0x150 {
        return false;
    }
    let code = rom[0x147];
    code == 0x00 || (0x01 <= code && code <= 0x03) || code == 0x05 || code == 0x06 || (0x0f <= code
        && code <= 0x13) || (0x19 <= code && code <= 0x1e) || code == 0xff
}

impl Cartridge {
    pub fn new(rom: Vec<u8>) -> (r: Self)
        requires
            valid_rom(rom@),
        ensures
            r.mbc.wf(),
            r.mbc.kind() == kind_of_code(rom@[0x147]),
            r.mbc.made_from(rom@),
            r.rom_checksum == rom@[0x14e] as u16 * 256 + rom@[0x14f] as u16,
            r.checksum_ok == (rom_sum(rom@, rom@.len()) == r.rom_checksum),
            r.title@ == header_text(rom@.subrange(0x134, 0x144)),
            r.license_new@ == header_text(rom@.subrange(0x144, 0x146)),
            r.cgb == (rom@[0x143] & 0x80 != 0),
            r.cgb_only == (rom@[0x143] == 0xc0),
            r.license_old == rom@[0x14b],
            r.sgb == (rom@[0x146] == 0x03),
            r.rom_size == rom@[0x148],
            r.ram_size == rom@[0x149],
            r.dstcode == rom@[0x14a],
            r.rom_version == rom@[0x14c],
    {
        let hi = rom[0x14e];
        let lo = rom[0x14f];
        assert((hi as u16) << 8u16 | (lo as u16) == hi as u16 * 256 + lo as u16) by (bit_vector);
        let checksum = (rom[0x14e] as u16) << 8u16 | (rom[0x14f] as u16);
        let checksum_ok = verify(rom.as_slice(), checksum);
        let title = parse_str(slice_range(rom.as_slice(), 0x134, 0x144));
        let license_new = parse_str(slice_range(rom.as_slice(), 0x144, 0x146));
        let cgb = rom[0x143] & 0x80 != 0;
        let cgb_only = rom[0x143] == 0xc0;
        let license_old = rom[0x14b];
        let sgb = rom[0x146] == 0x03;
        let code = rom[0x147];
        let rom_size = rom[0x148];
        let ram_size = rom[0x149];
        let dstcode = rom[0x14a];
        let rom_version = rom[0x14c];
        let mbc = MbcType::new(code, rom);
        Self {
            title,
            cgb,
            cgb_only,
            license_new,
            license_old,
            sgb,
            mbc,
            rom_size,
            ram_size,
            dstcode,
            rom_version,
            rom_checksum: checksum,
            checksum_ok,
        }
    }
}

/// `&s[start..end]`.
fn slice_range(s: &[u8], start: usize, end: usize) -> (r: &[u8])
    requires
        start <= end <= s@.len(),
    ensures
        r@ == s@.subrange(start as int, end as int),
{
    let (_, tail) = s.split_at(start);
    let (mid, _) = tail.split_at(end - start);
    assert(mid@ =~= s@.subrange(start as int, end as int));
    mid
}

// ---------------------------------------------------------------------------------------------
// The cartridge slot with the boot ROM
// ---------------------------------------------------------------------------------------------

/// The cartridge slot: the boot ROM overlays 0x0000-0x00ff until it is switched off by a
/// write to 0xff50.
pub struct Mbc {
    cartridge: Cartridge,
    boot_rom: Vec<u8>,
    use_boot_rom: bool,
}

impl Mbc {
    pub closed spec fn cartridge(&self) -> &Cartridge {
        &self.cartridge
    }

    pub closed spec fn boot_rom(&self) -> Seq<u8> {
        self.boot_rom@
    }

    pub closed spec fn use_boot_rom(&self) -> bool {
        self.use_boot_rom
    }

    /// Inserts a cartridge with the given boot ROM (256 bytes) mapped in.
    pub fn new(rom: Vec<u8>, boot_rom: Vec<u8>) -> (r: Self)
        requires
            valid_rom(rom@),
            boot_rom@.len() >= 0x100,
        ensures
            r.use_boot_rom(),
            r.boot_rom() == boot_rom@,
            r.cartridge().mbc.wf(),
            r.cartridge().mbc.kind() == kind_of_code(rom@[0x147]),
            r.cartridge().mbc.made_from(rom@),
    {
        let cartridge = Cartridge::new(rom);
        Self { cartridge, boot_rom, use_boot_rom: true }
    }

    /// A CPU read from the cartridge area.
    pub fn on_read(&self, addr: u16) -> (r: MemRead)
        requires
            self.boot_rom().len() >= 0x100,
            self.cartridge().mbc.wf(),
            !(self.use_boot_rom() && addr < 0x100) ==> self.cartridge().mbc.can_read(addr),
        ensures
            r == (if self.use_boot_rom() && addr < 0x100 {
                MemRead::Replace(self.boot_rom()[addr as int])
            } else {
                self.cartridge().mbc.read_spec(addr)
            }),
    {
        if self.use_boot_rom && addr < 0x100 {
            MemRead::Replace(self.boot_rom[addr as usize])
        } else {
            self.cartridge.mbc.on_read(addr)
        }
    }

    /// Whether a read of `addr` is served: by the boot ROM, or by a cartridge read that is
    /// supported and stays inside the image.
    pub fn can_read_at(&self, addr: u16) -> (r: bool)
        requires
            self.cartridge().mbc.wf(),
        ensures
            r == ((self.use_boot_rom() && addr < 0x100) || cart_can_read(
                self.cartridge().mbc.cview(),
                addr,
            )),
    {
        (self.use_boot_rom && addr < 0x100) || self.cartridge.mbc.can_read_at(addr)
    }

    /// Whether a write of `value` at `addr` reaches a cartridge that supports it.
    pub fn can_write_at(&self, addr: u16, value: u8) -> (r: bool)
        ensures
            r == (!(self.use_boot_rom() && addr < 0x100) && cart_can_write(
                self.cartridge().mbc.cview(),
                addr,
                value,
            )),
    {
        !(self.use_boot_rom && addr < 0x100) && self.cartridge.mbc.can_write_at(addr, value)
    }

    /// Whether the boot ROM is mapped at 0x0000-0x00ff.
    pub fn boot_mapped(&self) -> (r: bool)
        ensures
            r == self.use_boot_rom(),
    {
        self.use_boot_rom
    }

    /// Whether a cartridge write at `addr` goes on to the memory behind the cartridge: RAM
    /// writes of a cartridge without a controller.
    pub fn passes_write(&self, addr: u16) -> (r: bool)
        ensures
            r == (self.cartridge().mbc.cview() is NoController && 0xa000 <= addr <= 0xbfff),
    {
        match &self.cartridge.mbc {
            MbcType::NoController(_) => 0xa000 <= addr && addr <= 0xbfff,
            _ => false,
        }
    }

    /// A CPU write to the cartridge area with the host clock reading `now` for the clock
    /// registers of an MBC3.
    pub fn on_write_at(&mut self, addr: u16, value: u8, now: Option<u64>)
        requires
            old(self).cartridge().mbc.wf(),
            !(old(self).use_boot_rom() && addr < 0x100),
            cart_can_write(old(self).cartridge().mbc.cview(), addr, value),
        ensures
            final(self).cartridge().mbc.wf(),
            final(self).cartridge().mbc.cview() == cart_write_at(
                old(self).cartridge().mbc.cview(),
                addr,
                value,
                now,
            ),
            final(self).boot_rom() == old(self).boot_rom(),
            final(self).use_boot_rom() == old(self).use_boot_rom(),
    {
        self.cartridge.mbc.on_write_at(addr, value, now);
    }

    /// A CPU write to the cartridge area or to 0xff50 (boot ROM switch).
    pub fn on_write(&mut self, addr: u16, value: u8) -> (r: MemWrite)
        requires
            old(self).cartridge().mbc.wf(),
            !(old(self).use_boot_rom() && addr < 0x100),
            addr != 0xff50 ==> old(self).cartridge().mbc.can_write(addr, value),
        ensures
            final(self).cartridge().mbc.wf(),
            final(self).boot_rom() == old(self).boot_rom(),
            addr == 0xff50 ==> !final(self).use_boot_rom() && r == MemWrite::Block
                && final(self).cartridge() == old(self).cartridge(),
            addr != 0xff50 ==> final(self).use_boot_rom() == old(self).use_boot_rom(),
            addr != 0xff50 ==> old(self).cartridge().mbc.written(
                &final(self).cartridge().mbc,
                addr,
                value,
                r,
            ),
            addr != 0xff50 ==> *final(self).cartridge() == (Cartridge {
                mbc: final(self).cartridge().mbc,
                ..*old(self).cartridge()
            }),
    {
        if addr == 0xff50 {
            self.use_boot_rom = false;
            MemWrite::Block
        } else {
            self.cartridge.mbc.on_write(addr, value)
        }
    }
}

/// Once the boot ROM is switched off, reads of 0x0000-0x00ff go to the cartridge.
pub proof fn lemma_boot_rom_unmapped(m: Mbc, addr: u16)
    requires
        !m.use_boot_rom(),
    ensures
        !(m.use_boot_rom() && addr < 0x100),
{
}

/// An MBC1 write to 0x2000-0x3fff replaces the low five bits of the ROM bank number with the
/// low five bits of the value and keeps the upper bits; when those five bits are not all 0,
/// a read at 0x4000 + `o` then returns the byte at that bank's offset `o`.
pub proof fn lemma_mbc1_rom_bank_select(v: Mbc1View, addr: u16, value: u8, o: u16)
    requires
        mbc1_wf(v),
        0x2000 <= addr <= 0x3fff,
        o < 0x4000,
    ensures
        mbc1_write_spec(v, addr, value).0.rom_bank == (v.rom_bank / 32) * 32 + value % 32,
        value % 32 != 0 ==> mbc1_read_spec(
            mbc1_write_spec(v, addr, value).0,
            (0x4000 + o) as u16,
        ) == MemRead::Replace(v.rom[((v.rom_bank / 32) * 32 + value % 32) * 0x4000 + o]),
{
    let b = v.rom_bank;
    assert((b & !0x1fusize) | (value as usize & 0x1f) == (b / 32) * 32 + (value as usize) % 32)
        by (bit_vector)
        requires
            b <= 0x7f,
    ;
}

/// MBC1 never maps bank 0 (or 0x20, 0x40, 0x60) at 0x4000-0x7fff.
pub proof fn lemma_mbc1_bank_never_zero(rom_bank: usize)
    requires
        rom_bank <= 0x7f,
    ensures
        mbc1_effective_bank(rom_bank) != 0,
        mbc1_effective_bank(rom_bank) != 0x20,
        mbc1_effective_bank(rom_bank) != 0x40,
        mbc1_effective_bank(rom_bank) != 0x60,
{
}

/// With RAM enabled, an MBC1 RAM read returns what the last write to that address stored.
pub proof fn lemma_mbc1_ram_read_after_write(v: Mbc1View, addr: u16, b: u16, value: u8)
    requires
        mbc1_wf(v),
        v.ram_enable,
        0xa000 <= addr <= 0xbfff,
        0xa000 <= b <= 0xbfff,
    ensures
        mbc1_read_spec(mbc1_write_spec(v, addr, value).0, b) == (if addr == b {
            MemRead::Replace(value)
        } else {
            mbc1_read_spec(v, b)
        }),
{
}

} // verus!
