//! High RAM.
use vstd::prelude::*;

verus! {

/// Handles high ram access between 0xff80 - 0xfffe
pub struct Hram {
    bank: [u8; 0x7f],
}

impl View for Hram {
    type V = Seq<u8>;

    closed spec fn view(&self) -> Seq<u8> {
        self.bank@
    }
}

impl Hram {
    pub fn new() -> (r: Self)
        ensures
            r@ == Seq::new(0x7f, |i: int| 0u8),
    {
        let r = Self { bank: [0; 0x7f] };
        assert(r@ =~= Seq::new(0x7f, |i: int| 0u8));
        r
    }

    pub fn get8(&self, addr: u16) -> (r: u8)
        requires
            0xff80 <= addr <= 0xfffe,
        ensures
            r == self@[addr - 0xff80],
    {
        self.bank[addr as usize - 0xff80]
    }

    pub fn set8(&mut self, addr: u16, v: u8)
        requires
            0xff80 <= addr <= 0xfffe,
        ensures
            final(self)@ == old(self)@.update(addr - 0xff80, v),
    {
        self.bank[addr as usize - 0xff80] = v;
    }
}

/// A read gives back the last value written to that address, and a write leaves every other
/// address unchanged.
pub proof fn lemma_hram_read_after_write(m: Seq<u8>, a: u16, b: u16, v: u8)
    requires
        m.len() == 0x7f,
        0xff80 <= a <= 0xfffe,
        0xff80 <= b <= 0xfffe,
    ensures
        m.update(a - 0xff80, v)[b - 0xff80] == (if a == b {
            v
        } else {
            m[b - 0xff80]
        }),
{
}

} // verus!
