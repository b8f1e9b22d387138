//! A Game Boy emulator core: CPU arithmetic, timers, interrupt control,
//! memory bank controllers, and the audio processing unit.
use vstd::prelude::*;

pub mod alu;
pub mod apu;
pub mod bits;
pub mod clock;
pub mod cgb;
pub mod codegen;
pub mod cpu;
pub mod divider;
pub mod dma;
pub mod fc;
pub mod gpu;
pub mod hardware;
pub mod hram;
pub mod inst;
pub mod ic;
pub mod joypad;
pub mod mbc;
pub mod mmu;
pub mod mnem;
pub mod serial;
pub mod sound;
pub mod system;
pub mod timer;
pub mod watch;

verus! {


} // verus!
