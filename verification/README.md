# rgy

A Game Boy emulator core whose logic is verified with Verus.

- `src/` is the library: the CPU registers, instruction set and execution step (`cpu`,
  `inst`, `alu`, `mnem`), the memory bus (`mmu`: the `Mmu` that routes every CPU access to
  the device behind its address and runs the devices cycle by cycle, specified over
  `MmuView` by `mmu_read_spec`, `mmu_write_spec` and `mmu_run`), `hram`, `mbc`, the devices on
  the bus (`gpu`, `timer`, `divider`, `dma`, `ic`, `joypad`, `serial`, `cgb`), the audio
  units (`apu`, `sound`) and their clocks (`clock`), the speed governor (`fc`), the emulation step (`system`), the helpers
  of the instruction table generator (`codegen`), and the debugger's watch points
  (`watch`). Every function in it carries a contract that Verus proves, but for three
  trusted wrappers that read the host clock for the cartridge's real-time clock.
  Properties that span several calls are stated as `lemma_*` proof functions next to the
  code they speak of.
- `tests/` runs the library on concrete values.
- `app/` is the command-line front end: argument parsing, loading the ROM, and the run
  loop, which carries display lines, keys, link cable bytes and clock readings between the
  bus and the host, and waits for the speed governor.

The instruction set is specified opcode by opcode in `inst` (`decoded`); the proofs there
show that each instruction consumes exactly the cycles it reports and that the low four
bits of the flag register stay clear.
