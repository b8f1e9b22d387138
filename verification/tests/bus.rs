use rgy::cpu::{Cpu, Sys};
use rgy::joypad::Keys;
use rgy::mmu::{io_read_port, io_write_port, region, IoPort, Mmu, Region};
use rgy::system::{Config, System};
use rgy::watch::{WatchOutcome, Watches};

#[test]
fn memory_map_regions() {
    assert_eq!(region(0x0000), Region::Cartridge);
    assert_eq!(region(0x7fff), Region::Cartridge);
    assert_eq!(region(0x8000), Region::Vram);
    assert_eq!(region(0xa123), Region::Cartridge);
    assert_eq!(region(0xc000), Region::Wram);
    assert_eq!(region(0xe000), Region::Wram);
    assert_eq!(region(0xfe9f), Region::Oam);
    assert_eq!(region(0xfea0), Region::Unusable);
    assert_eq!(region(0xff0f), Region::Io);
    assert_eq!(region(0xff80), Region::Hram);
    assert_eq!(region(0xffff), Region::InterruptEnable);
}

#[test]
fn io_registers_route_to_devices() {
    assert_eq!(io_read_port(0xff00), IoPort::Joypad);
    assert_eq!(io_read_port(0xff01), IoPort::SerialData);
    assert_eq!(io_read_port(0xff02), IoPort::SerialCtrl);
    assert_eq!(io_read_port(0xff03), IoPort::Unsupported);
    assert_eq!(io_read_port(0xff05), IoPort::Timer);
    assert_eq!(io_read_port(0xff0f), IoPort::InterruptFlags);
    assert_eq!(io_read_port(0xff26), IoPort::Sound);
    assert_eq!(io_read_port(0xff40), IoPort::Gpu);
    assert_eq!(io_read_port(0xff50), IoPort::Gpu);
    assert_eq!(io_write_port(0xff50), IoPort::BootRomOff);
    assert_eq!(io_write_port(0xff6c), IoPort::Unsupported);
}

#[test]
fn watch_points_add_and_remove() {
    let mut w = Watches::new();
    assert_eq!(w.add(0xc000, true, true), None);
    assert!(!w.watches_read(0xc000));
    assert_eq!(
        w.add(0xc000, false, false),
        Some(WatchOutcome { read: Some(true), write: Some(true) })
    );
    assert_eq!(
        w.add(0xc000, true, false),
        Some(WatchOutcome { read: Some(false), write: None })
    );
    assert!(w.watches_read(0xc000) && w.watches_write(0xc000));
    assert_eq!(
        w.remove(0xc000, true, false),
        Some(WatchOutcome { read: Some(true), write: None })
    );
    assert!(!w.watches_read(0xc000) && w.watches_write(0xc000));
    assert_eq!(
        w.remove(0xc000, false, false),
        Some(WatchOutcome { read: Some(false), write: Some(true) })
    );
    assert!(!w.watches_write(0xc000));
}

fn rom_image() -> Vec<u8> {
    let mut rom = vec![0u8; 0x8000];
    rom[0x0100] = 0xaa;
    rom[0x0147] = 0x00;
    rom
}

fn boot_image() -> Vec<u8> {
    let mut boot = vec![0u8; 0x100];
    boot[0] = 0x31;
    boot
}

fn bus() -> Mmu {
    Mmu::new(rom_image(), boot_image())
}

#[test]
fn bus_boot_rom_then_cartridge() {
    let mut m = bus();
    assert_eq!(m.read8(0x0000), 0x31);
    assert_eq!(m.read8(0x0100), 0xaa);
    m.write8(0xff50, 1);
    assert_eq!(m.read8(0x0000), 0x00);
    assert_eq!(m.read8(0x0100), 0xaa);
}

#[test]
fn bus_ram_reads_back_writes() {
    let mut m = bus();
    m.write8(0xc010, 0x12);
    assert_eq!(m.read8(0xc010), 0x12);
    // echo RAM mirrors work RAM
    assert_eq!(m.read8(0xe010), 0x12);
    m.write8(0xff90, 0x34);
    assert_eq!(m.read8(0xff90), 0x34);
    m.write8(0xfe05, 0x56);
    assert_eq!(m.read8(0xfe05), 0x56);
    // cartridge RAM of a cartridge without a controller is plain memory
    m.write8(0xa000, 0x78);
    assert_eq!(m.read8(0xa000), 0x78);
    // writes to ROM are ignored
    m.write8(0x0150, 0x99);
    assert_eq!(m.read8(0x0150), 0x00);
}

#[test]
fn bus_unusable_and_unsupported_read_high() {
    let mut m = bus();
    assert_eq!(m.read8(0xfea0), 0xff);
    m.write8(0xfea0, 0x00);
    assert_eq!(m.read8(0xfea0), 0xff);
    assert_eq!(m.read8(0xff03), 0xff);
}

#[test]
fn bus_interrupt_registers() {
    let mut m = bus();
    m.write8(0xffff, 0x05);
    assert_eq!(m.read8(0xffff), 0x05);
    m.write8(0xff0f, 0x04);
    assert_eq!(m.read8(0xff0f), 0xe4);
    assert_eq!(m.peek_int_vec(), Some(0x50));
    assert_eq!(m.pop_int_vec(), Some(0x50));
    assert_eq!(m.read8(0xff0f), 0xe0);
    assert_eq!(m.pop_int_vec(), None);
}

#[test]
fn bus_joypad_reports_keys() {
    let mut m = bus();
    m.set_keys(Keys { right: false, left: false, up: false, down: false, a: true, b: false, select: false, start: true });
    m.write8(0xff00, 0x10);
    assert_eq!(m.read8(0xff00), 0x06);
}

#[test]
fn bus_oam_dma_copies_160_bytes() {
    let mut m = bus();
    for i in 0..160u16 {
        m.write8(0xc100 + i, (i as u8) ^ 0x5a);
    }
    m.write8(0xff46, 0xc1);
    m.step(320);
    // half the transfer is done after 80 machine cycles
    assert_eq!(m.read8(0xfe00 + 79), 79 ^ 0x5a);
    assert_eq!(m.read8(0xfe00 + 80), 0);
    m.step(320);
    for i in 0..160u16 {
        assert_eq!(m.read8(0xfe00 + i), (i as u8) ^ 0x5a);
    }
}

#[test]
fn bus_timer_counts_and_interrupts() {
    let mut m = bus();
    m.write8(0xff05, 0xff);
    m.write8(0xff06, 0x80);
    m.write8(0xff07, 0x05); // on, 262144 Hz: a tick every 16 cycles
    m.step(16);
    assert_eq!(m.read8(0xff05), 0x80);
    assert_eq!(m.read8(0xff0f) & 0x04, 0x04);
    m.step(256);
    assert_eq!(m.read8(0xff04), 1);
}

#[test]
fn bus_serial_internal_transfer() {
    let mut m = bus();
    m.set_incoming(Some(0x42));
    m.write8(0xff01, 0x55);
    m.write8(0xff02, 0x81);
    assert_eq!(m.take_sent(), vec![0x55]);
    assert_eq!(m.take_sent(), Vec::<u8>::new());
    m.step(4096);
    assert_eq!(m.read8(0xff02) & 0x80, 0x80);
    m.step(4);
    assert_eq!(m.read8(0xff01), 0x42);
    assert_eq!(m.read8(0xff02) & 0x80, 0);
    assert_eq!(m.read8(0xff0f) & 0x08, 0x08);
}

#[test]
fn bus_serial_external_transfer_waits_for_other_end() {
    let mut m = bus();
    m.write8(0xff01, 0x11);
    m.write8(0xff02, 0x80);
    assert!(m.link_waiting());
    m.step(1000);
    assert_eq!(m.read8(0xff02), 0x80);
    m.set_incoming(Some(0x22));
    m.step(4);
    assert_eq!(m.take_sent(), vec![0x11]);
    assert_eq!(m.read8(0xff01), 0x22);
    assert!(!m.link_waiting());
}

#[test]
fn bus_draws_lines_for_the_display() {
    let mut m = bus();
    m.write8(0xff40, 0x91);
    assert!(m.take_line().is_none());
    // 204 cycles of H-blank, 80 of OAM search, 172 of transfer: line 1 is drawn
    m.step(456);
    let (n, buf) = m.take_line().expect("a line");
    assert_eq!(n, 1);
    assert_eq!(buf.len(), 160);
    assert!(m.take_line().is_none());
    assert_eq!(m.read8(0xff44), 1);
}

#[test]
fn system_runs_a_program_from_the_boot_rom() {
    // ld a,0x12; ld (0xc000),a; ld a,0x01; ld (0xff50),a
    let mut boot = vec![0u8; 0x100];
    boot[..10].copy_from_slice(&[0x3e, 0x12, 0xea, 0x00, 0xc0, 0x3e, 0x01, 0xea, 0x50, 0xff]);
    let m = Mmu::new(rom_image(), boot);
    let mut sys = System::new(Config::new().native_speed(true), Cpu::new(m), 0);
    for _ in 0..4 {
        assert!(sys.poll(true));
    }
    assert_eq!(sys.cpu.sys().read8(0xc000), 0x12);
    assert_eq!(sys.cpu.sys().read8(0x0000), 0x00);
    assert_eq!(sys.cpu.get_pc(), 10);
    assert!(!sys.poll(false));
}

#[test]
fn bus_running_devices_keeps_memory() {
    let mut m = bus();
    m.write8(0xc123, 0x9a);
    m.write8(0xfffe, 0x3c);
    m.write8(0xff40, 0x91);
    m.write8(0xff07, 0x05);
    m.step(70224);
    assert_eq!(m.read8(0xc123), 0x9a);
    assert_eq!(m.read8(0xfffe), 0x3c);
    assert_eq!(m.read8(0x0000), 0x31);
}
