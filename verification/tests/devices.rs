use rgy::cgb::Cgb;
use rgy::dma::Dma;
use rgy::fc::FreqControl;
use rgy::ic::{Ic, Irq};
use rgy::joypad::{Joypad, Keys};
use rgy::mmu::{MemRead, MemWrite};
use rgy::serial::Serial;
use rgy::system::Config;
use rgy::timer::Timer;

fn no_keys() -> Keys {
    Keys { right: false, left: false, up: false, down: false, a: false, b: false, select: false, start: false }
}

#[test]
fn interrupts_served_by_priority() {
    let mut ic = Ic::new(Irq::new());
    ic.write_enabled(0x1f);
    ic.irq().timer(true);
    ic.irq().vblank(true);
    assert_eq!(ic.read_flags(), 0xe5);
    assert_eq!(ic.peek(), Some(0x40));
    assert_eq!(ic.pop(), Some(0x40));
    assert_eq!(ic.pop(), Some(0x50));
    assert_eq!(ic.pop(), None);
    assert_eq!(ic.read_flags(), 0xe0);
}

#[test]
fn disabled_interrupt_is_not_served() {
    let mut ic = Ic::new(Irq::new());
    ic.write_enabled(0x04);
    ic.write_flags(0x01);
    assert_eq!(ic.pop(), None);
    assert_eq!(ic.read_enabled(), 0x04);
    ic.write_flags(0xff);
    assert_eq!(ic.read_flags(), 0xff);
    assert_eq!(ic.pop(), Some(0x50));
}

#[test]
fn dma_copies_160_bytes() {
    let mut dma = Dma::new();
    assert!(dma.step(4).is_none());
    dma.start(0xc1);
    let r = dma.step(40).expect("a transfer");
    assert_eq!(r.src(), 0xc100);
    assert_eq!(r.dst(), 0xfe00);
    assert_eq!(r.len(), 10);
    let r = dma.step(1000).expect("the rest");
    assert_eq!(r.src(), 0xc10a);
    assert_eq!(r.len(), 150);
    assert!(dma.step(4).is_none());
    assert_eq!(dma.read(), 0xff);
}

#[test]
fn speed_switch_needs_request() {
    let mut cgb = Cgb::new();
    cgb.try_switch_speed();
    assert!(!cgb.double_speed());
    cgb.write_speed_switch(0x01);
    assert_eq!(cgb.read_speed_switch(), 0x01);
    cgb.try_switch_speed();
    assert!(cgb.double_speed());
    assert_eq!(cgb.read_speed_switch(), 0x80);
}

#[test]
fn joypad_reads_selected_group() {
    let mut j = Joypad::new();
    let mut keys = no_keys();
    keys.a = true;
    keys.down = true;
    assert_eq!(j.on_read(0xff00, keys), MemRead::Replace(0x0f));
    assert_eq!(j.on_write(0xff00, 0x20), MemWrite::PassThrough);
    assert_eq!(j.on_read(0xff00, keys), MemRead::Replace(0x07));
    j.on_write(0xff00, 0x10);
    assert_eq!(j.on_read(0xff00, keys), MemRead::Replace(0x0e));
    assert_eq!(j.on_read(0xff01, keys), MemRead::PassThrough);
}

#[test]
fn serial_internal_transfer() {
    let mut s = Serial::new();
    let mut irq = Irq::new();
    s.set_data(0x42);
    assert_eq!(s.set_ctrl(0x81), Some(0x42));
    s.receive(None);
    assert_eq!(s.step(4000, &mut irq, None), None);
    assert_eq!(s.get_ctrl(), 0x81);
    assert!(!irq.request.serial);
    s.step(200, &mut irq, None);
    assert_eq!(s.get_data(), 0xff);
    assert_eq!(s.get_ctrl(), 0x01);
    assert!(irq.request.serial);
}

#[test]
fn serial_external_transfer_waits_for_byte() {
    let mut s = Serial::new();
    let mut irq = Irq::new();
    s.set_data(0x11);
    assert_eq!(s.set_ctrl(0x80), None);
    assert!(s.wants_byte());
    assert_eq!(s.step(4, &mut irq, None), None);
    assert_eq!(s.step(4, &mut irq, Some(0x22)), Some(0x11));
    assert_eq!(s.get_data(), 0x22);
    assert!(!s.wants_byte());
    assert!(irq.request.serial);
}

#[test]
fn governor_grants_cycles_by_elapsed_time() {
    let cfg = Config::new().freq(1_000_000).delay_unit(10);
    let mut fc = FreqControl::new(&cfg);
    fc.reset(1000);
    fc.try_fill(1005);
    assert!(!fc.consume(1));
    fc.try_fill(1100);
    assert_eq!(fc.remaining_cycles, 100);
    assert!(fc.consume(60));
    assert!(!fc.consume(60));
    assert!(fc.consume(40));
    assert_eq!(fc.remaining_cycles, 0);
}

#[test]
fn timer_registers() {
    let mut t = Timer::new();
    let mut irq = Irq::new();
    t.on_write(0xff06, 0xfe);
    t.on_write(0xff05, 0xff);
    t.on_write(0xff07, 0x05);
    assert_eq!(t.on_read(0xff06), 0xfe);
    assert_eq!(t.on_read(0xff07), 0x05);
    assert_eq!(t.on_read(0xff05), 0xff);
    // 262144 Hz: one tick every 16 CPU cycles.
    t.step(16, &mut irq);
    assert!(irq.request.timer);
    assert_eq!(t.on_read(0xff05), 0xfe);
}
