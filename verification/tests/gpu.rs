use rgy::gpu::{Color, Gpu};
use rgy::ic::Irq;
use rgy::mmu::MemRead;

fn read(g: &Gpu, addr: u16) -> u8 {
    match g.on_read(addr) {
        MemRead::Replace(v) => v,
        MemRead::PassThrough => panic!("pass through"),
    }
}

fn lcd_on(g: &mut Gpu, irq: &mut Irq, ctrl: u8) {
    g.on_write(0xff40, ctrl, irq);
}

#[test]
fn lcd_registers_read_back() {
    let mut g = Gpu::new();
    let mut irq = Irq::new();
    g.on_write(0xff42, 0x12, &mut irq);
    g.on_write(0xff43, 0x34, &mut irq);
    g.on_write(0xff45, 0x05, &mut irq);
    g.on_write(0xff4a, 0x40, &mut irq);
    g.on_write(0xff4b, 0x07, &mut irq);
    assert_eq!(read(&g, 0xff42), 0x12);
    assert_eq!(read(&g, 0xff43), 0x34);
    assert_eq!(read(&g, 0xff45), 0x05);
    assert_eq!(read(&g, 0xff4a), 0x40);
    assert_eq!(read(&g, 0xff4b), 0x07);
    lcd_on(&mut g, &mut irq, 0xd7);
    assert_eq!(read(&g, 0xff40), 0xd7);
    // Mode 0 (H-blank) after switching on; LY (0) differs from LYC (5).
    g.on_write(0xff41, 0x48, &mut irq);
    assert_eq!(read(&g, 0xff41), 0x48);
}

#[test]
fn palette_register_round_trips() {
    let mut g = Gpu::new();
    let mut irq = Irq::new();
    assert_eq!(read(&g, 0xff47), 0xe4);
    g.on_write(0xff47, 0x1b, &mut irq);
    assert_eq!(read(&g, 0xff47), 0x1b);
    g.on_write(0xff48, 0x00, &mut irq);
    assert_eq!(read(&g, 0xff48), 0x00);
}

#[test]
fn vram_reads_back_in_selected_bank() {
    let mut g = Gpu::new();
    let mut irq = Irq::new();
    g.on_write(0x8000, 0xaa, &mut irq);
    g.on_write(0xff4f, 1, &mut irq);
    assert_eq!(read(&g, 0x8000), 0x00);
    g.on_write(0x8000, 0x55, &mut irq);
    assert_eq!(read(&g, 0x8000), 0x55);
    g.on_write(0xff4f, 0, &mut irq);
    assert_eq!(read(&g, 0x8000), 0xaa);
}

#[test]
fn color_palette_auto_increment() {
    let mut g = Gpu::new();
    let mut irq = Irq::new();
    g.on_write(0xff68, 0x80, &mut irq);
    g.on_write(0xff69, 0xff, &mut irq);
    g.on_write(0xff69, 0x7f, &mut irq);
    g.on_write(0xff68, 0x00, &mut irq);
    assert_eq!(read(&g, 0xff69), 0xff);
    g.on_write(0xff68, 0x01, &mut irq);
    assert_eq!(read(&g, 0xff69), 0x7f);
    assert_eq!(g.on_read(0xff68), MemRead::PassThrough);
}

#[test]
fn renders_background_and_sprite() {
    let mut g = Gpu::new();
    let mut irq = Irq::new();
    // Background and sprites on, tiles at 0x8000, map at 0x9800.
    lcd_on(&mut g, &mut irq, 0x93);
    // Tile 0, row 0: color 1 everywhere.
    g.on_write(0x8000, 0xff, &mut irq);
    g.on_write(0x8001, 0x00, &mut irq);
    // Tile 1, row 0: color 2 everywhere.
    g.on_write(0x8010, 0x00, &mut irq);
    g.on_write(0x8011, 0xff, &mut irq);
    let mut oam = vec![0u8; 160];
    oam[0] = 16;
    oam[1] = 8;
    oam[2] = 1;
    oam[3] = 0;
    let line = g.draw(&oam);
    assert_eq!(line.len(), 160);
    for x in 0..8 {
        assert_eq!(line[x], 0x888888);
    }
    for x in 8..160 {
        assert_eq!(line[x], 0xaaaaaa);
    }
}

#[test]
fn sprite_behind_background_stays_hidden() {
    let mut g = Gpu::new();
    let mut irq = Irq::new();
    lcd_on(&mut g, &mut irq, 0x93);
    g.on_write(0x8000, 0xff, &mut irq);
    g.on_write(0x8011, 0xff, &mut irq);
    let mut oam = vec![0u8; 160];
    oam[0] = 16;
    oam[1] = 8;
    oam[2] = 1;
    oam[3] = 0x80;
    let line = g.draw(&oam);
    assert_eq!(line[0], 0xaaaaaa);
}

#[test]
fn mode_machine_draws_each_line() {
    let mut g = Gpu::new();
    let mut irq = Irq::new();
    let oam = vec![0u8; 160];
    lcd_on(&mut g, &mut irq, 0x91);
    assert_eq!(read(&g, 0xff41) & 0x3, 0);
    assert!(g.step(204, &oam, &mut irq).is_none());
    assert_eq!(read(&g, 0xff44), 1);
    assert_eq!(read(&g, 0xff41) & 0x3, 2);
    assert!(g.step(80, &oam, &mut irq).is_none());
    assert_eq!(read(&g, 0xff41) & 0x3, 3);
    let drawn = g.step(172, &oam, &mut irq);
    let (line, buf) = drawn.expect("a line");
    assert_eq!(line, 1);
    assert_eq!(buf.len(), 160);
    assert_eq!(read(&g, 0xff41) & 0x3, 0);
}

#[test]
fn vblank_requested_after_last_line() {
    let mut g = Gpu::new();
    let mut irq = Irq::new();
    let oam = vec![0u8; 160];
    lcd_on(&mut g, &mut irq, 0x91);
    for _ in 0..142 {
        g.step(204, &oam, &mut irq);
        g.step(80, &oam, &mut irq);
        g.step(172, &oam, &mut irq);
    }
    assert!(!irq.request.vblank);
    g.step(204, &oam, &mut irq);
    assert_eq!(read(&g, 0xff44), 143);
    assert_eq!(read(&g, 0xff41) & 0x3, 1);
    assert!(irq.request.vblank);
}

#[test]
fn colors_convert_to_pixels() {
    assert_eq!(Color::White.to_rgb(), 0xdddddd);
    assert_eq!(Color::Black.to_rgb(), 0x555555);
    assert_eq!(Color::Rgb(0x1f, 0x10, 0x00).to_rgb(), 0xfff000);
    let mut c = Color::rgb();
    c.set_low(0xff);
    c.set_high(0x7f);
    assert_eq!(c.get_low(), 0xff);
    assert_eq!(c.get_high(), 0x7f);
    assert_eq!(c, Color::Rgb(0x1f, 0x1f, 0x1f));
}
