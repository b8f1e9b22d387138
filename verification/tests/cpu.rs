use rgy::cpu::{Cpu, Ram};

fn cpu_with(bytes: &[u8]) -> Cpu<Ram> {
    let mut ram = Ram::new();
    ram.write(bytes);
    Cpu::new(ram)
}

#[test]
fn register_pairs_read_back() {
    let mut cpu = cpu_with(&[]);
    cpu.set_bc(0x1301);
    assert_eq!(cpu.get_bc(), 0x1301);
    assert_eq!(cpu.get_b(), 0x13);
    assert_eq!(cpu.get_c(), 0x01);
    cpu.set_de(0xbeef);
    assert_eq!(cpu.get_d(), 0xbe);
    assert_eq!(cpu.get_e(), 0xef);
    cpu.set_hl(0x8000);
    assert_eq!(cpu.get_hl(), 0x8000);
}

#[test]
fn af_keeps_low_flag_bits_zero() {
    let mut cpu = cpu_with(&[]);
    cpu.set_af(0x1301);
    // The lower 4 bits of `f` are always zero.
    assert_eq!(cpu.get_af(), 0x1300);
    cpu.set_af(0xfff0);
    assert!(cpu.get_zf() && cpu.get_nf() && cpu.get_hf() && cpu.get_cf());
}

#[test]
fn flags_set_and_clear_independently() {
    let mut cpu = cpu_with(&[]);
    cpu.set_zf(true);
    cpu.set_cf(true);
    assert!(cpu.get_zf());
    assert!(!cpu.get_nf());
    assert!(!cpu.get_hf());
    assert!(cpu.get_cf());
    cpu.set_zf(false);
    assert!(!cpu.get_zf());
    assert!(cpu.get_cf());
    assert_eq!(cpu.get_af() & 0xff, 0x10);
}

#[test]
fn push_then_pop_gives_value_back() {
    let mut cpu = cpu_with(&[]);
    cpu.set_sp(0xfffe);
    cpu.push(0x1234);
    assert_eq!(cpu.get_sp(), 0xfffc);
    assert_eq!(cpu.get16(0xfffc), 0x1234);
    let v = cpu.pop();
    assert_eq!(v, 0x1234);
    assert_eq!(cpu.get_sp(), 0xfffe);
}

#[test]
fn fetch_reads_at_pc_and_advances() {
    let mut cpu = cpu_with(&[0x3e, 0x34, 0x12, 0xcb, 0x7c]);
    assert_eq!(cpu.fetch8(), 0x3e);
    assert_eq!(cpu.get_pc(), 1);
    assert_eq!(cpu.fetch16(), 0x1234);
    assert_eq!(cpu.get_pc(), 3);
    assert_eq!(cpu.fetch_opcode(), 0xcb7c);
    assert_eq!(cpu.get_pc(), 5);
}

#[test]
fn memory_access_through_cpu() {
    let mut cpu = cpu_with(&[]);
    cpu.set8(0xc000, 0x42);
    assert_eq!(cpu.get8(0xc000), 0x42);
    cpu.set16(0xc010, 0xabcd);
    assert_eq!(cpu.get8(0xc010), 0xcd);
    assert_eq!(cpu.get8(0xc011), 0xab);
    cpu.jump(0x0150);
    assert_eq!(cpu.get_pc(), 0x0150);
}

#[test]
fn no_pending_interrupt_leaves_pc() {
    let mut cpu = cpu_with(&[0x00, 0x01]);
    cpu.set_sp(0xfffe);
    cpu.ei();
    cpu.update_ime();
    cpu.update_ime();
    cpu.check_interrupt();
    assert_eq!(cpu.get_pc(), 0);
    assert_eq!(cpu.get_sp(), 0xfffe);
    assert_eq!(cpu.fetch_opcode(), 0x00);
    assert_eq!(cpu.get_pc(), 1);
}
