use rgy::cpu::{Cpu, Ram, Sys};

fn cpu_with(bytes: &[u8]) -> Cpu<Ram> {
    let mut ram = Ram::new();
    ram.write(bytes);
    Cpu::new(ram)
}

/// Runs the instruction at pc and returns the cycles it took.
fn exec(cpu: &mut Cpu<Ram>) -> usize {
    cpu.execute()
}

/// Decodes the instruction at pc directly: the immediate operand follows the opcode, and the
/// program counter moves on by the length the instruction reports.
fn decode_at_pc(cpu: &mut Cpu<Ram>) -> usize {
    let pc = cpu.get_pc();
    let b = cpu.sys().get8(pc);
    let (code, arg) = if b == 0xcb {
        (0xcb00 | cpu.sys().get8(pc + 1) as u16, 2)
    } else {
        (b as u16, 1)
    };
    let (time, size) = cpu.decode(code, arg);
    cpu.set_pc(cpu.get_pc().wrapping_add(size as u16));
    time
}

#[test]
fn op_00af() {
    // xor a
    let mut cpu = cpu_with(&[0xaf]);

    cpu.set_a(0x32);

    exec(&mut cpu);

    assert_eq!(cpu.get_a(), 0x00);
}

#[test]
fn op_00f1() {
    // pop af
    let mut cpu = cpu_with(&[0xc5, 0xf1, 0xf5, 0xd1, 0x79, 0xe6, 0xf0, 0xbb]);

    cpu.set_bc(0x1301);
    exec(&mut cpu); // push bc
    assert_eq!(cpu.get_bc(), 0x1301);
    exec(&mut cpu); // pop af
    assert_eq!(cpu.get_af(), 0x1300); // because the lower 4 bits of `f` are always zero
    exec(&mut cpu); // push af
    exec(&mut cpu); // pop de
    assert_eq!(cpu.get_de(), 0x1300);
    assert_eq!(cpu.get_c(), 0x01);
    exec(&mut cpu); // ld a,c
    assert_eq!(cpu.get_a(), 0x01);
    assert_eq!(cpu.get_c(), 0x01);
    exec(&mut cpu); // and 0xf0
    assert_eq!(cpu.get_a(), 0x00);
    assert_eq!(cpu.get_e(), 0x00);
    exec(&mut cpu); // cp e
    assert_eq!(cpu.get_zf(), true);
}

#[test]
fn cycles_consumed_match_reported_time() {
    // ld bc,0x1234; inc (hl); push bc; pop de; jp 0x0000
    let mut cpu = cpu_with(&[0x01, 0x34, 0x12, 0x34, 0xc5, 0xd1, 0xc3, 0x00, 0x00]);
    cpu.set_hl(0x8000);
    cpu.set_sp(0xfffe);
    let mut total = 0;
    for _ in 0..5 {
        total += exec(&mut cpu);
    }
    assert_eq!(total, 12 + 12 + 16 + 12 + 16);
    assert_eq!(cpu.get_de(), 0x1234);
    assert_eq!(cpu.sys().get8(0x8000), 1);
    assert_eq!(cpu.get_pc(), 0x0000);
}

#[test]
fn cb_instruction_time_includes_prefix() {
    // swap a; bit 7,(hl); set 0,(hl)
    let mut cpu = cpu_with(&[0xcb, 0x37, 0xcb, 0x7e, 0xcb, 0xc6]);
    cpu.set_a(0x1f);
    cpu.set_hl(0x9000);
    assert_eq!(exec(&mut cpu), 8);
    assert_eq!(cpu.get_a(), 0xf1);
    assert!(!cpu.get_zf());
    assert_eq!(exec(&mut cpu), 12);
    assert!(cpu.get_zf());
    assert!(cpu.get_hf());
    assert_eq!(exec(&mut cpu), 16);
    assert_eq!(cpu.sys().get8(0x9000), 0x01);
    assert_eq!(cpu.get_pc(), 6);
}

#[test]
fn relative_jumps_and_conditions() {
    // jr +2; nop; nop; xor a; jr nz,-2 (not taken); jr z,+0x10 (taken)
    let mut cpu = cpu_with(&[0x18, 0x02, 0x00, 0x00, 0xaf, 0x20, 0xfe, 0x28, 0x10]);
    assert_eq!(exec(&mut cpu), 12);
    assert_eq!(cpu.get_pc(), 4);
    exec(&mut cpu);
    assert!(cpu.get_zf());
    assert_eq!(exec(&mut cpu), 8);
    assert_eq!(cpu.get_pc(), 7);
    assert_eq!(exec(&mut cpu), 12);
    assert_eq!(cpu.get_pc(), 9 + 0x10);
}

#[test]
fn call_and_return() {
    // 0x0000: call 0x0010 ... 0x0010: ret
    let mut bytes = vec![0u8; 0x20];
    bytes[0] = 0xcd;
    bytes[1] = 0x10;
    bytes[2] = 0x00;
    bytes[0x10] = 0xc9;
    let mut cpu = cpu_with(&bytes);
    cpu.set_sp(0xfffe);
    assert_eq!(exec(&mut cpu), 24);
    assert_eq!(cpu.get_pc(), 0x0010);
    assert_eq!(cpu.get_sp(), 0xfffc);
    assert_eq!(exec(&mut cpu), 16);
    assert_eq!(cpu.get_pc(), 0x0003);
    assert_eq!(cpu.get_sp(), 0xfffe);
}

#[test]
fn conditional_return_not_taken_falls_through() {
    // scf; ret nc
    let mut cpu = cpu_with(&[0x37, 0xd0]);
    cpu.set_sp(0xfffe);
    exec(&mut cpu);
    assert!(cpu.get_cf());
    assert_eq!(exec(&mut cpu), 8);
    assert_eq!(cpu.get_pc(), 2);
    assert_eq!(cpu.get_sp(), 0xfffe);
}

#[test]
fn restart_pushes_and_jumps() {
    let mut cpu = cpu_with(&[0x00, 0xef]);
    cpu.set_sp(0xfffe);
    exec(&mut cpu);
    assert_eq!(exec(&mut cpu), 16);
    assert_eq!(cpu.get_pc(), 0x0028);
    assert_eq!(cpu.sys().get8(0xfffc), 0x02);
    assert_eq!(cpu.sys().get8(0xfffd), 0x00);
}

#[test]
fn arithmetic_flags() {
    // ld a,0x0f; add a,0x01; sub 0x20; adc a,0x00 (carry in)
    let mut cpu = cpu_with(&[0x3e, 0x0f, 0xc6, 0x01, 0xd6, 0x20, 0xce, 0x00]);
    exec(&mut cpu);
    exec(&mut cpu);
    assert_eq!(cpu.get_a(), 0x10);
    assert!(cpu.get_hf());
    assert!(!cpu.get_cf());
    exec(&mut cpu);
    assert_eq!(cpu.get_a(), 0xf0);
    assert!(cpu.get_nf());
    assert!(cpu.get_cf());
    exec(&mut cpu);
    assert_eq!(cpu.get_a(), 0xf1);
    assert!(!cpu.get_cf());
}

#[test]
fn decimal_adjust_after_addition() {
    // ld a,0x19; add a,0x28; daa
    let mut cpu = cpu_with(&[0x3e, 0x19, 0xc6, 0x28, 0x27]);
    exec(&mut cpu);
    exec(&mut cpu);
    assert_eq!(cpu.get_a(), 0x41);
    exec(&mut cpu);
    assert_eq!(cpu.get_a(), 0x47);
    assert!(!cpu.get_cf());
}

#[test]
fn increments_and_block_loads() {
    // ld hl,0xc000; ld a,0x42; ldi (hl),a; dec hl; ld a,(hl); inc bc; dec e
    let mut cpu = cpu_with(&[0x21, 0x00, 0xc0, 0x3e, 0x42, 0x22, 0x2b, 0x7e, 0x03, 0x1d]);
    for _ in 0..3 {
        exec(&mut cpu);
    }
    assert_eq!(cpu.get_hl(), 0xc001);
    assert_eq!(cpu.sys().get8(0xc000), 0x42);
    exec(&mut cpu); // dec hl
    exec(&mut cpu); // ld a,(hl)
    assert_eq!(cpu.get_a(), 0x42);
    exec(&mut cpu);
    assert_eq!(cpu.get_bc(), 0x0001);
    exec(&mut cpu);
    assert_eq!(cpu.get_e(), 0xff);
    assert!(cpu.get_nf());
    assert!(cpu.get_hf());
}

#[test]
fn rotations_of_a_clear_zero_flag() {
    // xor a; rlca; ld a,0x80; rla; rra
    let mut cpu = cpu_with(&[0xaf, 0x07, 0x3e, 0x80, 0x17, 0x1f]);
    exec(&mut cpu);
    exec(&mut cpu);
    assert_eq!(cpu.get_a(), 0);
    assert!(!cpu.get_zf());
    exec(&mut cpu);
    exec(&mut cpu);
    assert_eq!(cpu.get_a(), 0x00);
    assert!(cpu.get_cf());
    exec(&mut cpu);
    assert_eq!(cpu.get_a(), 0x80);
    assert!(!cpu.get_cf());
}

#[test]
fn high_page_loads_and_stack_pointer_arithmetic() {
    // ld a,0x5a; ld (0xff80),a; xor a; ld a,(0xff80); ld sp,0xfff8; add sp,-8; ldhl sp,4
    let mut cpu = cpu_with(&[
        0x3e, 0x5a, 0xe0, 0x80, 0xaf, 0xf0, 0x80, 0x31, 0xf8, 0xff, 0xe8, 0xf8, 0xf8, 0x04,
    ]);
    for _ in 0..4 {
        exec(&mut cpu);
    }
    assert_eq!(cpu.get_a(), 0x5a);
    exec(&mut cpu);
    assert_eq!(cpu.get_sp(), 0xfff8);
    assert_eq!(exec(&mut cpu), 16);
    assert_eq!(cpu.get_sp(), 0xfff0);
    assert_eq!(exec(&mut cpu), 12);
    assert_eq!(cpu.get_hl(), 0xfff4);
    assert!(!cpu.get_zf());
}

#[test]
fn flag_low_bits_stay_zero() {
    // scf; sub 0x01; daa; ccf; cpl; bit 0,a; swap a
    let mut cpu = cpu_with(&[0x37, 0xd6, 0x01, 0x27, 0x3f, 0x2f, 0xcb, 0x47, 0xcb, 0x37]);
    cpu.set_a(0x10);
    for _ in 0..7 {
        exec(&mut cpu);
        assert_eq!(cpu.get_af() & 0x0f, 0);
    }
}

#[test]
fn mnemonics_of_opcodes() {
    assert_eq!(rgy::mnem::mnem(0x00af), "xor a");
    assert_eq!(rgy::mnem::mnem(0xcb37), "swap a");
    assert_eq!(rgy::mnem::mnem(0x00d3), "(unknown opcode)");
}

#[test]
fn decode_and_execute_agree() {
    // ld bc,0x1234; call 0x0008; ... 0x0008: swap b; ret
    let mut bytes = vec![0u8; 0x10];
    bytes[..6].copy_from_slice(&[0x01, 0x34, 0x12, 0xcd, 0x08, 0x00]);
    bytes[8..11].copy_from_slice(&[0xcb, 0x30, 0xc9]);
    let mut a = cpu_with(&bytes);
    let mut b = cpu_with(&bytes);
    a.set_sp(0xfffe);
    b.set_sp(0xfffe);
    for _ in 0..4 {
        assert_eq!(exec(&mut a), decode_at_pc(&mut b));
        assert_eq!(a.get_pc(), b.get_pc());
    }
    assert_eq!(a.get_bc(), 0x2134);
    assert_eq!(a.get_pc(), 0x0006);
}

#[test]
fn halted_cpu_idles_four_cycles() {
    let mut cpu = cpu_with(&[0x3c, 0x00]);
    cpu.disable_interrupt();
    // A RAM system never requests an interrupt, so halting halts and nothing wakes it.
    cpu.halt();
    assert_eq!(exec(&mut cpu), 4);
    assert_eq!(cpu.get_pc(), 0);
}

#[test]
fn emulation_loop_runs_and_throttles() {
    use_system();
}

fn use_system() {
    let cpu = cpu_with(&[0x3e, 0x05, 0x3c]);
    let mut sys = rgy::system::System::new(rgy::system::Config::new(), cpu, 1_000_000);
    assert!(sys.poll(true)); // ld a,5
    assert!(sys.poll(true)); // inc a
    assert_eq!(sys.cpu.get_a(), 6);
    assert_eq!(sys.pending, 12);
    // 10 microseconds at 4194300 Hz grant 41 cycles.
    assert!(sys.throttle(1_000_010));
    assert_eq!(sys.pending, 0);
    assert_eq!(sys.fc.remaining_cycles, 29);
    assert!(!sys.poll(false));
    assert_eq!(sys.cpu.get_pc(), 3);
}
