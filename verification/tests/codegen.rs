use rgy::codegen::{eval_getter, eval_setter, is_num, parse_time, to_decimal, Time};

#[test]
fn getter_of_flags_and_immediates() {
    assert_eq!(eval_getter("nz", 8), "!self.get_zf()");
    assert_eq!(eval_getter("nc", 8), "!self.get_cf()");
    assert_eq!(eval_getter("z", 8), "self.get_zf()");
    assert_eq!(eval_getter("cf", 8), "self.get_cf()");
    assert_eq!(eval_getter("d8", 8), "self.fetch8()");
    assert_eq!(eval_getter("r8", 8), "self.fetch8()");
    assert_eq!(eval_getter("a16", 16), "self.fetch16()");
}

#[test]
fn getter_of_registers_numbers_and_memory() {
    assert_eq!(eval_getter("bc", 16), "self.get_bc()");
    assert_eq!(eval_getter("38", 8), "38");
    assert_eq!(eval_getter("(hl)", 8), "{ let x = self.get_hl(); self.get8(x) }");
    assert_eq!(eval_getter("0xff00+c", 8), "0xff00+self.get_c() as u16");
    assert_eq!(
        eval_getter("(0xff00+a8)", 8),
        "{ let x = 0xff00+self.fetch8() as u16; self.get8(x) }"
    );
}

#[test]
fn setter_of_registers_and_memory() {
    assert_eq!(eval_setter("a", 8), "self.set_a(");
    assert_eq!(eval_setter("(a16)", 16), "let x = self.fetch16(); self.set16(x, ");
}

#[test]
fn numbers_are_trimmed_decimal_usize() {
    assert!(is_num("38"));
    assert!(is_num(" 7 "));
    assert!(is_num("+5"));
    assert!(!is_num(""));
    assert!(!is_num("+"));
    assert!(!is_num("-1"));
    assert!(!is_num("0x10"));
    assert!(!is_num("1 2"));
    assert!(!is_num("99999999999999999999999"));
}

#[test]
fn cycle_counts_parse() {
    assert_eq!(parse_time("8"), Time::One(8));
    assert_eq!(parse_time("12/8"), Time::Two(12, 8));
    assert_eq!(parse_time("24/12"), Time::Two(24, 12));
}

#[test]
fn decimal_digits() {
    assert_eq!(to_decimal(0), "0");
    assert_eq!(to_decimal(16), "16");
    assert_eq!(to_decimal(4096), "4096");
}
