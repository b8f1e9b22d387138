use rgy::hram::Hram;

#[test]
fn test_get_set() {
    let mut m = Hram::new();
    for i in 0..0x7f {
        m.set8(0xff80 + i, i as u8);
    }
    for i in 0..0x7f {
        assert_eq!(m.get8(0xff80 + i), i as u8);
    }
}

#[test]
#[should_panic]
fn test_set_too_low() {
    let mut m = Hram::new();
    m.set8(0xff7f, 0);
}

#[test]
#[should_panic]
fn test_set_too_high() {
    let mut m = Hram::new();
    m.set8(0xffff, 0);
}

#[test]
#[should_panic]
fn test_get_too_low() {
    let m = Hram::new();
    m.get8(0xff7f);
}

#[test]
#[should_panic]
fn test_get_too_high() {
    let m = Hram::new();
    m.get8(0xffff);
}

#[test]
fn hram_write_leaves_other_bytes() {
    let mut m = Hram::new();
    m.set8(0xff90, 0xab);
    assert_eq!(m.get8(0xff90), 0xab);
    assert_eq!(m.get8(0xff91), 0);
    assert_eq!(m.get8(0xfffe), 0);
}
