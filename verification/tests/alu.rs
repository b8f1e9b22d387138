use rgy::alu::{add16, add16e, add8, signed, sub8};

#[test]
fn test_add8() {
    assert_eq!(add8(0x12, 0x22, false), (0x34, false, false, false));
    assert_eq!(add8(0x12, 0x22, true), (0x35, false, false, false));
    assert_eq!(add8(0x12, 0x2f, false), (0x41, true, false, false));
    assert_eq!(add8(0x12, 0x2f, true), (0x42, true, false, false));
    assert_eq!(add8(0x12, 0xf0, false), (0x02, false, true, false));
    assert_eq!(add8(0x12, 0xf0, true), (0x03, false, true, false));
    assert_eq!(add8(0x0a, 0xfa, false), (0x04, true, true, false));
    assert_eq!(add8(0x0a, 0xfa, true), (0x05, true, true, false));
    assert_eq!(add8(0x00, 0x00, false), (0x00, false, false, true));
    assert_eq!(add8(0x20, 0xe0, false), (0x00, false, true, true));
    assert_eq!(add8(0x08, 0xf8, false), (0x00, true, true, true));
    assert_eq!(add8(0x07, 0xf8, true), (0x00, true, true, true));
}

#[test]
fn test_sub8() {
    assert_eq!(sub8(0x12, 0x10, false), (0x02, false, false, false));
    assert_eq!(sub8(0x34, 0x22, true), (0x11, false, false, false));
    assert_eq!(sub8(0x32, 0x2f, false), (0x03, true, false, false));
    assert_eq!(sub8(0x32, 0x2e, true), (0x03, true, false, false));
    assert_eq!(sub8(0x12, 0xf0, false), (0x22, false, true, false));
    assert_eq!(sub8(0x12, 0xe0, true), (0x31, false, true, false));
    assert_eq!(sub8(0x0a, 0xef, false), (0x1b, true, true, false));
    assert_eq!(sub8(0x20, 0x5a, true), (0xc5, true, true, false));
    assert_eq!(sub8(0x12, 0x12, false), (0x00, false, false, true));
    assert_eq!(sub8(0x88, 0x87, true), (0x00, false, false, true));
}

#[test]
fn test_add16() {
    assert_eq!(add16(0x1200, 0x1000, false), (0x2200, false, false, false));
    assert_eq!(add16(0x1134, 0x1222, true), (0x2357, false, false, false));
    assert_eq!(add16(0xf231, 0x2a13, false), (0x1c44, false, true, false));
    assert_eq!(add16(0xf231, 0x2a13, true), (0x1c45, false, true, false));
    assert_eq!(add16(0xf631, 0x2a03, false), (0x2034, true, true, false));
    assert_eq!(add16(0xf631, 0x2a03, true), (0x2035, true, true, false));
}

#[test]
fn test_signed() {
    assert_eq!(signed(0x0a), 0x000a);
    assert_eq!(signed(0x8a), 0xff8a);
}

#[test]
fn add16e_negative_offset_wraps_with_low_byte_flags() {
    // 0x1000 + (-1) = 0x0fff; low byte 0x00 + 0xff does not carry
    assert_eq!(add16e(0x1000, 0xff, false), (0x0fff, false, false, false));
    // 0x00ff + 1: carries out of bit 3 and bit 7
    assert_eq!(add16e(0x00ff, 0x01, false), (0x0100, true, true, false));
    // 0xffff + 1 wraps to zero
    assert_eq!(add16e(0xffff, 0x01, false), (0x0000, true, true, true));
}

#[test]
fn add8_sub8_carry_in_edges() {
    assert_eq!(add8(0xff, 0x00, true), (0x00, true, true, true));
    assert_eq!(sub8(0x00, 0x00, true), (0xff, true, true, false));
    assert_eq!(sub8(0x10, 0x01, false), (0x0f, true, false, false));
}
