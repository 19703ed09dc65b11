use mirletis::{sign32, abs32, min32, lt32, eq32, sel_u8, sel_i16, bit_set, bit_get, ternary,
    safe_zone, eq_slice};

#[test]
fn test_constant_time_ops() {
    assert_eq!(ternary(0), -1);
    assert_eq!(ternary(1), 0);
    assert_eq!(ternary(2), 1);
    assert_eq!(ternary(3), 0);
    assert_eq!(safe_zone(32), 1);
    assert_eq!(safe_zone(64), 0);
}

#[test]
fn test_sign_abs_min_lt_eq() {
    assert_eq!(sign32(-5), -1);
    assert_eq!(sign32(0), 0);
    assert_eq!(sign32(7), 0);
    assert_eq!(abs32(-13), 13);
    assert_eq!(abs32(13), 13);
    assert_eq!(abs32(0), 0);
    assert_eq!(min32(3, 9), 3);
    assert_eq!(min32(9, 3), 3);
    assert_eq!(min32(-4, 2), -4);
    assert_eq!(lt32(1, 2), 1);
    assert_eq!(lt32(2, 1), 0);
    assert_eq!(lt32(2, 2), 0);
    assert_eq!(eq32(5, 5), 1);
    assert_eq!(eq32(5, 6), 0);
    assert_eq!(eq32(-1, 1), 0);
}

#[test]
fn test_select() {
    assert_eq!(sel_u8(0xAA, 0x55, 1), 0xAA);
    assert_eq!(sel_u8(0xAA, 0x55, 0), 0x55);
    assert_eq!(sel_i16(-7, 9, 1), -7);
    assert_eq!(sel_i16(-7, 9, 0), 9);
}

#[test]
fn test_bit_set_get() {
    let mut buf = vec![0u8; 4];
    bit_set(&mut buf, 0, 1);
    bit_set(&mut buf, 9, 1);
    bit_set(&mut buf, 31, 1);
    bit_set(&mut buf, 4, 0);
    assert_eq!(buf, vec![0x01, 0x02, 0x00, 0x80]);
    assert_eq!(bit_get(&buf, 0), 1);
    assert_eq!(bit_get(&buf, 4), 0);
    assert_eq!(bit_get(&buf, 9), 1);
    assert_eq!(bit_get(&buf, 31), 1);
    assert_eq!(bit_get(&buf, 30), 0);
}

#[test]
fn test_ternary_depends_on_low_bits_only() {
    let table: [i16; 4] = [-1, 0, 1, 0];
    for b in 0..=255u8 {
        assert_eq!(ternary(b), table[(b & 3) as usize]);
    }
}

#[test]
fn test_safe_zone_anchors() {
    for v in [32u8, 96, 160, 224] {
        assert_eq!(safe_zone(v), 1);
    }
    for v in [0u8, 64, 128, 192] {
        assert_eq!(safe_zone(v), 0);
    }
}

#[test]
fn test_safe_zone_boundaries() {
    let cases: [(u8, u32); 12] = [
        (20, 0),
        (21, 1),
        (43, 1),
        (44, 0),
        (107, 1),
        (108, 0),
        (151, 1),
        (152, 1),
        (211, 0),
        (212, 0),
        (235, 1),
        (236, 0),
    ];
    for (v, expected) in cases {
        assert_eq!(safe_zone(v), expected, "safe_zone({})", v);
    }
    // The <12 rule, checked exhaustively against a plain reimplementation.
    for v in 0..=255i32 {
        let d = [32, 96, 160, 224].iter().map(|a| (v - a).abs()).min().unwrap();
        let expected = if d < 12 { 1 } else { 0 };
        assert_eq!(safe_zone(v as u8), expected, "safe_zone({})", v);
    }
}

#[test]
fn test_eq_slice_single_difference() {
    let a = [0x5Au8; 40];
    assert!(eq_slice(&a, &a));
    for pos in 0..40 {
        let mut b = a;
        b[pos] ^= 0x01;
        assert!(!eq_slice(&a, &b), "difference at {} missed", pos);
        b[pos] = a[pos] ^ 0x80;
        assert!(!eq_slice(&a, &b), "difference at {} missed", pos);
    }
    assert!(!eq_slice(&a[..39], &a));
    assert!(eq_slice(&[], &[]));
}
