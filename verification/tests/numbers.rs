use ve_exporter::text::{parse_isize, parse_u16, parse_u64, parse_u8, parse_usize, push_hex_upper};

const SAMPLES: &[&str] = &[
    "", "+", "-", "0", "00", "+0", "-0", "7", "+7", "-7", "007", "42", "255", "256", "-1", "65535",
    "65536", "12800", "-12800", "+-1", "-+1", " 1", "1 ", "1a", "a1", "0x10", "1_000", "١٢", "9223372036854775807",
    "9223372036854775808", "-9223372036854775808", "-9223372036854775809", "18446744073709551615",
    "18446744073709551616", "99999999999999999999999999999999999999999", "++1", "--1", "1.5", "\u{ff11}",
];

#[test]
fn parse_u8_agrees_with_std() {
    for s in SAMPLES {
        assert_eq!(parse_u8(s), s.parse::<u8>().ok(), "input {:?}", s);
    }
}

#[test]
fn parse_u16_agrees_with_std() {
    for s in SAMPLES {
        assert_eq!(parse_u16(s), s.parse::<u16>().ok(), "input {:?}", s);
    }
}

#[test]
fn parse_u64_agrees_with_std() {
    for s in SAMPLES {
        assert_eq!(parse_u64(s), s.parse::<u64>().ok(), "input {:?}", s);
    }
}

#[test]
fn parse_usize_agrees_with_std() {
    for s in SAMPLES {
        assert_eq!(parse_usize(s), s.parse::<usize>().ok(), "input {:?}", s);
    }
}

#[test]
fn parse_isize_agrees_with_std() {
    for s in SAMPLES {
        assert_eq!(parse_isize(s), s.parse::<isize>().ok(), "input {:?}", s);
    }
}

#[test]
fn parse_exact_values() {
    assert_eq!(parse_isize("-12800"), Some(-12800));
    assert_eq!(parse_u8("255"), Some(255));
    assert_eq!(parse_u8("256"), None);
    assert_eq!(parse_u8("-0"), None);
    assert_eq!(parse_isize("-0"), Some(0));
    assert_eq!(parse_u16("+65535"), Some(65535));
    assert_eq!(parse_u64(""), None);
}

#[test]
fn hex_matches_format() {
    let values: [u64; 12] = [0, 1, 9, 10, 15, 16, 0x54, 0xFF, 0x400, 0xDEADBEEF, 0x1234_5678_9ABC_DEF0, u64::MAX];
    for v in values {
        let mut s = String::new();
        push_hex_upper(&mut s, v);
        assert_eq!(s, format!("{:X}", v));
        assert_eq!(u64::from_str_radix(&s, 16), Ok(v));
        assert!(v == 0 || !s.starts_with('0'));
    }
}

#[test]
fn hex_appends() {
    let mut s = String::from("x=");
    push_hex_upper(&mut s, 0x4E);
    assert_eq!(s, "x=4E");
}
