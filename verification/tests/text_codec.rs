use jelly_mem_access::AccessError;
use jelly_mem_access::text::{
    all_ascii, ascii_to_string, fmt_dec_u32, fmt_dec_usize, fmt_hex8, parse_dec_attr_u32,
    parse_dec_attr_usize, parse_dec_usize, parse_hex_attr, parse_hex_usize, parse_name_attr,
    trim_bytes,
};

#[test]
fn trim_strips_both_ends() {
    assert_eq!(trim_bytes(b" \t0x1A\n"), b"0x1A".to_vec());
    assert_eq!(trim_bytes(b"abc"), b"abc".to_vec());
    assert_eq!(trim_bytes(b"  \n"), Vec::<u8>::new());
    assert_eq!(trim_bytes(b""), Vec::<u8>::new());
    assert_eq!(trim_bytes(b"a b"), b"a b".to_vec());
}

#[test]
fn hex_digits_parse_exactly() {
    assert_eq!(parse_hex_usize(b"0"), Some(0));
    assert_eq!(parse_hex_usize(b"1A"), Some(26));
    assert_eq!(parse_hex_usize(b"ff"), Some(255));
    assert_eq!(parse_hex_usize(b"DeadBeef"), Some(0xDEAD_BEEF));
    assert_eq!(parse_hex_usize(b""), None);
    assert_eq!(parse_hex_usize(b"1G"), None);
    assert_eq!(parse_hex_usize(b"FFFFFFFFFFFFFFFF"), Some(usize::MAX));
    assert_eq!(parse_hex_usize(b"10000000000000000"), None);
}

#[test]
fn dec_digits_parse_exactly() {
    assert_eq!(parse_dec_usize(b"0"), Some(0));
    assert_eq!(parse_dec_usize(b"4096"), Some(4096));
    assert_eq!(parse_dec_usize(b""), None);
    assert_eq!(parse_dec_usize(b"12a"), None);
    assert_eq!(parse_dec_usize(b"-3"), None);
    assert_eq!(parse_dec_usize(b"18446744073709551615"), Some(usize::MAX));
    assert_eq!(parse_dec_usize(b"18446744073709551616"), None);
}

#[test]
fn hex_attr_requires_prefix() {
    assert_eq!(parse_hex_attr(b"0x1000\n"), Ok(0x1000));
    assert_eq!(parse_hex_attr(b"  0xDEADBEEF  "), Ok(0xDEAD_BEEF));
    assert_eq!(parse_hex_attr(b"1000"), Err(AccessError::Parse));
    assert_eq!(parse_hex_attr(b"0x\n"), Err(AccessError::Parse));
    assert_eq!(parse_hex_attr(b"0xZZ"), Err(AccessError::Parse));
    assert_eq!(parse_hex_attr(b""), Err(AccessError::Parse));
}

#[test]
fn dec_attr_parses_trimmed_number() {
    assert_eq!(parse_dec_attr_usize(b"4096\n"), Ok(4096));
    assert_eq!(parse_dec_attr_usize(b" 7 "), Ok(7));
    assert_eq!(parse_dec_attr_usize(b"12a"), Err(AccessError::Parse));
    assert_eq!(parse_dec_attr_usize(b"\n"), Err(AccessError::Parse));
}

#[test]
fn dec_attr_u32_bounds() {
    assert_eq!(parse_dec_attr_u32(b"4294967295\n"), Ok(u32::MAX));
    assert_eq!(parse_dec_attr_u32(b"4294967296\n"), Err(AccessError::Parse));
    assert_eq!(parse_dec_attr_u32(b"1\n"), Ok(1));
}

#[test]
fn decimal_formatting_exact() {
    assert_eq!(fmt_dec_usize(0), b"0".to_vec());
    assert_eq!(fmt_dec_usize(7), b"7".to_vec());
    assert_eq!(fmt_dec_usize(1234), b"1234".to_vec());
    assert_eq!(fmt_dec_usize(1000000), b"1000000".to_vec());
    assert_eq!(fmt_dec_u32(u32::MAX), b"4294967295".to_vec());
}

#[test]
fn hex8_formatting_exact() {
    assert_eq!(fmt_hex8(0), b"00000000".to_vec());
    assert_eq!(fmt_hex8(0xDEAD_BEEF), b"DEADBEEF".to_vec());
    assert_eq!(fmt_hex8(0x0000_100D), b"0000100D".to_vec());
    assert_eq!(fmt_hex8(1), b"00000001".to_vec());
}

#[test]
fn formatting_round_trips_through_parsing() {
    for n in [0usize, 1, 9, 10, 4095, 4096, 123_456_789] {
        assert_eq!(parse_dec_usize(&fmt_dec_usize(n)), Some(n));
    }
    for w in [0u32, 1, 0xF0, 0xDEAD_BEEF, u32::MAX] {
        assert_eq!(parse_hex_usize(&fmt_hex8(w)), Some(w as usize));
    }
}

#[test]
fn name_attr_is_the_trimmed_ascii_text() {
    assert_eq!(parse_name_attr(b"uio_pl_peri\n"), Ok("uio_pl_peri".to_owned()));
    assert_eq!(parse_name_attr(b"  foo  "), Ok("foo".to_owned()));
    assert_eq!(parse_name_attr(b""), Ok(String::new()));
    assert_eq!(parse_name_attr(&[0x80u8]), Err(AccessError::Parse));
}

#[test]
fn ascii_checks_and_conversion() {
    assert!(all_ascii(b"udmabuf0"));
    assert!(!all_ascii(&[0x80u8]));
    assert_eq!(ascii_to_string(b"uio_pl_peri"), "uio_pl_peri".to_owned());
    assert_eq!(ascii_to_string(b""), String::new());
}
