use razer_cli::decimal::{format_decimal, parse_decimal};

#[test]
fn parse_reads_plain_numerals() {
    assert_eq!(parse_decimal(b"0", 255), Some(0));
    assert_eq!(parse_decimal(b"87", 255), Some(87));
    assert_eq!(parse_decimal(b"255", 255), Some(255));
    assert_eq!(parse_decimal(b"65535", 65535), Some(65535));
    assert_eq!(parse_decimal(b"4294967295", u32::MAX), Some(u32::MAX));
}

#[test]
fn parse_ignores_leading_zeros() {
    assert_eq!(parse_decimal(b"007", 255), Some(7));
    assert_eq!(parse_decimal(b"000000000000000000000255", 255), Some(255));
    assert_eq!(parse_decimal(b"00", 0), Some(0));
}

#[test]
fn parse_takes_one_leading_plus() {
    assert_eq!(parse_decimal(b"+87", 255), Some(87));
    assert_eq!(parse_decimal(b"+0", 255), Some(0));
    assert_eq!(parse_decimal(b"++87", 255), None);
    assert_eq!(parse_decimal(b"8+7", 255), None);
    assert_eq!(parse_decimal(b"87+", 255), None);
}

#[test]
fn parse_rejects_what_is_no_numeral() {
    assert_eq!(parse_decimal(b"", 255), None);
    assert_eq!(parse_decimal(b"+", 255), None);
    assert_eq!(parse_decimal(b"-1", 255), None);
    assert_eq!(parse_decimal(b"-0", 255), None);
    assert_eq!(parse_decimal(b"8a", 255), None);
    assert_eq!(parse_decimal(b"a8", 255), None);
    assert_eq!(parse_decimal(b" 87", 255), None);
    assert_eq!(parse_decimal(b"87 ", 255), None);
    assert_eq!(parse_decimal(b"87\n", 255), None);
    assert_eq!(parse_decimal(b"8.7", 255), None);
    assert_eq!(parse_decimal(b"0x10", 255), None);
    assert_eq!(parse_decimal(&[0x2f], 255), None);
    assert_eq!(parse_decimal(&[0x3a], 255), None);
    assert_eq!(parse_decimal(&[0xff, 0x31], 255), None);
}

#[test]
fn parse_rejects_more_than_the_bound() {
    assert_eq!(parse_decimal(b"256", 255), None);
    assert_eq!(parse_decimal(b"1000", 255), None);
    assert_eq!(parse_decimal(b"65536", 65535), None);
    assert_eq!(parse_decimal(b"4294967296", u32::MAX), None);
    assert_eq!(parse_decimal(b"99999999999999999999999999", u32::MAX), None);
    assert_eq!(parse_decimal(b"1", 0), None);
}

#[test]
fn parse_rejects_an_overflow_before_a_bad_byte() {
    assert_eq!(parse_decimal(b"99999x", 255), None);
    assert_eq!(parse_decimal(b"x99999", 255), None);
}

#[test]
fn format_writes_canonical_numerals() {
    assert_eq!(format_decimal(0), b"0".to_vec());
    assert_eq!(format_decimal(7), b"7".to_vec());
    assert_eq!(format_decimal(10), b"10".to_vec());
    assert_eq!(format_decimal(125), b"125".to_vec());
    assert_eq!(format_decimal(1000), b"1000".to_vec());
    assert_eq!(format_decimal(65535), b"65535".to_vec());
    assert_eq!(format_decimal(u32::MAX), b"4294967295".to_vec());
}

#[test]
fn format_then_parse_gives_the_number_back() {
    let numbers: [u32; 12] = [0, 1, 9, 10, 99, 100, 255, 256, 800, 65535, 1_000_000, u32::MAX];
    for n in numbers {
        let text = format_decimal(n);
        assert_eq!(parse_decimal(&text, u32::MAX), Some(n));
        assert_eq!(parse_decimal(&text, n), Some(n));
        if n > 0 {
            assert_eq!(parse_decimal(&text, n - 1), None);
            assert_ne!(text[0], b'0');
        }
    }
}

#[test]
fn format_agrees_with_the_standard_library() {
    let mut n: u32 = 0;
    while n < 70_000 {
        assert_eq!(format_decimal(n), n.to_string().into_bytes());
        n += 37;
    }
}
