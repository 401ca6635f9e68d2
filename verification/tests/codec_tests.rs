use razer_cli::attribute::{Attribute, Error};
use razer_cli::codec::{
    decode_charge_level, decode_poll_rate, decode_resolution, decode_text, encode_poll_rate,
    encode_resolution, format_resolution, same_bytes, unpack_resolution, Dpi, PollRate,
};

#[test]
fn same_bytes_compares_contents() {
    assert!(same_bytes(b"", b""));
    assert!(same_bytes(b"hid", b"hid"));
    assert!(!same_bytes(b"hid", b"hi"));
    assert!(!same_bytes(b"hi", b"hid"));
    assert!(!same_bytes(b"hid", b"hie"));
    assert!(!same_bytes(b"hid", b"Hid"));
}

#[test]
fn charge_level_decodes_numerals_up_to_255() {
    assert_eq!(decode_charge_level(b"0"), Ok(0));
    assert_eq!(decode_charge_level(b"87"), Ok(87));
    assert_eq!(decode_charge_level(b"255"), Ok(255));
    assert_eq!(decode_charge_level(b"007"), Ok(7));
    assert_eq!(decode_charge_level(b"+87"), Ok(87));
}

#[test]
fn charge_level_above_255_is_invalid() {
    let invalid = Err(Error::InvalidAttribute(Attribute::ChargeLevel));
    assert_eq!(decode_charge_level(b"256"), invalid);
    assert_eq!(decode_charge_level(b"300"), invalid);
    assert_eq!(decode_charge_level(b"1000"), invalid);
    assert_eq!(decode_charge_level(b"65535"), invalid);
    assert_eq!(decode_charge_level(b"18446744073709551616"), invalid);
}

#[test]
fn charge_level_that_is_no_number_is_invalid() {
    let invalid = Err(Error::InvalidAttribute(Attribute::ChargeLevel));
    assert_eq!(decode_charge_level(b""), invalid);
    assert_eq!(decode_charge_level(b"full"), invalid);
    assert_eq!(decode_charge_level(b"-1"), invalid);
    assert_eq!(decode_charge_level(b"8 7"), invalid);
    assert_eq!(decode_charge_level(b"87%"), invalid);
    assert_eq!(decode_charge_level(b"87\n"), invalid);
    assert_eq!(decode_charge_level(b"+"), invalid);
    assert_eq!(decode_charge_level(&[0xff, 0xfe]), invalid);
    assert_eq!(decode_charge_level(&[0x03]), invalid);
}

#[test]
fn resolution_decodes_two_numerals() {
    assert_eq!(decode_resolution(b"800:800"), Ok(Dpi { x: 800, y: 800 }));
    assert_eq!(decode_resolution(b"0:65535"), Ok(Dpi { x: 0, y: 65535 }));
    assert_eq!(decode_resolution(b"65535:0"), Ok(Dpi { x: 65535, y: 0 }));
    assert_eq!(decode_resolution(b"1600:400"), Ok(Dpi { x: 1600, y: 400 }));
    assert_eq!(decode_resolution(b"+1:002"), Ok(Dpi { x: 1, y: 2 }));
}

#[test]
fn resolution_without_separator_is_invalid() {
    let invalid = Err(Error::InvalidAttribute(Attribute::Dpi));
    assert_eq!(decode_resolution(b""), invalid);
    assert_eq!(decode_resolution(b"800"), invalid);
    assert_eq!(decode_resolution(b"800x800"), invalid);
    assert_eq!(decode_resolution(b"800;800"), invalid);
    assert_eq!(decode_resolution(&[0x03, 0x20, 0x03, 0x20]), invalid);
}

#[test]
fn resolution_with_a_half_that_is_no_number_is_invalid() {
    let invalid = Err(Error::InvalidAttribute(Attribute::Dpi));
    assert_eq!(decode_resolution(b":"), invalid);
    assert_eq!(decode_resolution(b"800:"), invalid);
    assert_eq!(decode_resolution(b":800"), invalid);
    assert_eq!(decode_resolution(b"a:b"), invalid);
    assert_eq!(decode_resolution(b"800:8oo"), invalid);
    assert_eq!(decode_resolution(b"800: 800"), invalid);
    assert_eq!(decode_resolution(b"-800:800"), invalid);
}

#[test]
fn resolution_splits_at_the_first_separator_only() {
    let invalid = Err(Error::InvalidAttribute(Attribute::Dpi));
    assert_eq!(decode_resolution(b"800:800:800"), invalid);
    assert_eq!(decode_resolution(b"800::800"), invalid);
    assert_eq!(decode_resolution(b"800:800:"), invalid);
}

#[test]
fn resolution_above_sixteen_bits_is_invalid() {
    let invalid = Err(Error::InvalidAttribute(Attribute::Dpi));
    assert_eq!(decode_resolution(b"65536:800"), invalid);
    assert_eq!(decode_resolution(b"800:65536"), invalid);
    assert_eq!(decode_resolution(b"4294967296:1"), invalid);
}

#[test]
fn resolution_encodes_as_four_big_endian_bytes() {
    assert_eq!(encode_resolution(&Dpi { x: 800, y: 800 }), vec![0x03, 0x20, 0x03, 0x20]);
    assert_eq!(encode_resolution(&Dpi { x: 0, y: 0 }), vec![0, 0, 0, 0]);
    assert_eq!(encode_resolution(&Dpi { x: 1, y: 256 }), vec![0, 1, 1, 0]);
    assert_eq!(encode_resolution(&Dpi { x: 65535, y: 0x1234 }), vec![0xff, 0xff, 0x12, 0x34]);
}

#[test]
fn resolution_encoding_agrees_with_the_standard_library() {
    let values: [u16; 9] = [0, 1, 255, 256, 800, 1600, 0x1234, 0xff00, 65535];
    for x in values {
        for y in values {
            let expected = [x.to_be_bytes(), y.to_be_bytes()].concat();
            assert_eq!(encode_resolution(&Dpi { x, y }), expected);
        }
    }
}

#[test]
fn resolution_unpacks_what_was_encoded() {
    assert_eq!(unpack_resolution(&[0x03, 0x20, 0x03, 0x20]), Ok(Dpi { x: 800, y: 800 }));
    assert_eq!(unpack_resolution(&[0xff, 0xff, 0x00, 0x01]), Ok(Dpi { x: 65535, y: 1 }));
}

#[test]
fn resolution_unpacks_four_bytes_only() {
    let invalid = Err(Error::InvalidAttribute(Attribute::Dpi));
    assert_eq!(unpack_resolution(&[]), invalid);
    assert_eq!(unpack_resolution(&[0x03, 0x20, 0x03]), invalid);
    assert_eq!(unpack_resolution(&[0x03, 0x20, 0x03, 0x20, 0x00]), invalid);
    assert_eq!(unpack_resolution(b"800:800"), invalid);
}

#[test]
fn resolution_is_reported_in_canonical_numerals() {
    assert_eq!(format_resolution(&Dpi { x: 800, y: 800 }), b"800:800".to_vec());
    assert_eq!(format_resolution(&Dpi { x: 0, y: 65535 }), b"0:65535".to_vec());
}

#[test]
fn resolution_round_trips_through_both_wire_forms() {
    let values: [u16; 10] = [0, 1, 9, 10, 255, 256, 800, 1600, 26000, 65535];
    for x in values {
        for y in values {
            let text = format!("{}:{}", x, y).into_bytes();
            let decoded = decode_resolution(&text).unwrap();
            assert_eq!(decoded, Dpi { x, y });
            let written = encode_resolution(&decoded);
            assert_eq!(written, vec![(x >> 8) as u8, x as u8, (y >> 8) as u8, y as u8]);
            let read_back = unpack_resolution(&written).unwrap();
            assert_eq!(read_back, decoded);
            let reported = format_resolution(&read_back);
            assert_eq!(reported, text);
            assert_eq!(decode_resolution(&reported), Ok(Dpi { x, y }));
        }
    }
}

#[test]
fn resolution_with_leading_zeros_round_trips_to_the_same_bytes() {
    let decoded = decode_resolution(b"0800:+00800").unwrap();
    assert_eq!(encode_resolution(&decoded), vec![0x03, 0x20, 0x03, 0x20]);
    assert_eq!(format_resolution(&decoded), b"800:800".to_vec());
}

#[test]
fn poll_rate_decodes_the_three_rates() {
    assert_eq!(decode_poll_rate(b"125"), Ok(PollRate::OneTwentyFive));
    assert_eq!(decode_poll_rate(b"500"), Ok(PollRate::FiveHundred));
    assert_eq!(decode_poll_rate(b"1000"), Ok(PollRate::OneThousand));
}

#[test]
fn poll_rate_outside_the_three_is_unsupported() {
    let unsupported = Err(Error::UnsupportedValue(Attribute::PollRate));
    assert_eq!(decode_poll_rate(b""), unsupported);
    assert_eq!(decode_poll_rate(b"0"), unsupported);
    assert_eq!(decode_poll_rate(b"124"), unsupported);
    assert_eq!(decode_poll_rate(b"126"), unsupported);
    assert_eq!(decode_poll_rate(b"250"), unsupported);
    assert_eq!(decode_poll_rate(b"2000"), unsupported);
    assert_eq!(decode_poll_rate(b"8000"), unsupported);
    assert_eq!(decode_poll_rate(b"12"), unsupported);
    assert_eq!(decode_poll_rate(b"1250"), unsupported);
    assert_eq!(decode_poll_rate(b"fast"), unsupported);
    assert_eq!(decode_poll_rate(&[0xff]), unsupported);
}

#[test]
fn poll_rate_matches_the_exact_text_only() {
    let unsupported = Err(Error::UnsupportedValue(Attribute::PollRate));
    assert_eq!(decode_poll_rate(b"0125"), unsupported);
    assert_eq!(decode_poll_rate(b"+125"), unsupported);
    assert_eq!(decode_poll_rate(b"125 "), unsupported);
    assert_eq!(decode_poll_rate(b" 125"), unsupported);
    assert_eq!(decode_poll_rate(b"125\n"), unsupported);
    assert_eq!(decode_poll_rate(b"1000.0"), unsupported);
}

#[test]
fn poll_rate_encodes_as_its_numeral() {
    assert_eq!(encode_poll_rate(PollRate::OneTwentyFive), b"125".to_vec());
    assert_eq!(encode_poll_rate(PollRate::FiveHundred), b"500".to_vec());
    assert_eq!(encode_poll_rate(PollRate::OneThousand), b"1000".to_vec());
}

#[test]
fn poll_rate_round_trips() {
    let rates = [PollRate::OneTwentyFive, PollRate::FiveHundred, PollRate::OneThousand];
    for rate in rates {
        assert_eq!(decode_poll_rate(&encode_poll_rate(rate)), Ok(rate));
    }
    let texts: [&[u8]; 3] = [b"125", b"500", b"1000"];
    for text in texts {
        let rate = decode_poll_rate(text).unwrap();
        assert_eq!(encode_poll_rate(rate), text.to_vec());
    }
}

#[test]
fn poll_rate_every_other_number_is_unsupported() {
    for n in 0u32..3000 {
        let text = n.to_string().into_bytes();
        let decoded = decode_poll_rate(&text);
        match n {
            125 | 500 | 1000 => assert_eq!(decoded.unwrap().as_u32(), n),
            _ => assert_eq!(decoded, Err(Error::UnsupportedValue(Attribute::PollRate))),
        }
    }
}

#[test]
fn poll_rate_as_u32_is_the_frequency() {
    assert_eq!(PollRate::OneTwentyFive.as_u32(), 125);
    assert_eq!(PollRate::FiveHundred.as_u32(), 500);
    assert_eq!(PollRate::OneThousand.as_u32(), 1000);
}

#[test]
fn poll_rate_from_str_reads_text() {
    assert_eq!(PollRate::from_str("125"), Ok(PollRate::OneTwentyFive));
    assert_eq!(PollRate::from_str("500"), Ok(PollRate::FiveHundred));
    assert_eq!(PollRate::from_str("1000"), Ok(PollRate::OneThousand));
    assert_eq!(PollRate::from_str("250"), Err(Error::UnsupportedValue(Attribute::PollRate)));
    assert_eq!(PollRate::from_str(""), Err(Error::UnsupportedValue(Attribute::PollRate)));
    assert_eq!(PollRate::from_str("１２５"), Err(Error::UnsupportedValue(Attribute::PollRate)));
}

#[test]
fn text_decodes_utf8() {
    assert_eq!(decode_text(Attribute::DeviceSerial, b"AB12"), Ok("AB12".to_string()));
    assert_eq!(decode_text(Attribute::FirmwareVersion, b"v1.2"), Ok("v1.2".to_string()));
    assert_eq!(decode_text(Attribute::DeviceType, b""), Ok(String::new()));
    assert_eq!(
        decode_text(Attribute::DeviceType, "Souris é ⌨ 🖱".as_bytes()),
        Ok("Souris é ⌨ 🖱".to_string())
    );
}

#[test]
fn text_that_is_not_utf8_is_invalid() {
    assert_eq!(
        decode_text(Attribute::DeviceType, &[0xff, 0xfe]),
        Err(Error::InvalidAttribute(Attribute::DeviceType))
    );
    assert_eq!(
        decode_text(Attribute::DeviceSerial, &[0x41, 0x80]),
        Err(Error::InvalidAttribute(Attribute::DeviceSerial))
    );
    assert_eq!(
        decode_text(Attribute::FirmwareVersion, &[0xc3]),
        Err(Error::InvalidAttribute(Attribute::FirmwareVersion))
    );
    assert_eq!(
        decode_text(Attribute::FirmwareVersion, &[0xed, 0xa0, 0x80]),
        Err(Error::InvalidAttribute(Attribute::FirmwareVersion))
    );
    assert_eq!(
        decode_text(Attribute::FirmwareVersion, &[0xc0, 0x80]),
        Err(Error::InvalidAttribute(Attribute::FirmwareVersion))
    );
}
