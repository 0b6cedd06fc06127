use dsmr_parse::number::{
    check_decimal_number, check_exponent, check_float_literal, digit_of, parse_hex_u16,
    parse_radix, parse_u16, parse_u32, parse_u64, parse_u8,
};
use dsmr_parse::FloatLiteral;

#[test]
fn digits_count_as_the_standard_library_counts_them() {
    for b in 0..=255u8 {
        let expected = (b as char).to_digit(36).map_or(36, |d| d as u8);
        let expected = if b < 0x80 { expected } else { 36 };
        assert_eq!(digit_of(b), expected, "byte {b}");
    }
}

#[test]
fn unsigned_integers_are_read_as_the_standard_library_reads_them() {
    let cases: [&str; 24] = [
        "", "+", "-", "0", "00", "7", "+7", "-7", "-0", "007", "255", "256", "+255", "0255", " 1",
        "1 ", "1_0", "1.0", "4294967295", "4294967296", "18446744073709551615",
        "18446744073709551616", "99999999999999999999999999", "++1",
    ];
    for text in cases {
        assert_eq!(parse_u8(text.as_bytes()), text.parse::<u8>().ok(), "{text:?} as u8");
        assert_eq!(parse_u16(text.as_bytes()), text.parse::<u16>().ok(), "{text:?} as u16");
        assert_eq!(parse_u32(text.as_bytes()), text.parse::<u32>().ok(), "{text:?} as u32");
        assert_eq!(parse_u64(text.as_bytes()), text.parse::<u64>().ok(), "{text:?} as u64");
    }
}

#[test]
fn unsigned_integers_have_exact_values() {
    assert_eq!(parse_u8(b"42"), Some(42));
    assert_eq!(parse_u16(b"65535"), Some(65535));
    assert_eq!(parse_u16(b"65536"), None);
    assert_eq!(parse_u32(b"00004"), Some(4));
    assert_eq!(parse_u64(b"0000000240"), Some(240));
    assert_eq!(parse_u64(b"0000000240s"), None);
    assert_eq!(parse_u8(b"\xff"), None);
}

#[test]
fn hexadecimal_checksums_are_read_as_the_standard_library_reads_them() {
    let cases: [&str; 16] = [
        "", "+", "0", "1234", "EF2F", "ef2f", "Ef2f", "FFFF", "10000", "0FFFF", "+12", "-12",
        "12G4", "0x12", " 12", "00000000001",
    ];
    for text in cases {
        assert_eq!(parse_hex_u16(text.as_bytes()), u16::from_str_radix(text, 16).ok(), "{text:?}");
    }
    assert_eq!(parse_hex_u16(b"1234"), Some(0x1234));
    assert_eq!(parse_hex_u16(b"ef2F"), Some(0xEF2F));
}

#[test]
fn integers_in_any_radix_are_read_as_the_standard_library_reads_them() {
    let cases: [&str; 8] = ["0", "z", "Z", "10", "zz", "102", "a", "+1"];
    for radix in 2..=36u8 {
        for text in cases {
            assert_eq!(
                parse_radix(text.as_bytes(), radix, u64::MAX),
                u64::from_str_radix(text, radix as u32).ok(),
                "{text:?} in radix {radix}"
            );
        }
    }
    assert_eq!(parse_radix(b"11", 2, 3), Some(3));
    assert_eq!(parse_radix(b"100", 2, 3), None);
}

const FLOATS: [&str; 62] = [
    "", "+", "-", ".", "+.", "-.", "0", "1", "+1", "-1", "1.", ".1", "1.5", "+1.5", "-1.5",
    "004169.415", "00.000", "1e5", "1E5", "1e+5", "1e-5", "1.e5", ".1e5", "1.5e10", "e5", "1e",
    "1e+", "1e-", ".e5", "1e5.5", "1e5e5", "1..5", "1.5.5", "inf", "INF", "Inf", "+inf", "-inf",
    "infinity", "INFINITY", "InFiNiTy", "-infinity", "nan", "NaN", "NAN", "+nan", "-nan", "infinit",
    "infinityy", "in", "na", "nane", " 1", "1 ", "1,5", "1_000", "0x10", "1f", "--1", "+-1",
    "1e400", "0.000000000000000000000000000000000000000000000000000000000000000000000001",
];

#[test]
fn floating_point_literals_are_the_ones_that_the_standard_library_reads() {
    for text in FLOATS {
        assert_eq!(
            check_float_literal(text.as_bytes()),
            text.parse::<f64>().is_ok(),
            "{text:?}"
        );
    }
    assert!(!check_float_literal(b"1\xff"));
    assert!(!check_float_literal(b"\xc4\xb0nf"));
}

#[test]
fn decimal_numbers_and_exponents() {
    assert!(check_decimal_number(b"4169.415"));
    assert!(check_decimal_number(b"1e5"));
    assert!(!check_decimal_number(b"+1"));
    assert!(!check_decimal_number(b"."));
    assert!(!check_decimal_number(b"inf"));
    assert!(check_exponent(b"e5"));
    assert!(check_exponent(b"E-12"));
    assert!(!check_exponent(b"e"));
    assert!(!check_exponent(b"e+"));
    assert!(!check_exponent(b"5"));
    assert!(!check_exponent(b""));
    assert!(!check_exponent(b"e5x"));
}

#[test]
fn float_literal_keeps_its_text() {
    let literal = FloatLiteral::parse(b"004169.415").unwrap();
    assert_eq!(literal.as_bytes(), b"004169.415");
    let number: f64 = std::str::from_utf8(literal.as_bytes()).unwrap().parse().unwrap();
    assert_eq!(number, 4169.415);
    assert_eq!(literal.clone(), literal);
    assert_eq!(FloatLiteral::parse(b"abc"), None);
    assert_eq!(FloatLiteral::parse(b""), None);
    for text in FLOATS {
        if let Some(literal) = FloatLiteral::parse(text.as_bytes()) {
            assert!(std::str::from_utf8(literal.as_bytes()).unwrap().parse::<f64>().is_ok());
        }
    }
}
