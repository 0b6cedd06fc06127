use dsmr_parse::unit_value::split_unit;
use dsmr_parse::{FloatLiteral, UnitValue};

fn float(text: &[u8]) -> Option<(f64, Option<String>)> {
    UnitValue::<FloatLiteral>::from_bytes(text)
        .map(|v| (std::str::from_utf8(v.value.as_bytes()).unwrap().parse().unwrap(), v.unit))
}

#[test]
fn value_with_unit() {
    assert_eq!(float(b"4169.415*kWh"), Some((4169.415, Some("kWh".to_string()))));
    assert_eq!(UnitValue::<u16>::from_bytes(b"4"), Some(UnitValue::without_unit(4)));
    assert_eq!(float(b"abc"), None);
    assert_eq!(float(b"abc*kWh"), None);
    assert_eq!(float(b""), None);
    assert_eq!(float(b"*kWh"), None);
}

#[test]
fn value_is_split_at_the_first_star_only() {
    assert_eq!(UnitValue::<u16>::from_bytes(b"4*A"), Some(UnitValue::with_unit(4, "A")));
    assert_eq!(UnitValue::<u16>::from_bytes(b"4*"), Some(UnitValue::with_unit(4, "")));
    assert_eq!(UnitValue::<u16>::from_bytes(b"4*a*b"), Some(UnitValue::with_unit(4, "a*b")));
    assert_eq!(UnitValue::<u16>::from_bytes(b"4 *A"), None);
    assert_eq!(split_unit(b"12*ab"), (&b"12"[..], Some(&b"ab"[..])));
    assert_eq!(split_unit(b"12"), (&b"12"[..], None));
    assert_eq!(split_unit(b"*"), (&b""[..], Some(&b""[..])));
    assert_eq!(split_unit(b""), (&b""[..], None));
}

#[test]
fn value_has_to_fit_its_kind() {
    assert_eq!(UnitValue::<u16>::from_bytes(b"65535*A"), Some(UnitValue::with_unit(65535, "A")));
    assert_eq!(UnitValue::<u16>::from_bytes(b"65536*A"), None);
    assert_eq!(UnitValue::<u16>::from_bytes(b"1.5*A"), None);
    assert_eq!(UnitValue::<u16>::from_bytes(b"-1*A"), None);
    assert_eq!(
        UnitValue::<u64>::from_bytes(b"0000000240*s"),
        Some(UnitValue::with_unit(240, "s"))
    );
    assert_eq!(
        UnitValue::<u64>::from_bytes(b"18446744073709551615"),
        Some(UnitValue::without_unit(u64::MAX))
    );
    assert_eq!(UnitValue::<u64>::from_bytes(b"18446744073709551616"), None);
    assert_eq!(UnitValue::<u64>::from_bytes(b"0000000240s"), None);
}

#[test]
fn unit_has_to_be_text() {
    assert_eq!(UnitValue::<u16>::from_bytes(b"4*\xff"), None);
    assert_eq!(UnitValue::<u64>::from_bytes(b"4*\xc3"), None);
    assert_eq!(float(b"4.0*\xff"), None);
    assert_eq!(
        UnitValue::<u16>::from_bytes("4*m\u{b3}".as_bytes()),
        Some(UnitValue::with_unit(4, "m\u{b3}"))
    );
}

#[test]
fn builders_and_deref() {
    let bare = UnitValue::without_unit(7u32);
    assert_eq!(bare.value, 7);
    assert_eq!(bare.unit, None);
    assert_eq!(*bare, 7);
    let with = UnitValue::with_unit(7u32, "V");
    assert_eq!(with.value, 7);
    assert_eq!(with.unit, Some("V".to_string()));
    assert_eq!(*with, 7);
    assert_ne!(bare, with);
}
