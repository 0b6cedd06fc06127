//! A number with the unit it was sent with.

use vstd::prelude::*;
use vstd::slice::slice_to_vec;
use vstd::string::*;
use vstd::utf8::{decode_utf8, valid_utf8};

use crate::ascii::{find_byte, scan_to, STAR};
use crate::number::{is_float_literal, parse_u16, parse_u64, parse_unsigned, FloatLiteral};
use crate::text::string_from_utf8;

verus! {

/// A single value with an optional unit attached to it
#[derive(Debug, Default, PartialEq, PartialOrd, Clone)]
pub struct UnitValue<T> {
    pub value: T,
    pub unit: Option<String>,
}

/// What a [`UnitValue`] holds: the view of its value, and the characters of
/// its unit.
pub struct UnitValueView<V> {
    pub value: V,
    pub unit: Option<Seq<char>>,
}

impl<T: View> View for UnitValue<T> {
    type V = UnitValueView<T::V>;

    open spec fn view(&self) -> UnitValueView<T::V> {
        UnitValueView {
            value: self.value@,
            unit: match self.unit {
                Some(u) => Some(u@),
                None => None,
            },
        }
    }
}

/// The part of `s` that writes the number: what stands before the first `*`,
/// or all of `s` where it has none.
pub open spec fn number_part(s: Seq<u8>) -> Seq<u8> {
    s.take(find_byte(s, STAR, 0))
}

/// The part of `s` that writes the unit: what stands after the first `*`, if
/// `s` has one.
pub open spec fn unit_part(s: Seq<u8>) -> Option<Seq<u8>> {
    if find_byte(s, STAR, 0) < s.len() {
        Some(s.skip(find_byte(s, STAR, 0) + 1))
    } else {
        None
    }
}

/// Whether the unit of `s` can be kept as text: it is absent or valid UTF-8.
pub open spec fn unit_is_text(s: Seq<u8>) -> bool {
    unit_part(s) matches Some(u) ==> valid_utf8(u)
}

/// The unit of `s` as text.
pub open spec fn unit_text(s: Seq<u8>) -> Option<Seq<char>> {
    match unit_part(s) {
        Some(u) => Some(decode_utf8(u)),
        None => None,
    }
}

/// What `s` reads as where a `u16` is wanted, or `None` where its number is
/// no decimal `u16` or its unit is no text.
pub open spec fn unit_u16_of(s: Seq<u8>) -> Option<UnitValueView<u16>> {
    match parse_unsigned(number_part(s), 10, 0xffff) {
        Some(v) if unit_is_text(s) => Some(UnitValueView { value: v as u16, unit: unit_text(s) }),
        _ => None,
    }
}

/// What `s` reads as where a `u64` is wanted, or `None` where its number is
/// no decimal `u64` or its unit is no text.
pub open spec fn unit_u64_of(s: Seq<u8>) -> Option<UnitValueView<u64>> {
    match parse_unsigned(number_part(s), 10, 0xffff_ffff_ffff_ffff) {
        Some(v) if unit_is_text(s) => Some(UnitValueView { value: v as u64, unit: unit_text(s) }),
        _ => None,
    }
}

/// What `s` reads as where a floating-point number is wanted, or `None`
/// where its number is no floating-point literal or its unit is no text.
pub open spec fn unit_float_of(s: Seq<u8>) -> Option<UnitValueView<Seq<u8>>> {
    if is_float_literal(number_part(s)) && unit_is_text(s) {
        Some(UnitValueView { value: number_part(s), unit: unit_text(s) })
    } else {
        None
    }
}

/// Splits `s` at its first `*` into the number and, where there is a `*`,
/// the unit.
pub fn split_unit<'a>(s: &'a [u8]) -> (r: (&'a [u8], Option<&'a [u8]>))
    ensures
        r.0@ == number_part(s@),
        match r.1 {
            Some(u) => unit_part(s@) == Some(u@),
            None => unit_part(s@).is_none(),
        },
{
    let k = scan_to(s, STAR, 0);
    let number = &s[0..k];
    assert(number@ =~= s@.take(k as int));
    if k < s.len() {
        let unit = &s[k + 1..s.len()];
        assert(unit@ =~= s@.skip(k + 1));
        (number, Some(unit))
    } else {
        (number, None)
    }
}

/// The unit as a string. The outer `None` says that the unit is no text.
fn read_unit(unit: Option<&[u8]>) -> (r: Option<Option<String>>)
    ensures
        r.is_some() == (unit matches Some(u) ==> valid_utf8(u@)),
        r matches Some(t) ==> match unit {
            Some(u) => t matches Some(text) && text@ == decode_utf8(u@),
            None => t.is_none(),
        },
{
    match unit {
        None => Some(None),
        Some(u) => match string_from_utf8(slice_to_vec(u)) {
            Some(text) => Some(Some(text)),
            None => None,
        },
    }
}

impl<T> UnitValue<T> {
    /// A value that was sent without a unit.
    pub fn without_unit(value: T) -> (r: Self)
        ensures
            r.value == value,
            r.unit.is_none(),
    {
        Self { value, unit: None }
    }

    /// A value with the unit that was sent after it.
    pub fn with_unit(value: T, unit: &str) -> (r: Self)
        ensures
            r.value == value,
            r.unit matches Some(u) && u@ == unit@,
    {
        Self { value, unit: Some(unit.to_owned()) }
    }
}

impl<T> core::ops::Deref for UnitValue<T> {
    type Target = T;

    fn deref(&self) -> (r: &T)
        ensures
            *r == self.value,
    {
        &self.value
    }
}

impl UnitValue<u16> {
    /// Reads a `u16` with its unit: see [`unit_u16_of`].
    pub fn from_bytes(s: &[u8]) -> (r: Option<Self>)
        ensures
            r.is_some() == unit_u16_of(s@).is_some(),
            r matches Some(v) ==> unit_u16_of(s@) == Some(v@),
    {
        let (number, unit) = split_unit(s);
        match parse_u16(number) {
            Some(value) => match read_unit(unit) {
                Some(unit) => Some(UnitValue { value, unit }),
                None => None,
            },
            None => None,
        }
    }
}

impl UnitValue<u64> {
    /// Reads a `u64` with its unit: see [`unit_u64_of`].
    pub fn from_bytes(s: &[u8]) -> (r: Option<Self>)
        ensures
            r.is_some() == unit_u64_of(s@).is_some(),
            r matches Some(v) ==> unit_u64_of(s@) == Some(v@),
    {
        let (number, unit) = split_unit(s);
        match parse_u64(number) {
            Some(value) => match read_unit(unit) {
                Some(unit) => Some(UnitValue { value, unit }),
                None => None,
            },
            None => None,
        }
    }
}

impl UnitValue<FloatLiteral> {
    /// Reads a floating-point number with its unit: see [`unit_float_of`].
    pub fn from_bytes(s: &[u8]) -> (r: Option<Self>)
        ensures
            r.is_some() == unit_float_of(s@).is_some(),
            r matches Some(v) ==> unit_float_of(s@) == Some(v@),
    {
        let (number, unit) = split_unit(s);
        match FloatLiteral::parse(number) {
            Some(value) => match read_unit(unit) {
                Some(unit) => Some(UnitValue { value, unit }),
                None => None,
            },
            None => None,
        }
    }
}

} // verus!
