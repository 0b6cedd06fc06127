//! The time stamps of a telegram.

use vstd::prelude::*;

use crate::ascii::{is_ascii_digit, is_digit, ZERO};

verus! {

/// `S`, the flag of a time stamp taken in daylight saving time.
pub const SUMMER: u8 = 0x53;

/// A point in time as reported by the meter: a reading of its local clock,
/// not an instant. The fields are kept as they were sent, and no calendar is
/// consulted.
///
/// `year` is normalized from 2 digits by mapping it to 1969..=2068 range
#[derive(Debug, Clone, Copy, PartialEq, Eq, PartialOrd, Ord, Structural)]
pub struct Tst {
    /// Year, normalized from 2 digits by mapping it to 1969..=2068 range
    pub year: u16,
    pub month: u8,
    pub day: u8,
    pub hour: u8,
    pub minute: u8,
    pub second: u8,
    /// True if Daylight Saving Time is active
    pub dst: bool,
}

/// The year that a two-digit year stands for: 69 to 99 fall in the 1900s and
/// 0 to 68 in the 2000s. A year of more than two digits stands for itself.
pub open spec fn normalized_year(year: u16) -> u16 {
    if 69 <= year <= 99 {
        (year + 1900) as u16
    } else if year <= 68 {
        (year + 2000) as u16
    } else {
        year
    }
}

/// The number that the two digits of `bytes` at `at` and `at + 1` write.
pub open spec fn two_digits(bytes: Seq<u8>, at: int) -> int {
    (bytes[at] - ZERO) * 10 + (bytes[at + 1] - ZERO)
}

/// The time stamp that `bytes` write, if they write one: exactly 13 bytes,
/// of which the first twelve are digits and give year, month, day, hour,
/// minute and second by two digits each, and the last is the daylight
/// saving flag.
pub open spec fn tst_of(bytes: Seq<u8>) -> Option<Tst> {
    if bytes.len() == 13 && forall|i: int| 0 <= i < 12 ==> is_digit(#[trigger] bytes[i]) {
        Some(
            Tst {
                year: normalized_year(two_digits(bytes, 0) as u16),
                month: two_digits(bytes, 2) as u8,
                day: two_digits(bytes, 4) as u8,
                hour: two_digits(bytes, 6) as u8,
                minute: two_digits(bytes, 8) as u8,
                second: two_digits(bytes, 10) as u8,
                dst: bytes[12] == SUMMER,
            },
        )
    } else {
        None
    }
}

/// Every time stamp that is read has a year from 1969 to 2068 and no field
/// above 99.
pub proof fn law_time_stamp_ranges(bytes: Seq<u8>)
    requires
        tst_of(bytes).is_some(),
    ensures
        1969 <= tst_of(bytes).unwrap().year <= 2068,
        tst_of(bytes).unwrap().month <= 99,
        tst_of(bytes).unwrap().day <= 99,
        tst_of(bytes).unwrap().hour <= 99,
        tst_of(bytes).unwrap().minute <= 99,
        tst_of(bytes).unwrap().second <= 99,
{
    assert(is_digit(bytes[0]) && is_digit(bytes[1]) && is_digit(bytes[2]) && is_digit(bytes[3]));
    assert(is_digit(bytes[4]) && is_digit(bytes[5]) && is_digit(bytes[6]) && is_digit(bytes[7]));
    assert(is_digit(bytes[8]) && is_digit(bytes[9]) && is_digit(bytes[10]) && is_digit(
        bytes[11],
    ));
}

/// The year that a two-digit year stands for.
pub fn normalize_two_digit_year(year: u16) -> (r: u16)
    ensures
        r == normalized_year(year),
        year <= 99 ==> 1969 <= r <= 2068,
{
    if 69 <= year && year <= 99 {
        year + 1900
    } else if year <= 68 {
        year + 2000
    } else {
        year
    }
}

/// The number that two digits write, or `None` where one of the two bytes is
/// no digit.
fn read_two_digits(bytes: &[u8], at: usize) -> (r: Option<u8>)
    requires
        at + 1 < bytes@.len(),
    ensures
        r.is_some() == (is_digit(bytes@[at as int]) && is_digit(bytes@[at + 1])),
        r matches Some(v) ==> v == two_digits(bytes@, at as int) && v <= 99,
{
    let tens = bytes[at];
    let ones = bytes[at + 1];
    if is_ascii_digit(tens) && is_ascii_digit(ones) {
        Some((tens - ZERO) * 10 + (ones - ZERO))
    } else {
        None
    }
}

impl Tst {
    /// Reads a time stamp: see [`tst_of`]. A span of another length, or with
    /// another byte than a digit in a field, is no time stamp.
    pub fn try_from_bytes(bytes: &[u8]) -> (r: Option<Self>)
        ensures
            r == tst_of(bytes@),
    {
        if bytes.len() != 13 {
            return None;
        }
        let year = match read_two_digits(bytes, 0) {
            Some(v) => v,
            None => { return None; },
        };
        let month = match read_two_digits(bytes, 2) {
            Some(v) => v,
            None => { return None; },
        };
        let day = match read_two_digits(bytes, 4) {
            Some(v) => v,
            None => { return None; },
        };
        let hour = match read_two_digits(bytes, 6) {
            Some(v) => v,
            None => { return None; },
        };
        let minute = match read_two_digits(bytes, 8) {
            Some(v) => v,
            None => { return None; },
        };
        let second = match read_two_digits(bytes, 10) {
            Some(v) => v,
            None => { return None; },
        };
        let dst = bytes[12] == SUMMER;
        Some(
            Tst { year: normalize_two_digit_year(year as u16), month, day, hour, minute, second, dst },
        )
    }
}

} // verus!
