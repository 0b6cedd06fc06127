//! The values that take more than one step to read: octet strings, the log
//! of power failures, and the gas reading.

use vstd::prelude::*;
use vstd::string::*;

use crate::ascii::{is_text, CLOSE, OPEN};
use crate::code_line::{obis_of, ParsedObis};
use crate::number::{all_digits, digit_of, digit_weight, parse_u8, parse_unsigned};
use crate::tst::{tst_of, Tst};
use crate::unit_value::{unit_u64_of, UnitValue, UnitValueView};

verus! {

/// The byte that the two hexadecimal digits of `s` at `2 * i` and
/// `2 * i + 1` write.
pub open spec fn octet_at(s: Seq<u8>, i: int) -> u8 {
    (digit_weight(s[2 * i]) * 16 + digit_weight(s[2 * i + 1])) as u8
}

/// The text that the octet string `s` writes, if it is one: an even number
/// of hexadecimal digits, of which each pair gives one character by its
/// code.
pub open spec fn octets_of(s: Seq<u8>) -> Option<Seq<char>> {
    if s.len() % 2 == 0 && all_digits(s, 16) {
        Some(Seq::new(s.len() / 2, |i: int| octet_at(s, i) as char))
    } else {
        None
    }
}

/// Decodes an octet string: see [`octets_of`]. An odd number of bytes, or a
/// byte that is no hexadecimal digit, gives `None`.
pub fn parse_octet_string(value: &[u8]) -> (r: Option<String>)
    ensures
        match r {
            Some(text) => octets_of(value@) == Some(text@),
            None => octets_of(value@).is_none(),
        },
{
    if value.len() % 2 != 0 {
        return None;
    }
    let mut out = String::new();
    let mut i: usize = 0;
    while i < value.len()
        invariant
            i <= value@.len(),
            i % 2 == 0,
            value@.len() % 2 == 0,
            all_digits(value@.take(i as int), 16),
            out@ == Seq::new(i as nat / 2, |k: int| octet_at(value@, k) as char),
        decreases value@.len() - i,
    {
        let high = digit_of(value[i]);
        let low = digit_of(value[i + 1]);
        if high >= 16 || low >= 16 {
            assert(digit_weight(value@[i as int]) >= 16 || digit_weight(value@[i + 1]) >= 16);
            return None;
        }
        out.push((high * 16 + low) as char);
        proof {
            let next = value@.take(i + 2);
            assert forall|j: int| 0 <= j < next.len() implies digit_weight(#[trigger] next[j])
                < 16 by {
                if j < i {
                    assert(next[j] == value@.take(i as int)[j]);
                }
            }
            assert(out@ =~= Seq::new((i + 2) as nat / 2, |k: int| octet_at(value@, k) as char));
        }
        i += 2;
    }
    assert(value@.take(i as int) =~= value@);
    Some(out)
}

/// The index of the first `)(` in `s` at or after `from`, or the length of
/// `s` where there is none.
pub open spec fn group_break(s: Seq<u8>, from: int) -> int
    decreases s.len() - from,
{
    if 0 <= from && from + 1 < s.len() {
        if s[from] == CLOSE && s[from + 1] == OPEN {
            from
        } else {
            group_break(s, from + 1)
        }
    } else {
        s.len() as int
    }
}

/// The parts that `s` falls into where it is cut at each `)(`, from the
/// left. There is always at least one part.
pub open spec fn split_groups(s: Seq<u8>) -> Seq<Seq<u8>>
    decreases s.len(),
{
    let k = group_break(s, 0);
    if 0 <= k && k + 2 <= s.len() {
        seq![s.take(k)] + split_groups(s.skip(k + 2))
    } else {
        seq![s]
    }
}

/// The index of the first `)(` in `s` at or after `from`, or the length of
/// `s`.
pub fn scan_group_break(s: &[u8], from: usize) -> (k: usize)
    requires
        from <= s@.len(),
    ensures
        k == group_break(s@, from as int),
        k == s@.len() || k + 2 <= s@.len(),
{
    let mut k: usize = from;
    while s.len() - k > 1 && !(s[k] == CLOSE && s[k + 1] == OPEN)
        invariant
            from <= k <= s@.len(),
            group_break(s@, from as int) == group_break(s@, k as int),
        decreases s@.len() - k,
    {
        k += 1;
    }
    if s.len() - k > 1 {
        k
    } else {
        s.len()
    }
}

/// The byte strings that the slices of `parts` hold.
pub open spec fn parts_view(parts: Seq<&[u8]>) -> Seq<Seq<u8>> {
    parts.map_values(|p: &[u8]| p@)
}

/// Cuts `s` at each `)(`: see [`split_groups`].
pub fn split_at_group_breaks<'a>(s: &'a [u8]) -> (parts: Vec<&'a [u8]>)
    ensures
        parts_view(parts@) == split_groups(s@),
{
    let mut parts: Vec<&'a [u8]> = Vec::new();
    let mut rest: &'a [u8] = s;
    loop
        invariant_except_break
            parts_view(parts@) + split_groups(rest@) == split_groups(s@),
        ensures
            parts_view(parts@) == split_groups(s@),
        decreases rest@.len(),
    {
        let k = scan_group_break(rest, 0);
        if k < rest.len() {
            let part = &rest[0..k];
            let after = &rest[k + 2..rest.len()];
            proof {
                assert(part@ =~= rest@.take(k as int));
                assert(after@ =~= rest@.skip(k + 2));
                assert(parts_view(parts@.push(part)) =~= parts_view(parts@).push(part@));
                assert(parts_view(parts@).push(part@) + split_groups(after@) =~= parts_view(
                    parts@,
                ) + split_groups(rest@));
            }
            parts.push(part);
            rest = after;
        } else {
            proof {
                assert(parts_view(parts@.push(rest)) =~= parts_view(parts@).push(rest@));
                assert(parts_view(parts@).push(rest@) =~= parts_view(parts@) + split_groups(
                    rest@,
                ));
            }
            parts.push(rest);
            break ;
        }
    }
    parts
}

/// One power failure: when it ended and how long it had lasted.
#[derive(Debug, PartialOrd, PartialEq, Clone)]
pub struct PowerFailureEntry {
    pub end_date: Tst,
    pub duration: UnitValue<u64>,
}

/// What a [`PowerFailureEntry`] holds.
pub struct PowerFailureView {
    pub end_date: Tst,
    pub duration: UnitValueView<u64>,
}

impl View for PowerFailureEntry {
    type V = PowerFailureView;

    open spec fn view(&self) -> PowerFailureView {
        PowerFailureView { end_date: self.end_date, duration: self.duration@ }
    }
}

/// The entries that the parts from `from` on write, two parts to an entry:
/// a time stamp, then a duration. A pair of which either part cannot be read
/// gives no entry, and a last part without its partner is passed over.
pub open spec fn entries_of(parts: Seq<Seq<u8>>, from: int) -> Seq<PowerFailureView>
    decreases parts.len() - from,
{
    if 0 <= from && from + 1 < parts.len() {
        let rest = entries_of(parts, from + 2);
        match (tst_of(parts[from]), unit_u64_of(parts[from + 1])) {
            (Some(end_date), Some(duration)) => seq![PowerFailureView { end_date, duration }]
                + rest,
            _ => rest,
        }
    } else {
        Seq::empty()
    }
}

/// Whether `part` is the code that a power failure log names before its
/// entries: a code whose last part is `96.7.19`.
pub open spec fn is_log_reference(part: Seq<u8>) -> bool {
    obis_of(part) matches Some(code) && code.obis == "96.7.19".spec_bytes()
}

/// The power failure log that the span `s` writes:
///
/// ```text
/// <count>)(<code>)(<time stamp>)(<duration>)(<time stamp>)(<duration>)...
/// ```
///
/// The count has to be a `u8` and is not held against the number of entries.
/// Where the count cannot be read or the code is not the one that belongs
/// there, the log is empty.
pub open spec fn log_of(s: Seq<u8>) -> Seq<PowerFailureView> {
    let parts = split_groups(s);
    if parts.len() >= 2 && parse_unsigned(parts[0], 10, 0xff).is_some() && is_log_reference(
        parts[1],
    ) {
        entries_of(parts, 2)
    } else {
        Seq::empty()
    }
}

/// Reads a power failure log: see [`log_of`].
pub fn parse_buffer(value: &[u8]) -> (out: Vec<PowerFailureEntry>)
    ensures
        out@.map_values(|e: PowerFailureEntry| e@) == log_of(value@),
{
    let mut out: Vec<PowerFailureEntry> = Vec::new();
    let parts = split_at_group_breaks(value);
    assert(out@.map_values(|e: PowerFailureEntry| e@) =~= Seq::empty());
    assert(parts@.len() == parts_view(parts@).len());
    if parts.len() < 2 {
        return out;
    }
    assert(parts_view(parts@)[0] == parts@[0]@);
    assert(parts_view(parts@)[1] == parts@[1]@);
    let count = match parse_u8(parts[0]) {
        Some(count) => count,
        None => {
            return out;
        },
    };
    out.reserve(count as usize);
    match ParsedObis::parse(parts[1]) {
        Some((code, _)) => {
            if !is_text(code.obis, "96.7.19") {
                return out;
            }
        },
        None => {
            return out;
        },
    }
    let mut i: usize = 2;
    while parts.len() - i > 1
        invariant
            2 <= i <= parts@.len(),
            parts_view(parts@) == split_groups(value@),
            out@.map_values(|e: PowerFailureEntry| e@) + entries_of(parts_view(parts@), i as int)
                == entries_of(parts_view(parts@), 2),
        decreases parts@.len() - i,
    {
        assert(parts_view(parts@)[i as int] == parts@[i as int]@);
        assert(parts_view(parts@)[i + 1] == parts@[i + 1]@);
        let date = Tst::try_from_bytes(parts[i]);
        let duration = UnitValue::<u64>::from_bytes(parts[i + 1]);
        match (date, duration) {
            (Some(end_date), Some(duration)) => {
                let entry = PowerFailureEntry { end_date, duration };
                proof {
                    let done = out@.map_values(|e: PowerFailureEntry| e@);
                    assert(out@.push(entry).map_values(|e: PowerFailureEntry| e@) =~= done.push(
                        entry@,
                    ));
                    assert(done.push(entry@) + entries_of(parts_view(parts@), i + 2) =~= done
                        + entries_of(parts_view(parts@), i as int));
                }
                out.push(entry);
            },
            _ => {},
        }
        i += 2;
    }
    assert(entries_of(parts_view(parts@), i as int) =~= Seq::empty());
    assert(out@.map_values(|e: PowerFailureEntry| e@) + Seq::empty() =~= out@.map_values(
        |e: PowerFailureEntry| e@,
    ));
    out
}

/// The part of a gas reading that writes its time stamp: what stands before
/// the first `)(`, or all of `s` where it has none.
pub open spec fn reading_date_part(s: Seq<u8>) -> Seq<u8> {
    s.take(group_break(s, 0))
}

/// The part of a gas reading that writes its number: what stands after the
/// first `)(`, if `s` has one.
pub open spec fn reading_value_part(s: Seq<u8>) -> Option<Seq<u8>> {
    if group_break(s, 0) < s.len() {
        Some(s.skip(group_break(s, 0) + 2))
    } else {
        None
    }
}

/// Splits a gas reading at its first `)(` into the time stamp and, where
/// there is a `)(`, the number with its unit.
pub fn parse_mbus_value<'a>(value: &'a [u8]) -> (r: (&'a [u8], Option<&'a [u8]>))
    ensures
        r.0@ == reading_date_part(value@),
        match r.1 {
            Some(number) => reading_value_part(value@) == Some(number@),
            None => reading_value_part(value@).is_none(),
        },
{
    let k = scan_group_break(value, 0);
    let date = &value[0..k];
    assert(date@ =~= value@.take(k as int));
    if k < value.len() {
        let number = &value[k + 2..value.len()];
        assert(number@ =~= value@.skip(k + 2));
        (date, Some(number))
    } else {
        (date, None)
    }
}

} // verus!
