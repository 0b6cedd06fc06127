//! Textual grammars of the numbers that a telegram carries: unsigned
//! integers in a radix, and floating-point literals.
//!
//! Everything here works on bytes. A number is written in ASCII, so a byte
//! outside ASCII is simply a byte that no grammar accepts.

use vstd::prelude::*;
use vstd::string::*;

use crate::ascii::{
    digits_end, is_word, is_word_ignore_case, scan_digits, DOT, MINUS, NINE, PLUS, ZERO,
};

verus! {

/// What `b` counts for as a digit, whatever the radix: `0` to `9` count 0 to
/// 9, a letter of either case counts 10 (`a`) to 35 (`z`), and any other byte
/// counts 36, which is a digit in no radix.
pub open spec fn digit_weight(b: u8) -> nat {
    if ZERO <= b <= NINE {
        (b - ZERO) as nat
    } else if 0x61 <= b <= 0x7a {
        (b - 0x61 + 10) as nat
    } else if 0x41 <= b <= 0x5a {
        (b - 0x41 + 10) as nat
    } else {
        36
    }
}

/// Whether every byte of `s` is a digit in `radix`.
pub open spec fn all_digits(s: Seq<u8>, radix: nat) -> bool {
    forall|i: int| 0 <= i < s.len() ==> digit_weight(#[trigger] s[i]) < radix
}

/// The number that the digits `s` write in `radix`, most significant first.
pub open spec fn digits_value(s: Seq<u8>, radix: nat) -> nat
    decreases s.len(),
{
    if s.len() == 0 {
        0
    } else {
        digits_value(s.drop_last(), radix) * radix + digit_weight(s.last())
    }
}

/// `s` without one leading `+`, if it has one.
pub open spec fn unsigned_digits(s: Seq<u8>) -> Seq<u8> {
    if s.len() > 0 && s[0] == PLUS {
        s.skip(1)
    } else {
        s
    }
}

/// The value of `s` read as an unsigned integer in `radix` that is at most
/// `max`: an optional `+`, then one digit or more and nothing else. `None`
/// where `s` is not of that form or writes a number above `max`.
pub open spec fn parse_unsigned(s: Seq<u8>, radix: nat, max: nat) -> Option<nat> {
    let d = unsigned_digits(s);
    if d.len() > 0 && all_digits(d, radix) && digits_value(d, radix) <= max {
        Some(digits_value(d, radix))
    } else {
        None
    }
}

/// A prefix of a run of digits writes no more than the whole run.
pub proof fn lemma_digits_value_prefix(s: Seq<u8>, radix: nat, k: int)
    requires
        0 <= k <= s.len(),
        radix >= 1,
    ensures
        digits_value(s.take(k), radix) <= digits_value(s, radix),
    decreases s.len() - k,
{
    if k == s.len() {
        assert(s.take(k) =~= s);
    } else {
        let t = s.drop_last();
        assert(t.take(k) =~= s.take(k));
        lemma_digits_value_prefix(t, radix, k);
        assert(digits_value(t, radix) * radix >= digits_value(t, radix)) by (nonlinear_arith)
            requires
                radix >= 1,
        ;
    }
}

/// What `b` counts for as a digit: see [`digit_weight`].
pub fn digit_of(b: u8) -> (w: u8)
    ensures
        w == digit_weight(b),
{
    if ZERO <= b && b <= NINE {
        b - ZERO
    } else if 0x61 <= b && b <= 0x7a {
        b - 0x61 + 10
    } else if 0x41 <= b && b <= 0x5a {
        b - 0x41 + 10
    } else {
        36
    }
}

/// Reads `s` as an unsigned integer in `radix` that is at most `max`.
pub fn parse_radix(s: &[u8], radix: u8, max: u64) -> (r: Option<u64>)
    requires
        2 <= radix <= 36,
    ensures
        r.is_some() == parse_unsigned(s@, radix as nat, max as nat).is_some(),
        r matches Some(v) ==> parse_unsigned(s@, radix as nat, max as nat) == Some(v as nat),
{
    let start: usize = if s.len() > 0 && s[0] == PLUS {
        1
    } else {
        0
    };
    if start == s.len() {
        return None;
    }
    let ghost d = unsigned_digits(s@);
    assert(d =~= s@.skip(start as int));
    let mut acc: u64 = 0;
    let mut i: usize = start;
    while i < s.len()
        invariant
            start <= i <= s.len(),
            2 <= radix <= 36,
            d == s@.skip(start as int),
            d == unsigned_digits(s@),
            all_digits(d.take(i - start), radix as nat),
            acc == digits_value(d.take(i - start), radix as nat),
            acc <= max,
        decreases s.len() - i,
    {
        let w = digit_of(s[i]);
        let ghost k = i - start;
        assert(d[k] == s@[i as int]);
        if w >= radix {
            assert(!all_digits(d, radix as nat));
            return None;
        }
        assert(acc * radix <= 0xffff_ffff_ffff_ffff * 36) by (nonlinear_arith)
            requires
                acc <= 0xffff_ffff_ffff_ffff,
                radix <= 36,
        ;
        let wide: u128 = acc as u128 * radix as u128 + w as u128;
        proof {
            let next = d.take(k + 1);
            assert(next.drop_last() =~= d.take(k));
            assert(next.last() == d[k]);
            assert(digits_value(next, radix as nat) == wide);
            assert forall|j: int| 0 <= j < next.len() implies digit_weight(#[trigger] next[j])
                < radix by {
                if j < k {
                    assert(next[j] == d.take(k)[j]);
                }
            }
        }
        if wide > max as u128 {
            proof {
                lemma_digits_value_prefix(d, radix as nat, k + 1);
            }
            return None;
        }
        acc = wide as u64;
        i += 1;
    }
    assert(d.take(i - start) =~= d);
    Some(acc)
}

/// Reads `s` as a decimal `u8`.
pub fn parse_u8(s: &[u8]) -> (r: Option<u8>)
    ensures
        r.is_some() == parse_unsigned(s@, 10, 0xff).is_some(),
        r matches Some(v) ==> parse_unsigned(s@, 10, 0xff) == Some(v as nat),
{
    match parse_radix(s, 10, 0xff) {
        Some(v) => Some(v as u8),
        None => None,
    }
}

/// Reads `s` as a decimal `u16`.
pub fn parse_u16(s: &[u8]) -> (r: Option<u16>)
    ensures
        r.is_some() == parse_unsigned(s@, 10, 0xffff).is_some(),
        r matches Some(v) ==> parse_unsigned(s@, 10, 0xffff) == Some(v as nat),
{
    match parse_radix(s, 10, 0xffff) {
        Some(v) => Some(v as u16),
        None => None,
    }
}

/// Reads `s` as a decimal `u32`.
pub fn parse_u32(s: &[u8]) -> (r: Option<u32>)
    ensures
        r.is_some() == parse_unsigned(s@, 10, 0xffff_ffff).is_some(),
        r matches Some(v) ==> parse_unsigned(s@, 10, 0xffff_ffff) == Some(v as nat),
{
    match parse_radix(s, 10, 0xffff_ffff) {
        Some(v) => Some(v as u32),
        None => None,
    }
}

/// Reads `s` as a decimal `u64`.
pub fn parse_u64(s: &[u8]) -> (r: Option<u64>)
    ensures
        r.is_some() == parse_unsigned(s@, 10, 0xffff_ffff_ffff_ffff).is_some(),
        r matches Some(v) ==> parse_unsigned(s@, 10, 0xffff_ffff_ffff_ffff) == Some(v as nat),
{
    parse_radix(s, 10, 0xffff_ffff_ffff_ffff)
}

/// Reads `s` as a hexadecimal `u16`, digits of either case.
pub fn parse_hex_u16(s: &[u8]) -> (r: Option<u16>)
    ensures
        r.is_some() == parse_unsigned(s@, 16, 0xffff).is_some(),
        r matches Some(v) ==> parse_unsigned(s@, 16, 0xffff) == Some(v as nat),
{
    match parse_radix(s, 16, 0xffff) {
        Some(v) => Some(v as u16),
        None => None,
    }
}

/// Whether `e` is the exponent of a floating-point literal: `e` or `E`, an
/// optional sign, then one digit or more and nothing else.
pub open spec fn is_exponent(e: Seq<u8>) -> bool {
    let digits = if e.len() > 1 && (e[1] == PLUS || e[1] == MINUS) {
        2int
    } else {
        1int
    };
    &&& e.len() > digits
    &&& e[0] == 0x65 || e[0] == 0x45
    &&& digits_end(e, digits) == e.len()
}

/// Whether `t` is an unsigned decimal number: digits with at most one `.`
/// among, before or after them, at least one digit in all, and an optional
/// exponent.
pub open spec fn is_decimal_number(t: Seq<u8>) -> bool {
    let whole = digits_end(t, 0);
    let dotted = whole < t.len() && t[whole] == DOT;
    let end = if dotted {
        digits_end(t, whole + 1)
    } else {
        whole
    };
    let digits = if dotted {
        end - 1
    } else {
        end
    };
    digits > 0 && (end == t.len() || is_exponent(t.skip(end)))
}

/// Whether `t` is one of the words for a value that is no number: `inf`,
/// `infinity` or `nan`, in any case.
pub open spec fn is_special_float(t: Seq<u8>) -> bool {
    is_word(t, "inf".spec_bytes()) || is_word(t, "infinity".spec_bytes()) || is_word(
        t,
        "nan".spec_bytes(),
    )
}

/// `s` without one leading `+` or `-`, if it has one.
pub open spec fn signed_body(s: Seq<u8>) -> Seq<u8> {
    if s.len() > 0 && (s[0] == PLUS || s[0] == MINUS) {
        s.skip(1)
    } else {
        s
    }
}

/// Whether `s` is a floating-point literal as the standard library reads
/// one: an optional sign, then a decimal number or one of the special words.
pub open spec fn is_float_literal(s: Seq<u8>) -> bool {
    is_special_float(signed_body(s)) || is_decimal_number(signed_body(s))
}

/// Whether `e` is the exponent of a floating-point literal.
pub fn check_exponent(e: &[u8]) -> (r: bool)
    ensures
        r == is_exponent(e@),
{
    if e.len() == 0 || !(e[0] == 0x65 || e[0] == 0x45) {
        return false;
    }
    let digits: usize = if e.len() > 1 && (e[1] == PLUS || e[1] == MINUS) {
        2
    } else {
        1
    };
    if e.len() <= digits {
        return false;
    }
    scan_digits(e, digits) == e.len()
}

/// Whether `t` is an unsigned decimal number.
pub fn check_decimal_number(t: &[u8]) -> (r: bool)
    ensures
        r == is_decimal_number(t@),
{
    let whole = scan_digits(t, 0);
    let dotted = whole < t.len() && t[whole] == DOT;
    let end = if dotted {
        scan_digits(t, whole + 1)
    } else {
        whole
    };
    let digits = if dotted {
        end - 1
    } else {
        end
    };
    if digits == 0 {
        return false;
    }
    if end == t.len() {
        return true;
    }
    let rest = &t[end..t.len()];
    assert(rest@ =~= t@.skip(end as int));
    check_exponent(rest)
}

/// Whether `s` is a floating-point literal.
pub fn check_float_literal(s: &[u8]) -> (r: bool)
    ensures
        r == is_float_literal(s@),
{
    let start: usize = if s.len() > 0 && (s[0] == PLUS || s[0] == MINUS) {
        1
    } else {
        0
    };
    let body = &s[start..s.len()];
    assert(body@ =~= signed_body(s@));
    is_word_ignore_case(body, "inf") || is_word_ignore_case(body, "infinity")
        || is_word_ignore_case(body, "nan") || check_decimal_number(body)
}

/// The text of a floating-point number, kept as it was written.
///
/// The bytes always form a floating-point literal, so turning them into a
/// machine number cannot fail.
#[derive(Debug, PartialEq, Eq)]
pub struct FloatLiteral {
    text: Vec<u8>,
}

impl View for FloatLiteral {
    type V = Seq<u8>;

    closed spec fn view(&self) -> Seq<u8> {
        self.text@
    }
}

impl Clone for FloatLiteral {
    fn clone(&self) -> (r: Self)
        ensures
            r@ == self@,
    {
        proof {
            use_type_invariant(self);
        }
        FloatLiteral { text: vstd::slice::slice_to_vec(self.text.as_slice()) }
    }
}

impl FloatLiteral {
    #[verifier::type_invariant]
    spec fn well_formed(self) -> bool {
        is_float_literal(self.text@)
    }

    /// Keeps `s` where it is a floating-point literal.
    pub fn parse(s: &[u8]) -> (r: Option<FloatLiteral>)
        ensures
            r.is_some() == is_float_literal(s@),
            r matches Some(f) ==> f@ == s@,
    {
        if check_float_literal(s) {
            Some(FloatLiteral { text: vstd::slice::slice_to_vec(s) })
        } else {
            None
        }
    }

    /// The bytes of the literal.
    pub fn as_bytes(&self) -> (r: &[u8])
        ensures
            r@ == self@,
            is_float_literal(r@),
    {
        proof {
            use_type_invariant(self);
        }
        self.text.as_slice()
    }
}

} // verus!
