//! The bytes that the telegram grammar is made of, and the scans over byte
//! strings that every part of the parser shares.

use vstd::prelude::*;
use vstd::string::*;

verus! {

/// Line feed, which ends a line.
pub const LF: u8 = 0x0a;

/// Carriage return, which may stand before the line feed.
pub const CR: u8 = 0x0d;

/// `!`, which starts the trailer line.
pub const BANG: u8 = 0x21;

/// `(`, which opens a value group.
pub const OPEN: u8 = 0x28;

/// `)`, which closes a value group.
pub const CLOSE: u8 = 0x29;

/// `*`, which parts a number from its unit.
pub const STAR: u8 = 0x2a;

/// `+`
pub const PLUS: u8 = 0x2b;

/// `-`
pub const MINUS: u8 = 0x2d;

/// `.`
pub const DOT: u8 = 0x2e;

/// `/`, which starts the identifier line.
pub const SLASH: u8 = 0x2f;

/// `0`
pub const ZERO: u8 = 0x30;

/// `9`
pub const NINE: u8 = 0x39;

/// `:`
pub const COLON: u8 = 0x3a;

/// Whether `b` is one of `0` to `9`.
pub open spec fn is_digit(b: u8) -> bool {
    ZERO <= b <= NINE
}

/// Whether `b` is one of `0` to `9`.
#[verifier::when_used_as_spec(is_digit)]
pub fn is_ascii_digit(b: u8) -> (r: bool)
    ensures
        r == is_digit(b),
{
    ZERO <= b && b <= NINE
}

/// `b` with an upper case letter turned into its lower case.
pub open spec fn lower(b: u8) -> u8 {
    if 0x41 <= b <= 0x5a {
        (b + 0x20) as u8
    } else {
        b
    }
}

/// `b` with an upper case letter turned into its lower case.
#[verifier::when_used_as_spec(lower)]
pub fn to_lower(b: u8) -> (r: u8)
    ensures
        r == lower(b),
{
    if 0x41 <= b && b <= 0x5a {
        b + 0x20
    } else {
        b
    }
}

/// The index just past the longest run of digits of `s` that starts at `i`.
pub open spec fn digits_end(s: Seq<u8>, i: int) -> int
    decreases s.len() - i,
{
    if 0 <= i < s.len() && is_digit(s[i]) {
        digits_end(s, i + 1)
    } else {
        i
    }
}

/// The index of the first `b` in `s` at or after `from`, or the length of
/// `s` where there is none.
pub open spec fn find_byte(s: Seq<u8>, b: u8, from: int) -> int
    decreases s.len() - from,
{
    if 0 <= from < s.len() && s[from] != b {
        find_byte(s, b, from + 1)
    } else if 0 <= from < s.len() {
        from
    } else {
        s.len() as int
    }
}

/// Whether `s` is `word` but for the case of its letters. `word` is written
/// in lower case.
pub open spec fn is_word(s: Seq<u8>, word: Seq<u8>) -> bool {
    s.len() == word.len() && forall|i: int| 0 <= i < s.len() ==> lower(#[trigger] s[i]) == word[i]
}

/// What [`digits_end`] says of the run it skips.
pub proof fn lemma_digits_end(s: Seq<u8>, i: int)
    requires
        0 <= i <= s.len(),
    ensures
        i <= digits_end(s, i) <= s.len(),
        forall|j: int| i <= j < digits_end(s, i) ==> is_digit(#[trigger] s[j]),
        digits_end(s, i) < s.len() ==> !is_digit(s[digits_end(s, i)]),
    decreases s.len() - i,
{
    if i < s.len() && is_digit(s[i]) {
        lemma_digits_end(s, i + 1);
    }
}

/// What [`find_byte`] says of the bytes it passes.
pub proof fn lemma_find_byte(s: Seq<u8>, b: u8, from: int)
    requires
        0 <= from <= s.len(),
    ensures
        from <= find_byte(s, b, from) <= s.len(),
        forall|j: int| from <= j < find_byte(s, b, from) ==> #[trigger] s[j] != b,
        find_byte(s, b, from) < s.len() ==> s[find_byte(s, b, from)] == b,
    decreases s.len() - from,
{
    if from < s.len() && s[from] != b {
        lemma_find_byte(s, b, from + 1);
    }
}

/// The first `b` at or after `from` is found where it stands.
pub proof fn lemma_find_byte_at(s: Seq<u8>, b: u8, from: int, at: int)
    requires
        0 <= from <= at < s.len(),
        s[at] == b,
        forall|j: int| from <= j < at ==> #[trigger] s[j] != b,
    ensures
        find_byte(s, b, from) == at,
    decreases at - from,
{
    if from < at {
        lemma_find_byte_at(s, b, from + 1, at);
    }
}

/// The index just past the run of digits of `s` that starts at `i`.
pub fn scan_digits(s: &[u8], i: usize) -> (j: usize)
    requires
        i <= s@.len(),
    ensures
        j == digits_end(s@, i as int),
        i <= j <= s@.len(),
{
    let mut j: usize = i;
    while j < s.len() && is_ascii_digit(s[j])
        invariant
            i <= j <= s@.len(),
            digits_end(s@, i as int) == digits_end(s@, j as int),
        decreases s@.len() - j,
    {
        j += 1;
    }
    j
}

/// The index of the first `b` in `s` at or after `from`, or the length of
/// `s`.
pub fn scan_to(s: &[u8], b: u8, from: usize) -> (j: usize)
    requires
        from <= s@.len(),
    ensures
        j == find_byte(s@, b, from as int),
        from <= j <= s@.len(),
{
    let mut j: usize = from;
    while j < s.len() && s[j] != b
        invariant
            from <= j <= s@.len(),
            find_byte(s@, b, from as int) == find_byte(s@, b, j as int),
        decreases s@.len() - j,
    {
        j += 1;
    }
    j
}

/// Whether two byte strings are the same.
pub fn bytes_eq(a: &[u8], b: &[u8]) -> (r: bool)
    ensures
        r == (a@ == b@),
{
    if a.len() != b.len() {
        return false;
    }
    let mut i: usize = 0;
    while i < a.len()
        invariant
            a@.len() == b@.len(),
            i <= a@.len(),
            forall|j: int| 0 <= j < i ==> a@[j] == b@[j],
        decreases a@.len() - i,
    {
        if a[i] != b[i] {
            return false;
        }
        i += 1;
    }
    assert(a@ =~= b@);
    true
}

/// Whether `s` is the text `text`, byte for byte.
pub fn is_text(s: &[u8], text: &str) -> (r: bool)
    ensures
        r == (s@ == text.spec_bytes()),
{
    bytes_eq(s, text.as_bytes())
}

/// Whether `s` is `word` but for the case of its letters.
pub fn is_word_ignore_case(s: &[u8], word: &str) -> (r: bool)
    ensures
        r == is_word(s@, word.spec_bytes()),
{
    let w = word.as_bytes();
    if s.len() != w.len() {
        return false;
    }
    let mut i: usize = 0;
    while i < s.len()
        invariant
            s@.len() == w@.len(),
            w@ == word.spec_bytes(),
            i <= s@.len(),
            forall|j: int| 0 <= j < i ==> lower(#[trigger] s@[j]) == w@[j],
        decreases s@.len() - i,
    {
        if to_lower(s[i]) != w[i] {
            return false;
        }
        i += 1;
    }
    true
}

} // verus!
