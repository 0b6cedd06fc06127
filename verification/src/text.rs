//! Text out of bytes: what the standard library decides about UTF-8.

use vstd::prelude::*;
use vstd::utf8::{decode_utf8, valid_utf8};

verus! {

/// The text that `bytes` encode where they are valid UTF-8, and the empty
/// text where they are not.
pub open spec fn lossy_text(bytes: Seq<u8>) -> Seq<char> {
    if valid_utf8(bytes) {
        decode_utf8(bytes)
    } else {
        Seq::empty()
    }
}

/// Calls `core::str::from_utf8`, which hands the bytes back as text exactly
/// when they are valid UTF-8; the text is then what the bytes decode to.
/// Nothing here is proved: the contract restates the documentation of the
/// standard library over the UTF-8 model of `vstd`.
#[verifier::external_body]
pub(crate) fn str_from_utf8<'a>(bytes: &'a [u8]) -> (r: Option<&'a str>)
    ensures
        r.is_some() == valid_utf8(bytes@),
        r matches Some(s) ==> s@ == decode_utf8(bytes@),
{
    core::str::from_utf8(bytes).ok()
}

/// Calls `String::from_utf8`, which turns the bytes into a string exactly
/// when they are valid UTF-8; the string then holds what the bytes decode
/// to. Nothing here is proved: the contract restates the documentation of
/// the standard library over the UTF-8 model of `vstd`.
#[verifier::external_body]
pub(crate) fn string_from_utf8(bytes: Vec<u8>) -> (r: Option<String>)
    ensures
        r.is_some() == valid_utf8(bytes@),
        r matches Some(s) ==> s@ == decode_utf8(bytes@),
{
    String::from_utf8(bytes).ok()
}

/// `String::push` appends one character and changes nothing else. Believed
/// from the documentation of the standard library.
pub assume_specification[ String::push ](s: &mut String, c: char)
    ensures
        final(s)@ == old(s)@.push(c),
;

} // verus!
