//! What makes a read fail.

use vstd::prelude::*;

verus! {

/// The failures that end a read. Each is final: nothing of the telegram is
/// handed out with it.
#[derive(Debug, Clone, Copy, PartialEq, Eq, Structural)]
pub enum Error {
    /// A value that is kept as text, or the checksum of the trailer line, is
    /// not valid UTF-8.
    NonUtf8Parse,
    /// The identifier is not valid UTF-8.
    NonUtf8Val,
    /// A value that has to be an integer, or the checksum of the trailer
    /// line, is none that fits.
    InvalidInt,
    /// A value that has to be a floating-point number is none.
    InvalidFloat,
    /// The checksum that was computed, then the one that the trailer line
    /// gives.
    CrcMismatch(u16, u16),
}

} // verus!
