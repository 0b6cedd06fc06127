//! The checksum of a telegram.

use vstd::prelude::*;

verus! {

/// The CRC-16/ARC checksum of `data`, as the `crc16` crate computes it.
pub uninterp spec fn crc16_arc(data: Seq<u8>) -> u16;

/// Calls `crc16::State::<crc16::ARC>::calculate`, which starts from the
/// initial register of the ARC variant, folds every byte of `data` in, and
/// hands out the resulting checksum. The checksum depends on the bytes
/// alone, which is all that the contract claims.
#[verifier::external_body]
pub(crate) fn checksum(data: &[u8]) -> (r: u16)
    ensures
        r == crc16_arc(data@),
{
    crc16::State::<crc16::ARC>::calculate(data)
}

} // verus!
