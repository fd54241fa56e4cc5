//! The CRC-32 checksum of the chunk format, computed by `crc32fast`.

use vstd::prelude::*;

verus! {

/// The CRC-32 (IEEE) checksum of `bytes`: the value that `crc32fast::hash`
/// returns for them. It depends on the bytes alone.
pub uninterp spec fn crc32(bytes: Seq<u8>) -> u32;

/// Computes the checksum of `bytes` by `crc32fast::hash`.
///
/// Trusted, not proved: the call returns, and its result is the checksum
/// that `crc32` names.
#[verifier::external_body]
pub(crate) fn crc32_of(bytes: &[u8]) -> (r: u32)
    ensures
        r == crc32(bytes@),
{
    crc32fast::hash(bytes)
}

} // verus!
