//! The failures that the chunk codec reports to its caller.

use vstd::prelude::*;

verus! {

/// Why a tag or a chunk was refused.
#[derive(Debug, Clone, Copy, PartialEq, Eq, Structural)]
pub enum ChunkError {
    /// The candidate tag is not four ASCII letters.
    MalformedTag,
    /// The tag is four letters, but its third letter is lowercase.
    InvalidTagBits,
    /// Fewer than twelve bytes were supplied.
    TooShort,
    /// The declared payload length reaches past the supplied bytes.
    TruncatedPayload,
    /// The stored checksum differs from the recomputed one.
    ChecksumMismatch,
    /// The payload was asked for as text, but the tag is invalid or the
    /// bytes are not UTF-8.
    InvalidChunkData,
    /// The payload is too long for the 32-bit length field.
    PayloadTooLarge,
}

} // verus!
