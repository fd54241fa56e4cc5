//! The wire form of a chunk, as a specification over byte sequences:
//! `length || type || data || crc`, with both integers big-endian and the
//! checksum taken over type and data.

use vstd::arithmetic::div_mod::lemma_fundamental_div_mod_converse;
use vstd::prelude::*;

use crate::checksum::crc32;
use crate::chunk_type::{is_letters, is_lower, reserved_bit_valid, tag_is_valid};
use crate::error::ChunkError;

verus! {

/// What a chunk is: the four bytes of its type tag and its payload.
pub struct ChunkView {
    pub chunk_type: Seq<u8>,
    pub data: Seq<u8>,
}

/// The four bytes of `x`, most significant first.
pub open spec fn be32(x: u32) -> Seq<u8> {
    seq![
        (x / 0x100_0000) as u8,
        (x / 0x1_0000 % 0x100) as u8,
        (x / 0x100 % 0x100) as u8,
        (x % 0x100) as u8,
    ]
}

/// The number that four bytes hold, most significant first.
pub open spec fn be32_value(b: Seq<u8>) -> int {
    b[0] * 0x100_0000 + b[1] * 0x1_0000 + b[2] * 0x100 + b[3]
}

/// Reading the bytes of a number gives the number back.
pub proof fn lemma_be32_value_of_bytes(x: u32)
    ensures
        be32(x).len() == 4,
        be32_value(be32(x)) == x,
{
    assert(x / 0x100_0000 < 0x100 && x == (x / 0x100_0000) * 0x100_0000 + (x / 0x1_0000 % 0x100)
        * 0x1_0000 + (x / 0x100 % 0x100) * 0x100 + x % 0x100) by (bit_vector);
}

/// Four bytes hold a 32-bit number, whose bytes they are.
pub proof fn lemma_be32_bytes_of_value(b: Seq<u8>)
    requires
        b.len() == 4,
    ensures
        0 <= be32_value(b) <= u32::MAX,
        be32(be32_value(b) as u32) == b,
{
    let v = be32_value(b);
    let hi = b[0] * 0x100 + b[1];
    let mid = hi * 0x100 + b[2];
    let low = b[1] * 0x1_0000 + b[2] * 0x100 + b[3];
    lemma_fundamental_div_mod_converse(v, 0x100_0000, b[0] as int, low);
    lemma_fundamental_div_mod_converse(v, 0x1_0000, hi, b[2] * 0x100 + b[3]);
    lemma_fundamental_div_mod_converse(hi, 0x100, b[0] as int, b[1] as int);
    lemma_fundamental_div_mod_converse(v, 0x100, mid, b[3] as int);
    lemma_fundamental_div_mod_converse(mid, 0x100, hi, b[2] as int);
    assert(be32(v as u32) =~= b);
}

/// The checksum of a chunk: the CRC-32 of its type bytes followed by its
/// payload. The length field is not covered.
pub open spec fn checksum(chunk_type: Seq<u8>, data: Seq<u8>) -> u32 {
    crc32(chunk_type + data)
}

/// The bytes of a chunk that carries `crc` in its checksum field.
pub open spec fn frame(chunk_type: Seq<u8>, data: Seq<u8>, crc: u32) -> Seq<u8>
    recommends
        chunk_type.len() == 4,
        data.len() <= u32::MAX,
{
    be32(data.len() as u32) + chunk_type + data + be32(crc)
}

/// The serialized form of a chunk.
pub open spec fn serialized(c: ChunkView) -> Seq<u8>
    recommends
        c.chunk_type.len() == 4,
        c.data.len() <= u32::MAX,
{
    frame(c.chunk_type, c.data, checksum(c.chunk_type, c.data))
}

/// A chunk that can be serialized: its tag has four bytes and the length of
/// its payload fits the 32-bit length field.
pub open spec fn fits(c: ChunkView) -> bool {
    c.chunk_type.len() == 4 && c.data.len() <= u32::MAX
}

/// The payload length that a buffer of at least four bytes declares.
pub open spec fn declared_length(bytes: Seq<u8>) -> int {
    be32_value(bytes.subrange(0, 4))
}

/// Takes a buffer apart without looking at the checksum's value: the chunk
/// it holds and the checksum stored behind it, or the first fault found.
/// The buffer's size is checked first, then the tag's letters, then its
/// reserved bit, then the declared length against the bytes at hand. Bytes
/// behind the checksum field are not looked at.
pub open spec fn framed(bytes: Seq<u8>) -> Result<(ChunkView, u32), ChunkError> {
    if bytes.len() < 12 {
        Err(ChunkError::TooShort)
    } else if !is_letters(bytes.subrange(4, 8)) {
        Err(ChunkError::MalformedTag)
    } else if !reserved_bit_valid(bytes.subrange(4, 8)) {
        Err(ChunkError::InvalidTagBits)
    } else if 12 + declared_length(bytes) > bytes.len() {
        Err(ChunkError::TruncatedPayload)
    } else {
        let n = declared_length(bytes);
        Ok(
            (
                ChunkView { chunk_type: bytes.subrange(4, 8), data: bytes.subrange(8, 8 + n) },
                be32_value(bytes.subrange(8 + n, 12 + n)) as u32,
            ),
        )
    }
}

/// Accepts a chunk when the checksum stored with it is the one computed
/// from it.
pub open spec fn checked(c: ChunkView, stored: u32, computed: u32) -> Result<
    ChunkView,
    ChunkError,
> {
    if stored == computed {
        Ok(c)
    } else {
        Err(ChunkError::ChecksumMismatch)
    }
}

/// What parsing a buffer gives: the chunk it holds, or the first fault.
pub open spec fn parsed(bytes: Seq<u8>) -> Result<ChunkView, ChunkError> {
    match framed(bytes) {
        Ok((c, stored)) => checked(c, stored, checksum(c.chunk_type, c.data)),
        Err(e) => Err(e),
    }
}

/// The serialized form of a chunk is twelve bytes longer than its payload.
pub proof fn lemma_serialized_len(c: ChunkView)
    requires
        fits(c),
    ensures
        serialized(c).len() == 12 + c.data.len(),
{
}

/// Taking a frame apart gives back what it was made of, whatever the
/// checksum field holds, when the tag is four letters with the reserved bit
/// in order.
pub proof fn lemma_framed_frame(c: ChunkView, crc: u32)
    requires
        fits(c),
        is_letters(c.chunk_type),
        reserved_bit_valid(c.chunk_type),
    ensures
        framed(frame(c.chunk_type, c.data, crc)) == Ok::<(ChunkView, u32), ChunkError>((c, crc)),
{
    let n = c.data.len() as int;
    let bytes = frame(c.chunk_type, c.data, crc);
    assert(bytes.len() == 12 + n);
    assert(bytes.subrange(0, 4) =~= be32(n as u32));
    lemma_be32_value_of_bytes(n as u32);
    assert(bytes.subrange(4, 8) =~= c.chunk_type);
    assert(bytes.subrange(8, 8 + n) =~= c.data);
    assert(bytes.subrange(8 + n, 12 + n) =~= be32(crc));
    lemma_be32_value_of_bytes(crc);
}

/// Parsing the serialized form of a chunk gives the chunk back, with the
/// same tag bytes and the same payload, and so the same checksum.
/// This holds of every chunk whose tag is four letters with the reserved
/// bit in order and whose payload fits the length field.
pub proof fn lemma_parse_serialized(c: ChunkView)
    requires
        fits(c),
        is_letters(c.chunk_type),
        tag_is_valid(c.chunk_type),
    ensures
        parsed(serialized(c)) == Ok::<ChunkView, ChunkError>(c),
{
    lemma_framed_frame(c, checksum(c.chunk_type, c.data));
}

/// What parsing a serialized chunk gives serializes to the same bytes
/// again.
pub proof fn lemma_serialize_parse_serialize(c: ChunkView)
    requires
        fits(c),
        is_letters(c.chunk_type),
        tag_is_valid(c.chunk_type),
    ensures
        parsed(serialized(c)) is Ok,
        serialized(parsed(serialized(c))->Ok_0) == serialized(c),
{
    lemma_parse_serialized(c);
}

/// A buffer of fewer than twelve bytes is refused as too short.
pub proof fn lemma_short_buffer_refused(bytes: Seq<u8>)
    requires
        bytes.len() < 12,
    ensures
        parsed(bytes) == Err::<ChunkView, ChunkError>(ChunkError::TooShort),
{
}

/// A buffer of at least twelve bytes whose tag is four letters, the third
/// of them lowercase, is refused for its tag bits, whatever its length
/// field, its data and its checksum field hold.
pub proof fn lemma_reserved_bit_refused(bytes: Seq<u8>)
    requires
        bytes.len() >= 12,
        is_letters(bytes.subrange(4, 8)),
        is_lower(bytes[6]),
    ensures
        parsed(bytes) == Err::<ChunkView, ChunkError>(ChunkError::InvalidTagBits),
{
}

/// A serialized chunk whose type or data bytes were changed, be it in a
/// single bit, with the length and checksum fields left as they were, is
/// refused for its checksum, provided that the changed tag is still four
/// letters with the reserved bit in order and that the changed content has
/// another checksum than the content it replaces.
pub proof fn lemma_tampered_refused(c: ChunkView, tampered: Seq<u8>)
    requires
        fits(c),
        tampered.len() == serialized(c).len(),
        forall|i: int|
            0 <= i < 4 || 8 + c.data.len() <= i < 12 + c.data.len() ==> tampered[i] == serialized(
                c,
            )[i],
        is_letters(tampered.subrange(4, 8)),
        reserved_bit_valid(tampered.subrange(4, 8)),
        crc32(tampered.subrange(4, 8 + c.data.len() as int)) != checksum(c.chunk_type, c.data),
    ensures
        parsed(tampered) == Err::<ChunkView, ChunkError>(ChunkError::ChecksumMismatch),
{
    let n = c.data.len() as int;
    let crc = checksum(c.chunk_type, c.data);
    assert(tampered.subrange(0, 4) =~= be32(n as u32));
    lemma_be32_value_of_bytes(n as u32);
    assert(tampered.subrange(8 + n, 12 + n) =~= be32(crc));
    lemma_be32_value_of_bytes(crc);
    assert(tampered.subrange(4, 8) + tampered.subrange(8, 8 + n) =~= tampered.subrange(4, 8 + n));
}

/// A buffer is accepted only with the checksum of its own content: when
/// parsing succeeds, the checksum field holds the CRC-32 of the type and
/// data bytes that were read.
pub proof fn lemma_accepted_checksum(bytes: Seq<u8>)
    requires
        parsed(bytes) is Ok,
    ensures
        bytes.len() >= 12 + declared_length(bytes),
        parsed(bytes)->Ok_0.chunk_type == bytes.subrange(4, 8),
        parsed(bytes)->Ok_0.data == bytes.subrange(8, 8 + declared_length(bytes)),
        be32_value(bytes.subrange(8 + declared_length(bytes), 12 + declared_length(bytes)))
            == crc32(bytes.subrange(4, 8 + declared_length(bytes))),
{
    let n = declared_length(bytes);
    lemma_be32_bytes_of_value(bytes.subrange(0, 4));
    lemma_be32_bytes_of_value(bytes.subrange(8 + n, 12 + n));
    assert(bytes.subrange(4, 8) + bytes.subrange(8, 8 + n) =~= bytes.subrange(4, 8 + n));
}

} // verus!
