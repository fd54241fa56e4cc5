//! A chunk: a type tag and a payload, with its length, its checksum, its
//! serialized form and the parser that reads that form back.

use vstd::prelude::*;
use vstd::slice::{slice_subrange, slice_to_vec};
use vstd::utf8::*;

use crate::checksum::crc32_of;
use crate::chunk_type::{byte_is_letter, lemma_tag_len, tag_is_valid, ChunkType};
use crate::error::ChunkError;
use crate::text::str_from_utf8;
use crate::wire::{
    be32, be32_value, checked, checksum, frame, framed, parsed, serialized, ChunkView,
};

verus! {

broadcast use lemma_tag_len;

/// One chunk: its type tag and its payload.
#[derive(Debug)]
pub struct Chunk {
    chunk_type: ChunkType,
    data: Vec<u8>,
}

impl View for Chunk {
    type V = ChunkView;

    closed spec fn view(&self) -> ChunkView {
        ChunkView { chunk_type: self.chunk_type@, data: self.data@ }
    }
}

/// The tag of a chunk has four bytes.
pub broadcast proof fn lemma_chunk_tag_len(c: Chunk)
    ensures
        #[trigger] c@.chunk_type.len() == 4,
{
    lemma_tag_len(c.chunk_type);
}

/// The four bytes of `x`, most significant first.
fn be32_bytes(x: u32) -> (r: [u8; 4])
    ensures
        r@ == be32(x),
{
    let r = [
        (x / 0x100_0000) as u8,
        (x / 0x1_0000 % 0x100) as u8,
        (x / 0x100 % 0x100) as u8,
        (x % 0x100) as u8,
    ];
    assert(r@ =~= be32(x));
    r
}

/// The number held by the four bytes of `bytes` from `at` on, most
/// significant first.
fn be32_read(bytes: &[u8], at: usize) -> (r: u32)
    requires
        at + 4 <= bytes@.len(),
    ensures
        r == be32_value(bytes@.subrange(at as int, at + 4)),
{
    let b0: u32 = bytes[at] as u32;
    let b1: u32 = bytes[at + 1] as u32;
    let b2: u32 = bytes[at + 2] as u32;
    let b3: u32 = bytes[at + 3] as u32;
    b0 * 0x100_0000 + b1 * 0x1_0000 + b2 * 0x100 + b3
}

impl Chunk {
    /// A chunk of the given tag and payload. The tag is taken as it is,
    /// valid or not.
    pub fn new(chunk_type: ChunkType, data: Vec<u8>) -> (c: Chunk)
        ensures
            c@ == (ChunkView { chunk_type: chunk_type@, data: data@ }),
    {
        Chunk { chunk_type, data }
    }

    /// The number of payload bytes, which must fit the 32-bit length field.
    pub fn length(&self) -> (n: u32)
        requires
            self@.data.len() <= u32::MAX,
        ensures
            n == self@.data.len(),
    {
        self.data.len() as u32
    }

    /// What the length field holds for a payload of `len` bytes, or
    /// `PayloadTooLarge` when `len` does not fit its 32 bits.
    pub fn length_field(len: usize) -> (r: Result<u32, ChunkError>)
        ensures
            len <= u32::MAX ==> r == Ok::<u32, ChunkError>(len as u32),
            len > u32::MAX ==> r == Err::<u32, ChunkError>(ChunkError::PayloadTooLarge),
    {
        if len <= 0xffff_ffff {
            Ok(len as u32)
        } else {
            Err(ChunkError::PayloadTooLarge)
        }
    }

    /// The number of payload bytes, or `PayloadTooLarge` when it does not
    /// fit the 32-bit length field.
    pub fn checked_length(&self) -> (r: Result<u32, ChunkError>)
        ensures
            self@.data.len() <= u32::MAX ==> r == Ok::<u32, ChunkError>(self@.data.len() as u32),
            self@.data.len() > u32::MAX ==> r == Err::<u32, ChunkError>(
                ChunkError::PayloadTooLarge,
            ),
    {
        Chunk::length_field(self.data.len())
    }

    /// The type tag.
    pub fn chunk_type(&self) -> (t: &ChunkType)
        ensures
            t@ == self@.chunk_type,
    {
        &self.chunk_type
    }

    /// The payload.
    pub fn data(&self) -> (d: &[u8])
        ensures
            d@ == self@.data,
    {
        self.data.as_slice()
    }

    /// The checksum: the CRC-32 of the tag's bytes followed by the payload.
    pub fn crc(&self) -> (r: u32)
        ensures
            r == checksum(self@.chunk_type, self@.data),
    {
        let tag = self.chunk_type.bytes();
        let mut covered: Vec<u8> = Vec::new();
        covered.extend_from_slice(tag.as_slice());
        covered.extend_from_slice(self.data.as_slice());
        assert(covered@ =~= self@.chunk_type + self@.data);
        crc32_of(covered.as_slice())
    }

    /// The payload as text. It is given when the tag is valid and the
    /// payload is UTF-8, and is then the text that the payload encodes.
    pub fn data_as_string(&self) -> (r: Result<String, ChunkError>)
        ensures
            r is Ok <==> tag_is_valid(self@.chunk_type) && valid_utf8(self@.data),
            r matches Ok(s) ==> s@ == decode_utf8(self@.data),
            r matches Err(e) ==> e == ChunkError::InvalidChunkData,
    {
        if !self.chunk_type.is_valid() {
            return Err(ChunkError::InvalidChunkData);
        }
        match str_from_utf8(self.data.as_slice()) {
            Some(s) => Ok(String::from_str(s)),
            None => Err(ChunkError::InvalidChunkData),
        }
    }

    /// The payload as text, for a chunk that has one: the tag is valid and
    /// the payload is UTF-8.
    pub fn to_string(&self) -> (r: String)
        requires
            tag_is_valid(self@.chunk_type),
            valid_utf8(self@.data),
        ensures
            r@ == decode_utf8(self@.data),
    {
        match self.data_as_string() {
            Ok(s) => s,
            Err(_) => String::new(),
        }
    }

    /// The bytes of the chunk with `crc` in the checksum field:
    /// the payload's length, the tag, the payload, and `crc`.
    pub fn as_bytes_with(&self, crc: u32) -> (r: Vec<u8>)
        requires
            self@.data.len() <= u32::MAX,
        ensures
            r@ == frame(self@.chunk_type, self@.data, crc),
    {
        let length = be32_bytes(self.length());
        let tag = self.chunk_type.bytes();
        let stored = be32_bytes(crc);
        let mut out: Vec<u8> = Vec::new();
        out.extend_from_slice(length.as_slice());
        out.extend_from_slice(tag.as_slice());
        out.extend_from_slice(self.data.as_slice());
        out.extend_from_slice(stored.as_slice());
        assert(out@ =~= frame(self@.chunk_type, self@.data, crc));
        out
    }

    /// The serialized chunk: the payload's length, the tag, the payload and
    /// the checksum of tag and payload. The payload must fit the 32-bit
    /// length field.
    pub fn as_bytes(&self) -> (r: Vec<u8>)
        requires
            self@.data.len() <= u32::MAX,
        ensures
            r@ == serialized(self@),
            r@.len() == 12 + self@.data.len(),
    {
        self.as_bytes_with(self.crc())
    }

    /// The serialized chunk, or `PayloadTooLarge` when the payload does not
    /// fit the 32-bit length field.
    pub fn checked_as_bytes(&self) -> (r: Result<Vec<u8>, ChunkError>)
        ensures
            r is Ok <==> self@.data.len() <= u32::MAX,
            r matches Ok(v) ==> v@ == serialized(self@),
            r matches Err(e) ==> e == ChunkError::PayloadTooLarge,
    {
        match self.checked_length() {
            Ok(_) => Ok(self.as_bytes()),
            Err(e) => Err(e),
        }
    }

    /// Takes a buffer apart without judging the checksum: the chunk that it
    /// holds and the checksum stored behind it, or the first fault found in
    /// the buffer's size, the tag's letters, the tag's reserved bit and the
    /// declared length, in that order.
    pub fn read_frame(bytes: &[u8]) -> (r: Result<(Chunk, u32), ChunkError>)
        ensures
            match r {
                Ok((c, stored)) => framed(bytes@) == Ok::<(ChunkView, u32), ChunkError>(
                    (c@, stored),
                ),
                Err(e) => framed(bytes@) == Err::<(ChunkView, u32), ChunkError>(e),
            },
    {
        if bytes.len() < 12 {
            return Err(ChunkError::TooShort);
        }
        let tag = [bytes[4], bytes[5], bytes[6], bytes[7]];
        assert(tag@ =~= bytes@.subrange(4, 8));
        if !(byte_is_letter(tag[0]) && byte_is_letter(tag[1]) && byte_is_letter(tag[2])
            && byte_is_letter(tag[3])) {
            return Err(ChunkError::MalformedTag);
        }
        let chunk_type = ChunkType::try_from(tag).unwrap();
        if !chunk_type.is_reserved_bit_valid() {
            return Err(ChunkError::InvalidTagBits);
        }
        let declared = be32_read(bytes, 0);
        if declared as usize > bytes.len() - 12 {
            return Err(ChunkError::TruncatedPayload);
        }
        let n = declared as usize;
        let data = slice_to_vec(slice_subrange(bytes, 8, 8 + n));
        let stored = be32_read(bytes, 8 + n);
        Ok((Chunk { chunk_type, data }, stored))
    }

    /// Accepts the chunk when the checksum stored with it is the computed
    /// one, and refuses it with `ChecksumMismatch` when it is not.
    pub fn check(self, stored: u32, computed: u32) -> (r: Result<Chunk, ChunkError>)
        ensures
            match r {
                Ok(c) => checked(self@, stored, computed) == Ok::<ChunkView, ChunkError>(c@),
                Err(e) => checked(self@, stored, computed) == Err::<ChunkView, ChunkError>(e),
            },
    {
        if stored == computed {
            Ok(self)
        } else {
            Err(ChunkError::ChecksumMismatch)
        }
    }
}

impl<'a> TryFrom<&'a [u8]> for Chunk {
    type Error = ChunkError;

    /// Parses a chunk from a buffer that starts with its serialized form.
    /// The buffer's size, the tag's letters, the tag's reserved bit, the
    /// declared length and the checksum are checked in that order, and the
    /// first fault is the error.
    fn try_from(value: &'a [u8]) -> (r: Result<Self, ChunkError>)
        ensures
            match r {
                Ok(c) => parsed(value@) == Ok::<ChunkView, ChunkError>(c@),
                Err(e) => parsed(value@) == Err::<ChunkView, ChunkError>(e),
            },
            value@.len() < 12 ==> r is Err && r->Err_0 == ChunkError::TooShort,
    {
        match Chunk::read_frame(value) {
            Ok((chunk, stored)) => {
                let computed = chunk.crc();
                chunk.check(stored, computed)
            },
            Err(e) => Err(e),
        }
    }
}

impl<'a> vstd::std_specs::convert::TryFromSpecImpl<&'a [u8]> for Chunk {
    /// The result of `try_from` is stated by its own `ensures`, over views:
    /// of the vector inside a chunk only the view is known.
    open spec fn obeys_try_from_spec() -> bool {
        false
    }

    open spec fn try_from_spec(value: &'a [u8]) -> Result<Self, ChunkError> {
        match parsed(value@) {
            Ok(v) => Ok(choose|c: Chunk| c@ == v),
            Err(e) => Err(e),
        }
    }
}

} // verus!
