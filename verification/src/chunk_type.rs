//! The four-byte chunk type tag and the properties encoded in the case of
//! its letters.

use vstd::prelude::*;
use vstd::utf8::*;

use crate::error::ChunkError;
use crate::text::{ascii_text, is_ascii_bytes, lemma_ascii_decodes, str_from_utf8};

verus! {

/// An ASCII uppercase letter.
pub open spec fn is_upper(b: u8) -> bool {
    0x41 <= b <= 0x5a
}

/// An ASCII lowercase letter.
pub open spec fn is_lower(b: u8) -> bool {
    0x61 <= b <= 0x7a
}

/// An ASCII letter of either case.
pub open spec fn is_letter(b: u8) -> bool {
    is_upper(b) || is_lower(b)
}

/// Four bytes, each an ASCII letter.
pub open spec fn is_letters(tag: Seq<u8>) -> bool {
    &&& tag.len() == 4
    &&& is_letter(tag[0])
    &&& is_letter(tag[1])
    &&& is_letter(tag[2])
    &&& is_letter(tag[3])
}

/// The reserved bit of a tag is in order when its third byte is uppercase.
pub open spec fn reserved_bit_valid(tag: Seq<u8>) -> bool {
    is_upper(tag[2])
}

/// A tag is valid when its reserved bit is in order and its bytes are ASCII.
pub open spec fn tag_is_valid(tag: Seq<u8>) -> bool {
    reserved_bit_valid(tag) && is_ascii_bytes(tag)
}

/// A character that is an ASCII letter.
pub open spec fn is_letter_char(c: char) -> bool {
    ('A' <= c <= 'Z') || ('a' <= c <= 'z')
}

/// Text that can be a tag: exactly four characters, each an ASCII letter.
pub open spec fn is_tag_text(s: Seq<char>) -> bool {
    &&& s.len() == 4
    &&& is_letter_char(s[0])
    &&& is_letter_char(s[1])
    &&& is_letter_char(s[2])
    &&& is_letter_char(s[3])
}

/// The bytes of a tag given as text.
pub open spec fn tag_text_bytes(s: Seq<char>) -> Seq<u8> {
    seq![s[0] as u8, s[1] as u8, s[2] as u8, s[3] as u8]
}

/// How a tag reads as text: the characters that its bytes encode in UTF-8,
/// and nothing where they encode none.
pub open spec fn tag_text(tag: Seq<u8>) -> Seq<char> {
    if valid_utf8(tag) {
        decode_utf8(tag)
    } else {
        Seq::empty()
    }
}

fn byte_is_upper(b: u8) -> (r: bool)
    ensures
        r == is_upper(b),
{
    0x41 <= b && b <= 0x5a
}

fn byte_is_lower(b: u8) -> (r: bool)
    ensures
        r == is_lower(b),
{
    0x61 <= b && b <= 0x7a
}

pub(crate) fn byte_is_letter(b: u8) -> (r: bool)
    ensures
        r == is_letter(b),
{
    byte_is_upper(b) || byte_is_lower(b)
}

/// A four-byte chunk type tag. Any four bytes can be held; whether they
/// form a valid tag is a separate question, answered by `is_valid`.
#[derive(Debug, Clone, Copy)]
pub struct ChunkType {
    data: [u8; 4],
}

impl View for ChunkType {
    type V = Seq<u8>;

    closed spec fn view(&self) -> Seq<u8> {
        self.data@
    }
}

/// A tag whose third byte is a lowercase letter is not valid, whatever its
/// other bytes are.
pub proof fn lemma_lowercase_third_byte_invalid(tag: Seq<u8>)
    requires
        is_lower(tag[2]),
    ensures
        !reserved_bit_valid(tag),
        !tag_is_valid(tag),
{
}

/// A tag always has four bytes.
pub broadcast proof fn lemma_tag_len(t: ChunkType)
    ensures
        #[trigger] t@.len() == 4,
{
}

impl ChunkType {
    /// The four bytes of the tag.
    pub fn bytes(&self) -> (r: [u8; 4])
        ensures
            r@ == self@,
    {
        self.data
    }

    /// Whether the chunk is needed to interpret the file: the first byte is
    /// uppercase.
    pub fn is_critical(&self) -> (r: bool)
        ensures
            r == is_upper(self@[0]),
    {
        byte_is_upper(self.data[0])
    }

    /// Whether the tag belongs to the public registry: the second byte is
    /// uppercase.
    pub fn is_public(&self) -> (r: bool)
        ensures
            r == is_upper(self@[1]),
    {
        byte_is_upper(self.data[1])
    }

    /// Whether the reserved bit is in order: the third byte is uppercase.
    pub fn is_reserved_bit_valid(&self) -> (r: bool)
        ensures
            r == reserved_bit_valid(self@),
    {
        byte_is_upper(self.data[2])
    }

    /// Whether an editor that does not know the chunk may copy it: the
    /// fourth byte is lowercase.
    pub fn is_safe_to_copy(&self) -> (r: bool)
        ensures
            r == is_lower(self@[3]),
    {
        byte_is_lower(self.data[3])
    }

    /// Whether the tag is valid: the reserved bit is in order and all four
    /// bytes are ASCII.
    pub fn is_valid(&self) -> (r: bool)
        ensures
            r == tag_is_valid(self@),
    {
        self.is_reserved_bit_valid() && self.data[0] < 0x80 && self.data[1] < 0x80 && self.data[2]
            < 0x80 && self.data[3] < 0x80
    }

    /// The tag as text. ASCII bytes give four characters, one for each byte.
    pub fn to_string(&self) -> (r: String)
        ensures
            r@ == tag_text(self@),
            is_ascii_bytes(self@) ==> r@ == ascii_text(self@),
    {
        proof {
            if is_ascii_bytes(self@) {
                lemma_ascii_decodes(self@);
            }
        }
        match str_from_utf8(self.data.as_slice()) {
            Some(s) => String::from_str(s),
            None => String::new(),
        }
    }
}

impl TryFrom<[u8; 4]> for ChunkType {
    type Error = ChunkError;

    /// Holds the four bytes as they are. This never fails, and says nothing
    /// of the tag's validity.
    fn try_from(value: [u8; 4]) -> (r: Result<Self, ChunkError>)
        ensures
            r is Ok,
            r->Ok_0@ == value@,
    {
        Ok(ChunkType { data: value })
    }
}

impl vstd::std_specs::convert::TryFromSpecImpl<[u8; 4]> for ChunkType {
    open spec fn obeys_try_from_spec() -> bool {
        true
    }

    closed spec fn try_from_spec(value: [u8; 4]) -> Result<Self, ChunkError> {
        Ok(ChunkType { data: value })
    }
}

impl std::str::FromStr for ChunkType {
    type Err = ChunkError;

    /// Reads a tag from text, which must be exactly four ASCII letters.
    fn from_str(s: &str) -> (r: Result<Self, ChunkError>)
        ensures
            r is Ok <==> is_tag_text(s@),
            r matches Ok(t) ==> t@ == tag_text_bytes(s@),
            r matches Err(e) ==> e == ChunkError::MalformedTag,
    {
        if !s.is_ascii() {
            return Err(ChunkError::MalformedTag);
        }
        let b = s.as_bytes();
        proof {
            is_ascii_chars_encode_utf8(s@);
        }
        if b.len() != 4 {
            return Err(ChunkError::MalformedTag);
        }
        if !(byte_is_letter(b[0]) && byte_is_letter(b[1]) && byte_is_letter(b[2])
            && byte_is_letter(b[3])) {
            return Err(ChunkError::MalformedTag);
        }
        let t = ChunkType { data: [b[0], b[1], b[2], b[3]] };
        assert(t@ =~= tag_text_bytes(s@));
        Ok(t)
    }
}

impl PartialEq for ChunkType {
    /// Two tags are equal when their bytes are.
    fn eq(&self, other: &Self) -> (r: bool) {
        let r = self.data[0] == other.data[0] && self.data[1] == other.data[1] && self.data[2]
            == other.data[2] && self.data[3] == other.data[3];
        proof {
            if r {
                assert(self@ =~= other@);
            }
        }
        r
    }
}

impl vstd::std_specs::cmp::PartialEqSpecImpl for ChunkType {
    open spec fn obeys_eq_spec() -> bool {
        true
    }

    open spec fn eq_spec(&self, other: &Self) -> bool {
        self@ == other@
    }
}

} // verus!
