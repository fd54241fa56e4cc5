use pngme::chunk::Chunk;
use pngme::chunk_type::ChunkType;
use pngme::error::ChunkError;
use pngme::text::str_eq;
use std::str::FromStr;

const MESSAGE: &str = "This is where your secret message will be!";

fn tag(text: &str) -> ChunkType {
    ChunkType::from_str(text).unwrap()
}

fn message_chunk() -> Chunk {
    Chunk::new(tag("RuSt"), MESSAGE.as_bytes().to_vec())
}

/// A buffer laid out by hand: length, type, data, checksum.
fn buffer(length: u32, chunk_type: [u8; 4], data: &[u8], crc: u32) -> Vec<u8> {
    let mut out = Vec::new();
    out.extend_from_slice(&length.to_be_bytes());
    out.extend_from_slice(&chunk_type);
    out.extend_from_slice(data);
    out.extend_from_slice(&crc.to_be_bytes());
    out
}

fn parse(bytes: &[u8]) -> Result<Chunk, ChunkError> {
    Chunk::try_from(bytes)
}

fn parse_error(bytes: &[u8]) -> ChunkError {
    parse(bytes).unwrap_err()
}

#[test]
fn message_chunk_has_the_known_length_checksum_and_bytes() {
    let chunk = message_chunk();
    assert_eq!(MESSAGE.len(), 42);
    assert_eq!(chunk.length(), 42);
    assert_eq!(chunk.checked_length(), Ok(42));
    assert_eq!(chunk.crc(), 2882656334);

    let bytes = chunk.as_bytes();
    assert_eq!(bytes.len(), 12 + 42);
    assert_eq!(&bytes[..4], &[0, 0, 0, 42]);
    assert_eq!(&bytes[4..8], b"RuSt");
    assert_eq!(&bytes[8..50], MESSAGE.as_bytes());
    assert_eq!(&bytes[50..], &[0xab, 0xd1, 0xd8, 0x4e]);
    assert_eq!(bytes, buffer(42, *b"RuSt", MESSAGE.as_bytes(), 2882656334));

    let back = parse(&bytes).unwrap();
    assert_eq!(back.chunk_type().bytes(), *b"RuSt");
    assert_eq!(back.data(), MESSAGE.as_bytes());
    assert_eq!(back.crc(), 2882656334);
    assert_eq!(back.length(), 42);
}

#[test]
fn a_checksum_field_that_is_one_less_is_a_mismatch() {
    let bytes = buffer(42, *b"RuSt", MESSAGE.as_bytes(), 2882656333);
    assert_eq!(parse_error(&bytes), ChunkError::ChecksumMismatch);
    let bytes = buffer(42, *b"RuSt", MESSAGE.as_bytes(), 2882656335);
    assert_eq!(parse_error(&bytes), ChunkError::ChecksumMismatch);
}

#[test]
fn checksum_covers_type_and_data_but_not_the_length() {
    assert_eq!(Chunk::new(tag("RuSt"), Vec::new()).crc(), 3565422908);
    assert_eq!(Chunk::new(tag("RuSt"), vec![0, 159, 146, 150]).crc(), 3865954604);
    assert_eq!(Chunk::new(tag("SuSt"), MESSAGE.as_bytes().to_vec()).crc(), 3558360029);
    assert_eq!(Chunk::new(tag("Rust"), MESSAGE.as_bytes().to_vec()).crc(), 4001482697);
    let mut data: Vec<u8> = (0..=255).collect();
    data.extend_from_slice(&[0; 44]);
    assert_eq!(Chunk::new(tag("bLOb"), data).crc(), 2465263584);
}

#[test]
fn checksum_is_the_same_each_time_and_for_equal_content() {
    let chunk = message_chunk();
    let first = chunk.crc();
    assert_eq!(chunk.crc(), first);
    assert_eq!(chunk.crc(), first);
    assert_eq!(message_chunk().crc(), first);
    let same = Chunk::new(ChunkType::try_from(*b"RuSt").unwrap(), MESSAGE.as_bytes().to_vec());
    assert_eq!(same.crc(), first);
}

#[test]
fn serialized_chunks_parse_back_to_the_same_chunk() {
    let payloads: Vec<Vec<u8>> = vec![
        Vec::new(),
        vec![0],
        vec![0xff, 0xfe, 0x00, 0x80],
        MESSAGE.as_bytes().to_vec(),
        (0..=255).collect(),
        vec![7; 70_000],
    ];
    for text in ["RuSt", "ruSt", "RUST", "IHDR", "tEXt", "AZAz"] {
        for data in &payloads {
            let chunk = Chunk::new(tag(text), data.clone());
            let bytes = chunk.as_bytes();
            assert_eq!(bytes.len(), 12 + data.len());
            let back = parse(&bytes).unwrap();
            assert!(*back.chunk_type() == tag(text));
            assert_eq!(back.chunk_type().bytes(), tag(text).bytes());
            assert_eq!(back.data(), &data[..]);
            assert_eq!(back.crc(), chunk.crc());
            assert_eq!(back.length(), chunk.length());
        }
    }
}

#[test]
fn serializing_a_parsed_chunk_gives_the_same_bytes() {
    for data in [Vec::new(), vec![1, 2, 3], MESSAGE.as_bytes().to_vec(), vec![0x80; 300]] {
        let first = Chunk::new(tag("RuSt"), data).as_bytes();
        let second = parse(&first).unwrap().as_bytes();
        assert_eq!(second, first);
        let third = parse(&second).unwrap().checked_as_bytes().unwrap();
        assert_eq!(third, first);
    }
}

#[test]
fn an_empty_payload_serializes_to_twelve_bytes() {
    let chunk = Chunk::new(tag("IEND"), Vec::new());
    assert_eq!(chunk.length(), 0);
    // The checksum of the four bytes "IEND" is the one every PNG file ends with.
    assert_eq!(chunk.crc(), 0xae42_6082);
    let bytes = chunk.as_bytes();
    assert_eq!(bytes, vec![0, 0, 0, 0, b'I', b'E', b'N', b'D', 0xae, 0x42, 0x60, 0x82]);
    let back = parse(&bytes).unwrap();
    assert_eq!(back.data(), &[] as &[u8]);
}

#[test]
fn integers_are_written_most_significant_byte_first() {
    let chunk = Chunk::new(tag("RuSt"), vec![9; 300]);
    let bytes = chunk.as_bytes_with(0x0102_0304);
    assert_eq!(bytes.len(), 312);
    assert_eq!(&bytes[..4], &[0, 0, 1, 44]);
    assert_eq!(&bytes[4..8], b"RuSt");
    assert_eq!(&bytes[8..308], &[9; 300][..]);
    assert_eq!(&bytes[308..], &[1, 2, 3, 4]);

    let chunk = Chunk::new(tag("RuSt"), vec![9; 0x01_02_03]);
    let bytes = chunk.as_bytes_with(0xffff_ff00);
    assert_eq!(&bytes[..4], &[0, 1, 2, 3]);
    assert_eq!(&bytes[bytes.len() - 4..], &[0xff, 0xff, 0xff, 0]);

    let bytes = Chunk::new(tag("RuSt"), Vec::new()).as_bytes_with(0);
    assert_eq!(bytes, vec![0, 0, 0, 0, b'R', b'u', b'S', b't', 0, 0, 0, 0]);
}

#[test]
fn a_frame_is_taken_apart_without_judging_the_checksum() {
    let bytes = buffer(3, *b"RuSt", &[10, 20, 30], 0x0a0b_0c0d);
    let (chunk, stored) = Chunk::read_frame(&bytes).unwrap();
    assert_eq!(chunk.chunk_type().bytes(), *b"RuSt");
    assert_eq!(chunk.data(), &[10, 20, 30]);
    assert_eq!(stored, 0x0a0b_0c0d);
    assert_ne!(chunk.crc(), stored);

    let bytes = buffer(0x0100, *b"bLOb", &[5; 256], 0xfedc_ba98);
    let (chunk, stored) = Chunk::read_frame(&bytes).unwrap();
    assert_eq!(chunk.length(), 256);
    assert_eq!(stored, 0xfedc_ba98);
}

#[test]
fn a_frame_reports_the_first_fault() {
    assert_eq!(Chunk::read_frame(&[0; 11]).unwrap_err(), ChunkError::TooShort);
    let bytes = buffer(0, *b"Ru1t", &[], 0);
    assert_eq!(Chunk::read_frame(&bytes).unwrap_err(), ChunkError::MalformedTag);
    let bytes = buffer(0, *b"Rust", &[], 0);
    assert_eq!(Chunk::read_frame(&bytes).unwrap_err(), ChunkError::InvalidTagBits);
    let bytes = buffer(1, *b"RuSt", &[], 0);
    assert_eq!(Chunk::read_frame(&bytes).unwrap_err(), ChunkError::TruncatedPayload);
}

#[test]
fn a_chunk_is_accepted_when_the_two_checksums_agree() {
    let chunk = message_chunk().check(5, 5).unwrap();
    assert_eq!(chunk.data(), MESSAGE.as_bytes());
    assert_eq!(chunk.chunk_type().bytes(), *b"RuSt");
    assert_eq!(message_chunk().check(5, 6).unwrap_err(), ChunkError::ChecksumMismatch);
    assert_eq!(message_chunk().check(0, u32::MAX).unwrap_err(), ChunkError::ChecksumMismatch);
    assert!(message_chunk().check(u32::MAX, u32::MAX).is_ok());
}

#[test]
fn buffers_of_fewer_than_twelve_bytes_are_too_short() {
    let whole = message_chunk().as_bytes();
    for n in 0..12 {
        assert_eq!(parse_error(&whole[..n]), ChunkError::TooShort, "{} bytes", n);
        assert_eq!(parse_error(&vec![b'A'; n]), ChunkError::TooShort, "{} bytes", n);
    }
    assert_ne!(parse_error(&[b'A'; 12]), ChunkError::TooShort);
}

#[test]
fn a_tag_that_is_not_four_letters_is_malformed() {
    let good = message_chunk();
    for bad in [*b"Ru1t", *b"RuS ", *b"\0uSt", *b"R@St", *b"Ru[t", *b"RuS`", *b"{uSt", [b'R', b'u', b'S', 0xe9]] {
        let crc = Chunk::new(ChunkType::try_from(bad).unwrap(), good.data().to_vec()).crc();
        let bytes = buffer(42, bad, good.data(), crc);
        assert_eq!(parse_error(&bytes), ChunkError::MalformedTag, "{:?}", bad);
    }
}

#[test]
fn a_tag_of_ascii_bytes_that_are_no_letters_is_valid_but_does_not_parse() {
    let odd = ChunkType::try_from(*b"12A3").unwrap();
    assert!(odd.is_valid());
    let bytes = Chunk::new(odd, vec![1, 2, 3]).as_bytes();
    assert_eq!(parse_error(&bytes), ChunkError::MalformedTag);
}

#[test]
fn a_lowercase_third_letter_is_refused_though_length_and_checksum_are_right() {
    for text in ["Rust", "rust", "RUsT", "teXt", "tExt"] {
        let t = tag(text);
        let ok = t.is_reserved_bit_valid();
        assert_eq!(t.is_valid(), ok);
        let bytes = Chunk::new(t, MESSAGE.as_bytes().to_vec()).as_bytes();
        if ok {
            assert!(parse(&bytes).is_ok(), "{}", text);
        } else {
            assert_eq!(parse_error(&bytes), ChunkError::InvalidTagBits, "{}", text);
        }
    }
    // Whatever the other fields hold.
    assert_eq!(parse_error(&buffer(u32::MAX, *b"Rust", &[], 0)), ChunkError::InvalidTagBits);
    assert_eq!(parse_error(&buffer(0, *b"Rust", &[], 1)), ChunkError::InvalidTagBits);
}

#[test]
fn a_declared_length_beyond_the_buffer_is_a_truncated_payload() {
    let whole = message_chunk().as_bytes();
    // One byte is missing at the end.
    assert_eq!(parse_error(&whole[..whole.len() - 1]), ChunkError::TruncatedPayload);
    assert_eq!(parse_error(&whole[..12]), ChunkError::TruncatedPayload);
    // The length field says more than there is.
    let crc = Chunk::new(tag("RuSt"), vec![1, 2]).crc();
    assert_eq!(parse_error(&buffer(3, *b"RuSt", &[1, 2], crc)), ChunkError::TruncatedPayload);
    assert_eq!(parse_error(&buffer(u32::MAX, *b"RuSt", &[1, 2], crc)), ChunkError::TruncatedPayload);
    assert_eq!(parse_error(&buffer(0x8000_0000, *b"RuSt", &[], 0)), ChunkError::TruncatedPayload);
    assert!(parse(&buffer(2, *b"RuSt", &[1, 2], crc)).is_ok());
}

#[test]
fn the_tag_is_judged_before_the_length_and_the_length_before_the_checksum() {
    // Malformed tag, lowercase third byte aside, bad length and bad checksum.
    assert_eq!(parse_error(&buffer(99, *b"R1st", &[], 0)), ChunkError::MalformedTag);
    // Bad reserved bit and bad length.
    assert_eq!(parse_error(&buffer(99, *b"Rust", &[], 0)), ChunkError::InvalidTagBits);
    // Bad length and a checksum that fits nothing.
    assert_eq!(parse_error(&buffer(99, *b"RuSt", &[], 0)), ChunkError::TruncatedPayload);
    // Only the checksum is wrong.
    assert_eq!(parse_error(&buffer(0, *b"RuSt", &[], 0)), ChunkError::ChecksumMismatch);
}

#[test]
fn bytes_behind_the_chunk_are_left_alone() {
    let mut bytes = message_chunk().as_bytes();
    bytes.extend_from_slice(&[1, 2, 3, 4, 5]);
    let back = parse(&bytes).unwrap();
    assert_eq!(back.data(), MESSAGE.as_bytes());
    assert_eq!(back.as_bytes(), message_chunk().as_bytes());
    // A shorter declared length reads a shorter payload, with its own checksum.
    let inner = Chunk::new(tag("RuSt"), MESSAGE.as_bytes()[..4].to_vec());
    let mut bytes = inner.as_bytes();
    bytes.extend_from_slice(&MESSAGE.as_bytes()[4..]);
    assert_eq!(parse(&bytes).unwrap().data(), b"This");
}

#[test]
fn one_flipped_bit_in_the_data_is_a_checksum_mismatch() {
    let whole = message_chunk().as_bytes();
    for at in 8..whole.len() - 4 {
        for bit in 0..8 {
            let mut bytes = whole.clone();
            bytes[at] ^= 1 << bit;
            assert_eq!(parse_error(&bytes), ChunkError::ChecksumMismatch, "byte {} bit {}", at, bit);
        }
    }
}

#[test]
fn one_flipped_bit_in_the_type_is_refused() {
    let whole = message_chunk().as_bytes();
    for at in 4..8 {
        for bit in 0..8 {
            let mut bytes = whole.clone();
            bytes[at] ^= 1 << bit;
            let letter = bytes[at].is_ascii_alphabetic();
            let expected = if !letter {
                ChunkError::MalformedTag
            } else if at == 6 && bytes[at].is_ascii_lowercase() {
                ChunkError::InvalidTagBits
            } else {
                ChunkError::ChecksumMismatch
            };
            assert_eq!(parse_error(&bytes), expected, "byte {} bit {}", at, bit);
        }
    }
    // 'R' and 'S' differ in one bit, and both are letters.
    let mut bytes = whole.clone();
    bytes[4] = b'S';
    assert_eq!(parse_error(&bytes), ChunkError::ChecksumMismatch);
}

#[test]
fn one_flipped_bit_in_the_checksum_field_is_a_checksum_mismatch() {
    let whole = message_chunk().as_bytes();
    for at in whole.len() - 4..whole.len() {
        for bit in 0..8 {
            let mut bytes = whole.clone();
            bytes[at] ^= 1 << bit;
            assert_eq!(parse_error(&bytes), ChunkError::ChecksumMismatch, "byte {} bit {}", at, bit);
        }
    }
}

#[test]
fn a_failed_parse_leaves_the_buffer_as_it_was() {
    let mut bytes = message_chunk().as_bytes();
    bytes[20] ^= 0x10;
    let before = bytes.clone();
    assert!(parse(&bytes).is_err());
    assert_eq!(bytes, before);
}

#[test]
fn payload_reads_as_text_when_tag_and_bytes_allow() {
    assert_eq!(message_chunk().data_as_string().unwrap(), MESSAGE);
    assert_eq!(Chunk::new(tag("RuSt"), Vec::new()).data_as_string().unwrap(), "");
    let text = "héllo, wörld ✓ 🦀";
    let chunk = Chunk::new(tag("tEXt"), text.as_bytes().to_vec());
    assert_eq!(chunk.data_as_string().unwrap(), text);
    assert_eq!(chunk.to_string(), text);
    // A valid tag need not be made of letters.
    let chunk = Chunk::new(ChunkType::try_from(*b"12A3").unwrap(), b"abc".to_vec());
    assert_eq!(chunk.data_as_string().unwrap(), "abc");
}

#[test]
fn payload_of_an_invalid_tag_is_not_read_as_text() {
    let chunk = Chunk::new(tag("Rust"), MESSAGE.as_bytes().to_vec());
    assert_eq!(chunk.data_as_string().unwrap_err(), ChunkError::InvalidChunkData);
    let chunk = Chunk::new(ChunkType::try_from([b'R', 0x80, b'S', b't']).unwrap(), b"abc".to_vec());
    assert_eq!(chunk.data_as_string().unwrap_err(), ChunkError::InvalidChunkData);
}

#[test]
fn payload_that_is_not_utf8_is_not_read_as_text_and_is_kept() {
    for data in [vec![0xff], vec![b'a', 0xc3], vec![0xc3, 0x28], vec![0xed, 0xa0, 0x80], vec![0xc0, 0x80], vec![0xf4, 0x90, 0x80, 0x80]] {
        let chunk = Chunk::new(tag("RuSt"), data.clone());
        assert_eq!(chunk.data_as_string().unwrap_err(), ChunkError::InvalidChunkData, "{:?}", data);
        assert_eq!(chunk.data(), &data[..]);
        let back = parse(&chunk.as_bytes()).unwrap();
        assert_eq!(back.data(), &data[..]);
    }
}

#[test]
fn an_invalid_tag_can_be_held_and_serialized() {
    let chunk = Chunk::new(tag("Rust"), vec![1, 2, 3]);
    assert_eq!(chunk.chunk_type().bytes(), *b"Rust");
    assert_eq!(chunk.length(), 3);
    let bytes = chunk.as_bytes();
    assert_eq!(&bytes[..8], &[0, 0, 0, 3, b'R', b'u', b's', b't']);
    assert_eq!(bytes.len(), 15);
    let stored = u32::from_be_bytes([bytes[11], bytes[12], bytes[13], bytes[14]]);
    assert_eq!(stored, chunk.crc());
}

#[test]
fn a_length_beyond_32_bits_is_too_large_for_the_length_field() {
    assert_eq!(Chunk::length_field(0), Ok(0));
    assert_eq!(Chunk::length_field(42), Ok(42));
    assert_eq!(Chunk::length_field(u32::MAX as usize), Ok(u32::MAX));
    assert_eq!(Chunk::length_field(u32::MAX as usize + 1), Err(ChunkError::PayloadTooLarge));
    assert_eq!(Chunk::length_field(usize::MAX), Err(ChunkError::PayloadTooLarge));
}

#[test]
fn checked_forms_agree_with_the_plain_ones_on_payloads_that_fit() {
    for data in [Vec::new(), vec![1], MESSAGE.as_bytes().to_vec()] {
        let chunk = Chunk::new(tag("RuSt"), data.clone());
        assert_eq!(chunk.checked_length(), Ok(data.len() as u32));
        assert_eq!(chunk.checked_as_bytes().unwrap(), chunk.as_bytes());
    }
}

#[test]
fn string_slices_are_equal_when_their_characters_are() {
    assert!(str_eq("", ""));
    assert!(str_eq("encode", "encode"));
    assert!(str_eq("héllo ✓", "héllo ✓"));
    assert!(!str_eq("encode", "decode"));
    assert!(!str_eq("encode", "encod"));
    assert!(!str_eq("encod", "encode"));
    assert!(!str_eq("", "a"));
    assert!(!str_eq("é", "e"));
    assert!(!str_eq("abc", "abd"));
}
