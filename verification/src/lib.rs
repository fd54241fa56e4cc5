//! Codec for a single PNG chunk: the four-letter type tag with its property
//! bits, the length-prefixed and checksummed wire form, and the command
//! arguments of the tool built on top of it.

pub mod args;
pub mod checksum;
pub mod chunk;
pub mod chunk_type;
pub mod error;
pub mod text;
pub mod wire;
