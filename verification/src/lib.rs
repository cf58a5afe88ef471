//! Verified classifier for the 4-byte type codes that name PNG chunks.
//!
//! The one component is [`chunk_type::ChunkType`]: a fixed 4-byte value with
//! parsing from raw bytes and from text, textual rendering, and the four
//! bit-flag predicates that the PNG convention derives from the ASCII case
//! of each byte.

pub mod chunk_type;
