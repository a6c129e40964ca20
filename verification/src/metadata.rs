//! Typed metadata: a case-preserving multi-valued map with two value
//! encodings, ASCII text under plain keys and binary bytes under keys
//! that end in `-bin` and travel base64-encoded.

pub mod encoding;
pub mod map;
pub mod key;
pub mod value;

pub use encoding::{Ascii, Binary, InvalidMetadataValue, InvalidMetadataValueBytes, ValueEncoding};
pub use map::MetadataMap;
pub use key::{AsciiMetadataKey, BinaryMetadataKey, InvalidMetadataKey, MetadataKey};
pub use value::{AsciiMetadataValue, BinaryMetadataValue, MetadataValue, ToStrError};
