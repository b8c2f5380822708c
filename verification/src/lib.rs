//! Decoder for a fixed-format datagram: an 8-byte header (source and
//! destination identifiers, declared total length, checksum, all big-endian
//! 16-bit fields) followed by a variable-length payload whose size is the
//! declared length minus the header size.

pub mod datagram;
pub mod text;
