//! Byte-level helpers shared by the decoders.

pub mod bytes;
pub mod file;
