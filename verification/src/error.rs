//! The ways in which decoding a class file can fail.

use vstd::prelude::*;

verus! {

/// The reason a decode was abandoned. Every variant carries the offending
/// value, so that a caller can report the failure without reading the input
/// a second time.
#[allow(inconsistent_fields)]
#[derive(Debug, Clone, Copy, PartialEq, Eq, Structural)]
pub enum DecodeError {
    /// The byte source ran out: `expected` bytes were asked for and only
    /// `actual` were left.
    ShortRead { expected: usize, actual: usize },
    /// The first four bytes are not the class-file sentinel.
    InvalidMagicNumber { found: u32 },
    /// The major version is above the highest one this decoder reads.
    UnsupportedVersion { found: u16, max_supported: u16 },
    /// A constant-pool entry starts with a byte that names no record kind.
    UnknownTag { value: u8 },
    /// A byte of a Utf8 record is zero or lies in `0xF0..=0xFF`; `position`
    /// counts from the first byte after the length prefix.
    MalformedUtf8Byte { value: u8, position: usize },
    /// The kind byte of a method handle is outside `1..=9`.
    InvalidReferenceKind { value: u8 },
    /// An index field points outside the pool; `first_valid..=last_valid`
    /// is the range that would have been accepted. The range is empty
    /// (`last_valid` is zero) for a pool that declares no entries.
    InvalidPoolIndex { index: u16, first_valid: u16, last_valid: u16 },
}

/// The outcome with the view of what was decoded in place of the value
/// itself.
pub open spec fn viewed<T: View>(outcome: Result<T, DecodeError>) -> Result<T::V, DecodeError> {
    match outcome {
        Ok(value) => Ok(value@),
        Err(e) => Err(e),
    }
}

} // verus!
