use crate::error::DecodeError;
use crate::util::bytes::u32_be;
use crate::util::file::{read_u32, short_read, unread_after, ByteSource};
use vstd::prelude::*;

verus! {

/// A single-precision constant, kept as its raw 32-bit pattern.
#[derive(Copy, Clone, Debug, PartialEq, Eq, Structural)]
pub struct Float {
    pub bytes: u32,
}

impl Float {
    /// The record that the front of `s` encodes, or the read that fails.
    pub open spec fn decoded(s: Seq<u8>) -> Result<Float, DecodeError> {
        if s.len() < 4 {
            Err(short_read(4, s))
        } else {
            Ok(Float { bytes: u32_be(s) })
        }
    }

    pub fn new() -> (float: Float)
        ensures
            float == (Float { bytes: 0 }),
    {
        Float { bytes: 0 }
    }

    /// Reads the four bytes of a single-precision constant.
    pub fn from(reader: &mut ByteSource) -> (result: Result<Float, DecodeError>)
        ensures
            result == Self::decoded(old(reader).remaining()),
            final(reader).remaining() == unread_after(old(reader).remaining(), 4),
    {
        let mut float: Float = Float::new();
        float.bytes = read_u32(reader)?;
        Ok(float)
    }
}

} // verus!
