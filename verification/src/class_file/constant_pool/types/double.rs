use crate::error::DecodeError;
use crate::util::bytes::u32_be;
use crate::util::file::{lemma_unread_after_twice, read_u32, short_read, unread_after, ByteSource};
use vstd::prelude::*;

verus! {

/// A double-precision constant, kept as the two 32-bit halves of its raw
/// pattern.
#[derive(Copy, Clone, Debug, PartialEq, Eq, Structural)]
pub struct Double {
    pub high_bytes: u32,
    pub low_bytes: u32,
}

impl Double {
    /// The record that the front of `s` encodes, or the read that fails.
    pub open spec fn decoded(s: Seq<u8>) -> Result<Double, DecodeError> {
        if s.len() < 4 {
            Err(short_read(4, s))
        } else if s.len() < 8 {
            Err(short_read(4, s.skip(4)))
        } else {
            Ok(Double { high_bytes: u32_be(s), low_bytes: u32_be(s.skip(4)) })
        }
    }

    pub fn new() -> (double: Double)
        ensures
            double == (Double { high_bytes: 0, low_bytes: 0 }),
    {
        Double { high_bytes: 0, low_bytes: 0 }
    }

    /// Reads the eight bytes of a double-precision constant.
    pub fn from(reader: &mut ByteSource) -> (result: Result<Double, DecodeError>)
        ensures
            result == Self::decoded(old(reader).remaining()),
            final(reader).remaining() == unread_after(old(reader).remaining(), 8),
    {
        let mut double: Double = Double::new();
        proof {
            lemma_unread_after_twice(old(reader).remaining(), 4, 4);
        }
        double.high_bytes = read_u32(reader)?;
        double.low_bytes = read_u32(reader)?;
        Ok(double)
    }
}

} // verus!
