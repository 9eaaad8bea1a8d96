use crate::error::DecodeError;
use crate::util::bytes::u32_be;
use crate::util::file::{read_u32, short_read, unread_after, ByteSource};
use vstd::prelude::*;

verus! {

/// A 32-bit integer constant, kept as the four bytes of the file read
/// most significant byte first.
#[derive(Copy, Clone, Debug, PartialEq, Eq, Structural)]
pub struct Integer {
    pub bytes: u32,
}

impl Integer {
    /// The record that the front of `s` encodes, or the read that fails.
    pub open spec fn decoded(s: Seq<u8>) -> Result<Integer, DecodeError> {
        if s.len() < 4 {
            Err(short_read(4, s))
        } else {
            Ok(Integer { bytes: u32_be(s) })
        }
    }

    pub fn new() -> (integer: Integer)
        ensures
            integer == (Integer { bytes: 0 }),
    {
        Integer { bytes: 0 }
    }

    /// Reads the four bytes of an integer constant.
    pub fn from(reader: &mut ByteSource) -> (result: Result<Integer, DecodeError>)
        ensures
            result == Self::decoded(old(reader).remaining()),
            final(reader).remaining() == unread_after(old(reader).remaining(), 4),
    {
        let mut integer: Integer = Integer::new();
        integer.bytes = read_u32(reader)?;
        Ok(integer)
    }
}

} // verus!
