use crate::error::DecodeError;
use crate::util::bytes::u16_be;
use crate::util::file::{read_u16, short_read, unread_after, ByteSource};
use vstd::prelude::*;

verus! {

/// Named JvmString to avoid ambiguity with String.
/// Represents constant objects of String type: one pool index of two bytes.
#[derive(Copy, Clone, Debug, PartialEq, Eq, Structural)]
pub struct JvmString {
    pub string_index: u16,
}

impl JvmString {
    /// The record that the front of `s` encodes, or the read that fails.
    pub open spec fn decoded(s: Seq<u8>) -> Result<JvmString, DecodeError> {
        if s.len() < 2 {
            Err(short_read(2, s))
        } else {
            Ok(JvmString { string_index: u16_be(s) })
        }
    }

    pub fn new() -> (string: JvmString)
        ensures
            string == (JvmString { string_index: 0 }),
    {
        JvmString { string_index: 0 }
    }

    pub fn string_index(&self) -> (index: u16)
        ensures
            index == self.string_index,
    {
        self.string_index
    }

    /// Reads the two bytes of a string constant.
    pub fn from(reader: &mut ByteSource) -> (result: Result<JvmString, DecodeError>)
        ensures
            result == Self::decoded(old(reader).remaining()),
            final(reader).remaining() == unread_after(old(reader).remaining(), 2),
    {
        let mut string: JvmString = JvmString::new();
        string.string_index = read_u16(reader)?;
        Ok(string)
    }
}

} // verus!
