use crate::error::DecodeError;
use crate::util::bytes::u16_be;
use crate::util::file::{read_u16, short_read, unread_after, ByteSource};
use vstd::prelude::*;

verus! {

/// A method type: the pool index of its descriptor, two bytes.
#[derive(Copy, Clone, Debug, PartialEq, Eq, Structural)]
pub struct MethodType {
    pub descriptor_index: u16,
}

impl MethodType {
    /// The record that the front of `s` encodes, or the read that fails.
    pub open spec fn decoded(s: Seq<u8>) -> Result<MethodType, DecodeError> {
        if s.len() < 2 {
            Err(short_read(2, s))
        } else {
            Ok(MethodType { descriptor_index: u16_be(s) })
        }
    }

    pub fn new() -> (method_type: MethodType)
        ensures
            method_type == (MethodType { descriptor_index: 0 }),
    {
        MethodType { descriptor_index: 0 }
    }

    /// Reads the two bytes of a method type.
    pub fn from(reader: &mut ByteSource) -> (result: Result<MethodType, DecodeError>)
        ensures
            result == Self::decoded(old(reader).remaining()),
            final(reader).remaining() == unread_after(old(reader).remaining(), 2),
    {
        let mut method_type: MethodType = MethodType::new();
        method_type.descriptor_index = read_u16(reader)?;
        Ok(method_type)
    }
}

} // verus!
