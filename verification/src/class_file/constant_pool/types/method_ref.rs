use crate::error::DecodeError;
use crate::util::bytes::u16_be;
use crate::util::file::{lemma_unread_after_twice, read_u16, short_read, unread_after, ByteSource};
use vstd::prelude::*;

verus! {

/// A reference to a method of a class: two pool indices, two bytes each.
#[derive(Copy, Clone, Debug, PartialEq, Eq, Structural)]
pub struct MethodRef {
    pub class_index: u16,
    pub name_and_type_index: u16,
}

impl MethodRef {
    /// The record that the front of `s` encodes, or the read that fails.
    pub open spec fn decoded(s: Seq<u8>) -> Result<MethodRef, DecodeError> {
        if s.len() < 2 {
            Err(short_read(2, s))
        } else if s.len() < 4 {
            Err(short_read(2, s.skip(2)))
        } else {
            Ok(MethodRef { class_index: u16_be(s), name_and_type_index: u16_be(s.skip(2)) })
        }
    }

    pub fn new() -> (method_ref: MethodRef)
        ensures
            method_ref == (MethodRef { class_index: 0, name_and_type_index: 0 }),
    {
        MethodRef { class_index: 0, name_and_type_index: 0 }
    }

    pub fn class_index(&self) -> (index: u16)
        ensures
            index == self.class_index,
    {
        self.class_index
    }

    pub fn name_and_type_index(&self) -> (index: u16)
        ensures
            index == self.name_and_type_index,
    {
        self.name_and_type_index
    }

    /// Reads the four bytes of a method reference.
    pub fn from(reader: &mut ByteSource) -> (result: Result<MethodRef, DecodeError>)
        ensures
            result == Self::decoded(old(reader).remaining()),
            final(reader).remaining() == unread_after(old(reader).remaining(), 4),
    {
        let mut method_ref: MethodRef = MethodRef::new();
        proof {
            lemma_unread_after_twice(old(reader).remaining(), 2, 2);
        }
        method_ref.class_index = read_u16(reader)?;
        method_ref.name_and_type_index = read_u16(reader)?;
        Ok(method_ref)
    }
}

} // verus!
