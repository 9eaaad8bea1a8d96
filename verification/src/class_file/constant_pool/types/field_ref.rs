use crate::error::DecodeError;
use crate::util::bytes::u16_be;
use crate::util::file::{lemma_unread_after_twice, read_u16, short_read, unread_after, ByteSource};
use vstd::prelude::*;

verus! {

/// A reference to a field: two pool indices, two bytes each.
#[derive(Copy, Clone, Debug, PartialEq, Eq, Structural)]
pub struct FieldRef {
    pub class_index: u16,
    pub name_and_type_index: u16,
}

impl FieldRef {
    /// The record that the front of `s` encodes, or the read that fails.
    pub open spec fn decoded(s: Seq<u8>) -> Result<FieldRef, DecodeError> {
        if s.len() < 2 {
            Err(short_read(2, s))
        } else if s.len() < 4 {
            Err(short_read(2, s.skip(2)))
        } else {
            Ok(FieldRef { class_index: u16_be(s), name_and_type_index: u16_be(s.skip(2)) })
        }
    }

    pub fn new() -> (field_ref: FieldRef)
        ensures
            field_ref == (FieldRef { class_index: 0, name_and_type_index: 0 }),
    {
        FieldRef { class_index: 0, name_and_type_index: 0 }
    }

    pub fn class_index(&self) -> (index: u16)
        ensures
            index == self.class_index,
    {
        self.class_index
    }

    pub fn name_and_type_index(&self) -> (index: u16)
        ensures
            index == self.name_and_type_index,
    {
        self.name_and_type_index
    }

    /// Reads the four bytes of a field reference.
    pub fn from(reader: &mut ByteSource) -> (result: Result<FieldRef, DecodeError>)
        ensures
            result == Self::decoded(old(reader).remaining()),
            final(reader).remaining() == unread_after(old(reader).remaining(), 4),
    {
        let mut field_ref: FieldRef = FieldRef::new();
        proof {
            lemma_unread_after_twice(old(reader).remaining(), 2, 2);
        }
        field_ref.class_index = read_u16(reader)?;
        field_ref.name_and_type_index = read_u16(reader)?;
        Ok(field_ref)
    }
}

} // verus!
