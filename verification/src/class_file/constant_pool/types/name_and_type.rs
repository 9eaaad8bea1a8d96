use crate::error::DecodeError;
use crate::util::bytes::u16_be;
use crate::util::file::{lemma_unread_after_twice, read_u16, short_read, unread_after, ByteSource};
use vstd::prelude::*;

verus! {

/// A name paired with a type descriptor: two pool indices, two bytes each.
#[derive(Copy, Clone, Debug, PartialEq, Eq, Structural)]
pub struct NameAndType {
    pub name_index: u16,
    pub descriptor_index: u16,
}

impl NameAndType {
    /// The record that the front of `s` encodes, or the read that fails.
    pub open spec fn decoded(s: Seq<u8>) -> Result<NameAndType, DecodeError> {
        if s.len() < 2 {
            Err(short_read(2, s))
        } else if s.len() < 4 {
            Err(short_read(2, s.skip(2)))
        } else {
            Ok(NameAndType { name_index: u16_be(s), descriptor_index: u16_be(s.skip(2)) })
        }
    }

    pub fn new() -> (name_and_type: NameAndType)
        ensures
            name_and_type == (NameAndType { name_index: 0, descriptor_index: 0 }),
    {
        NameAndType { name_index: 0, descriptor_index: 0 }
    }

    pub fn name_index(&self) -> (index: u16)
        ensures
            index == self.name_index,
    {
        self.name_index
    }

    pub fn descriptor_index(&self) -> (index: u16)
        ensures
            index == self.descriptor_index,
    {
        self.descriptor_index
    }

    /// Reads the four bytes of a name-and-type record.
    pub fn from(reader: &mut ByteSource) -> (result: Result<NameAndType, DecodeError>)
        ensures
            result == Self::decoded(old(reader).remaining()),
            final(reader).remaining() == unread_after(old(reader).remaining(), 4),
    {
        let mut name_and_type: NameAndType = NameAndType::new();
        proof {
            lemma_unread_after_twice(old(reader).remaining(), 2, 2);
        }
        name_and_type.name_index = read_u16(reader)?;
        name_and_type.descriptor_index = read_u16(reader)?;
        Ok(name_and_type)
    }
}

} // verus!
