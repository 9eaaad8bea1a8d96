use crate::error::DecodeError;
use crate::util::bytes::u16_be;
use crate::util::file::{lemma_unread_after_twice, read_u16, short_read, unread_after, ByteSource};
use vstd::prelude::*;

verus! {

/// A reference to a method of an interface: two pool indices, two bytes each.
#[derive(Copy, Clone, Debug, PartialEq, Eq, Structural)]
pub struct InterfaceMethodRef {
    pub class_index: u16,
    pub name_and_type_index: u16,
}

impl InterfaceMethodRef {
    /// The record that the front of `s` encodes, or the read that fails.
    pub open spec fn decoded(s: Seq<u8>) -> Result<InterfaceMethodRef, DecodeError> {
        if s.len() < 2 {
            Err(short_read(2, s))
        } else if s.len() < 4 {
            Err(short_read(2, s.skip(2)))
        } else {
            Ok(
                InterfaceMethodRef {
                    class_index: u16_be(s),
                    name_and_type_index: u16_be(s.skip(2)),
                },
            )
        }
    }

    pub fn new() -> (interface_method_ref: InterfaceMethodRef)
        ensures
            interface_method_ref == (InterfaceMethodRef { class_index: 0, name_and_type_index: 0 }),
    {
        InterfaceMethodRef { class_index: 0, name_and_type_index: 0 }
    }

    /// Reads the four bytes of an interface method reference.
    pub fn from(reader: &mut ByteSource) -> (result: Result<InterfaceMethodRef, DecodeError>)
        ensures
            result == Self::decoded(old(reader).remaining()),
            final(reader).remaining() == unread_after(old(reader).remaining(), 4),
    {
        let mut interface_method_ref: InterfaceMethodRef = InterfaceMethodRef::new();
        proof {
            lemma_unread_after_twice(old(reader).remaining(), 2, 2);
        }
        interface_method_ref.class_index = read_u16(reader)?;
        interface_method_ref.name_and_type_index = read_u16(reader)?;
        Ok(interface_method_ref)
    }
}

} // verus!
