use crate::error::DecodeError;
use crate::util::bytes::u16_be;
use crate::util::file::{lemma_unread_after_twice, read_u16, short_read, unread_after, ByteSource};
use vstd::prelude::*;

verus! {

/// A dynamic call site: a bootstrap method index and a name-and-type index,
/// two bytes each.
#[derive(Copy, Clone, Debug, PartialEq, Eq, Structural)]
pub struct InvokeDynamic {
    pub bootstrap_method_attr_index: u16,
    pub name_and_type_index: u16,
}

impl InvokeDynamic {
    /// The record that the front of `s` encodes, or the read that fails.
    pub open spec fn decoded(s: Seq<u8>) -> Result<InvokeDynamic, DecodeError> {
        if s.len() < 2 {
            Err(short_read(2, s))
        } else if s.len() < 4 {
            Err(short_read(2, s.skip(2)))
        } else {
            Ok(
                InvokeDynamic {
                    bootstrap_method_attr_index: u16_be(s),
                    name_and_type_index: u16_be(s.skip(2)),
                },
            )
        }
    }

    pub fn new() -> (invoke_dynamic: InvokeDynamic)
        ensures
            invoke_dynamic == (InvokeDynamic {
                bootstrap_method_attr_index: 0,
                name_and_type_index: 0,
            }),
    {
        InvokeDynamic { bootstrap_method_attr_index: 0, name_and_type_index: 0 }
    }

    /// Reads the four bytes of a dynamic call site.
    pub fn from(reader: &mut ByteSource) -> (result: Result<InvokeDynamic, DecodeError>)
        ensures
            result == Self::decoded(old(reader).remaining()),
            final(reader).remaining() == unread_after(old(reader).remaining(), 4),
    {
        let mut invoke_dynamic: InvokeDynamic = InvokeDynamic::new();
        proof {
            lemma_unread_after_twice(old(reader).remaining(), 2, 2);
        }
        invoke_dynamic.bootstrap_method_attr_index = read_u16(reader)?;
        invoke_dynamic.name_and_type_index = read_u16(reader)?;
        Ok(invoke_dynamic)
    }
}

} // verus!
