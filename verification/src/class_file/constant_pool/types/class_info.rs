use crate::class_file::constant_pool::constant_pool::{
    index_in_range, last_valid_index, rejected_index, ConstantPool,
};
use crate::error::DecodeError;
use crate::util::bytes::u16_be;
use crate::util::file::{read_u16, short_read, unread_after, ByteSource};
use vstd::prelude::*;

verus! {

/// A class or an interface: the pool index of its name, two bytes.
#[derive(Copy, Clone, Debug, PartialEq, Eq, Structural)]
pub struct ClassInfo {
    pub name_index: u16,
}

impl ClassInfo {
    /// The record that the front of `s` encodes, or the read that fails.
    pub open spec fn decoded(s: Seq<u8>) -> Result<ClassInfo, DecodeError> {
        if s.len() < 2 {
            Err(short_read(2, s))
        } else {
            Ok(ClassInfo { name_index: u16_be(s) })
        }
    }

    /// The same record, accepted only if its name index points into a pool
    /// whose last valid index is `last_valid`.
    pub open spec fn decoded_within(s: Seq<u8>, last_valid: u16) -> Result<ClassInfo, DecodeError> {
        match Self::decoded(s) {
            Err(e) => Err(e),
            Ok(class_info) => if index_in_range(class_info.name_index, last_valid) {
                Ok(class_info)
            } else {
                Err(rejected_index(class_info.name_index, last_valid))
            },
        }
    }

    pub fn new() -> (class_info: ClassInfo)
        ensures
            class_info == (ClassInfo { name_index: 0 }),
    {
        ClassInfo { name_index: 0 }
    }

    pub fn name_index(&self) -> (index: u16)
        ensures
            index == self.name_index,
    {
        self.name_index
    }

    /// Reads the two bytes of a class record and checks that the name
    /// index lies in the pool that the record belongs to.
    pub fn from(reader: &mut ByteSource, constant_pool: &ConstantPool) -> (result: Result<
        ClassInfo,
        DecodeError,
    >)
        ensures
            result == Self::decoded_within(
                old(reader).remaining(),
                last_valid_index(constant_pool@.declared_count),
            ),
            final(reader).remaining() == unread_after(old(reader).remaining(), 2),
    {
        let mut class_info = ClassInfo::new();
        class_info.name_index = read_u16(reader)?;
        constant_pool.check_index(class_info.name_index)?;
        Ok(class_info)
    }
}

} // verus!
