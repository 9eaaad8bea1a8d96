use crate::error::DecodeError;
use crate::util::bytes::u16_be;
use crate::util::file::{
    lemma_unread_after_twice, read_u16, read_u8, short_read, unread_after, ByteSource,
};
use vstd::prelude::*;

verus! {

/// How a method handle uses the field or method that it refers to. The
/// file stores the kind as one byte, `1` for `GetField` up to `9` for
/// `InvokeInterface`.
#[derive(Copy, Clone, Debug, PartialEq, Eq, Structural)]
pub enum ReferenceKind {
    GetField,
    GetStatic,
    PutField,
    PutStatic,
    InvokeVirtual,
    InvokeStatic,
    InvokeSpecial,
    NewInvokeSpecial,
    InvokeInterface,
}

impl ReferenceKind {
    /// The kind that `code` stands for, if it stands for one.
    pub open spec fn of_code(code: u8) -> Option<ReferenceKind> {
        if code == 1 {
            Some(ReferenceKind::GetField)
        } else if code == 2 {
            Some(ReferenceKind::GetStatic)
        } else if code == 3 {
            Some(ReferenceKind::PutField)
        } else if code == 4 {
            Some(ReferenceKind::PutStatic)
        } else if code == 5 {
            Some(ReferenceKind::InvokeVirtual)
        } else if code == 6 {
            Some(ReferenceKind::InvokeStatic)
        } else if code == 7 {
            Some(ReferenceKind::InvokeSpecial)
        } else if code == 8 {
            Some(ReferenceKind::NewInvokeSpecial)
        } else if code == 9 {
            Some(ReferenceKind::InvokeInterface)
        } else {
            None
        }
    }

    /// The byte that the file stores for this kind.
    pub open spec fn spec_code(self) -> u8 {
        match self {
            ReferenceKind::GetField => 1,
            ReferenceKind::GetStatic => 2,
            ReferenceKind::PutField => 3,
            ReferenceKind::PutStatic => 4,
            ReferenceKind::InvokeVirtual => 5,
            ReferenceKind::InvokeStatic => 6,
            ReferenceKind::InvokeSpecial => 7,
            ReferenceKind::NewInvokeSpecial => 8,
            ReferenceKind::InvokeInterface => 9,
        }
    }

    /// Maps a kind byte to its kind; `None` for a byte outside `1..=9`.
    pub fn from_code(code: u8) -> (kind: Option<ReferenceKind>)
        ensures
            kind == Self::of_code(code),
            kind is Some <==> 1 <= code <= 9,
    {
        match code {
            1 => Some(ReferenceKind::GetField),
            2 => Some(ReferenceKind::GetStatic),
            3 => Some(ReferenceKind::PutField),
            4 => Some(ReferenceKind::PutStatic),
            5 => Some(ReferenceKind::InvokeVirtual),
            6 => Some(ReferenceKind::InvokeStatic),
            7 => Some(ReferenceKind::InvokeSpecial),
            8 => Some(ReferenceKind::NewInvokeSpecial),
            9 => Some(ReferenceKind::InvokeInterface),
            _ => None,
        }
    }

    #[verifier::when_used_as_spec(spec_code)]
    pub fn code(self) -> (code: u8)
        ensures
            code == self.spec_code(),
            Self::of_code(code) == Some(self),
    {
        match self {
            ReferenceKind::GetField => 1,
            ReferenceKind::GetStatic => 2,
            ReferenceKind::PutField => 3,
            ReferenceKind::PutStatic => 4,
            ReferenceKind::InvokeVirtual => 5,
            ReferenceKind::InvokeStatic => 6,
            ReferenceKind::InvokeSpecial => 7,
            ReferenceKind::NewInvokeSpecial => 8,
            ReferenceKind::InvokeInterface => 9,
        }
    }
}

/// A method handle: the kind of use, one byte, and the pool index of what
/// is used, two bytes.
#[derive(Copy, Clone, Debug, PartialEq, Eq, Structural)]
pub struct MethodHandle {
    pub reference_kind: ReferenceKind,
    pub reference_index: u16,
}

impl MethodHandle {
    /// The record that the front of `s` encodes, or the first thing that is
    /// wrong with it. The kind byte is judged before the index is read.
    pub open spec fn decoded(s: Seq<u8>) -> Result<MethodHandle, DecodeError> {
        if s.len() < 1 {
            Err(short_read(1, s))
        } else {
            match ReferenceKind::of_code(s[0]) {
                None => Err(DecodeError::InvalidReferenceKind { value: s[0] }),
                Some(reference_kind) => if s.len() < 3 {
                    Err(short_read(2, s.skip(1)))
                } else {
                    Ok(MethodHandle { reference_kind, reference_index: u16_be(s.skip(1)) })
                },
            }
        }
    }

    /// What is left of `s` once `decoded(s)` is known: a bad kind byte stops
    /// the decoder right behind that byte.
    pub open spec fn unread(s: Seq<u8>) -> Seq<u8> {
        if s.len() >= 1 && ReferenceKind::of_code(s[0]) is None {
            s.skip(1)
        } else {
            unread_after(s, 3)
        }
    }

    /// A handle that reads a field of the entry at index zero; a
    /// placeholder until a record is decoded.
    pub fn new() -> (method_handle: MethodHandle)
        ensures
            method_handle == (MethodHandle {
                reference_kind: ReferenceKind::GetField,
                reference_index: 0,
            }),
    {
        MethodHandle { reference_kind: ReferenceKind::GetField, reference_index: 0 }
    }

    /// Reads the three bytes of a method handle.
    pub fn from(reader: &mut ByteSource) -> (result: Result<MethodHandle, DecodeError>)
        ensures
            result == Self::decoded(old(reader).remaining()),
            final(reader).remaining() == Self::unread(old(reader).remaining()),
    {
        let mut method_handle = MethodHandle::new();
        proof {
            lemma_unread_after_twice(old(reader).remaining(), 1, 2);
        }

        // read 1 byte for reference_kind
        let kind_byte: u8 = read_u8(reader)?;
        method_handle.reference_kind = match ReferenceKind::from_code(kind_byte) {
            Some(kind) => kind,
            None => {
                return Err(DecodeError::InvalidReferenceKind { value: kind_byte });
            },
        };

        // read 2 bytes for reference_index
        method_handle.reference_index = read_u16(reader)?;

        Ok(method_handle)
    }
}

} // verus!
