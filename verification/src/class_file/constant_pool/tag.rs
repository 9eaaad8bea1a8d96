use vstd::prelude::*;

verus! {

/// The fourteen kinds of record that a constant pool can hold. In the file
/// each record starts with one byte that names its kind.
#[derive(Copy, Clone, Debug, PartialEq, Eq, Structural)]
pub enum ConstantPoolTag {
    Class,
    FieldRef,
    MethodRef,
    InterfaceMethodRef,
    String,
    Integer,
    Float,
    Long,
    Double,
    NameAndType,
    Utf8,
    MethodHandle,
    MethodType,
    InvokeDynamic,
}

impl ConstantPoolTag {
    /// The kind that the tag byte `byte` names, if it names one.
    pub open spec fn of_byte(byte: u8) -> Option<ConstantPoolTag> {
        if byte == 1 {
            Some(ConstantPoolTag::Utf8)
        } else if byte == 3 {
            Some(ConstantPoolTag::Integer)
        } else if byte == 4 {
            Some(ConstantPoolTag::Float)
        } else if byte == 5 {
            Some(ConstantPoolTag::Long)
        } else if byte == 6 {
            Some(ConstantPoolTag::Double)
        } else if byte == 7 {
            Some(ConstantPoolTag::Class)
        } else if byte == 8 {
            Some(ConstantPoolTag::String)
        } else if byte == 9 {
            Some(ConstantPoolTag::FieldRef)
        } else if byte == 10 {
            Some(ConstantPoolTag::MethodRef)
        } else if byte == 11 {
            Some(ConstantPoolTag::InterfaceMethodRef)
        } else if byte == 12 {
            Some(ConstantPoolTag::NameAndType)
        } else if byte == 15 {
            Some(ConstantPoolTag::MethodHandle)
        } else if byte == 16 {
            Some(ConstantPoolTag::MethodType)
        } else if byte == 18 {
            Some(ConstantPoolTag::InvokeDynamic)
        } else {
            None
        }
    }

    /// The tag byte that names this kind.
    pub open spec fn spec_byte(self) -> u8 {
        match self {
            ConstantPoolTag::Utf8 => 1,
            ConstantPoolTag::Integer => 3,
            ConstantPoolTag::Float => 4,
            ConstantPoolTag::Long => 5,
            ConstantPoolTag::Double => 6,
            ConstantPoolTag::Class => 7,
            ConstantPoolTag::String => 8,
            ConstantPoolTag::FieldRef => 9,
            ConstantPoolTag::MethodRef => 10,
            ConstantPoolTag::InterfaceMethodRef => 11,
            ConstantPoolTag::NameAndType => 12,
            ConstantPoolTag::MethodHandle => 15,
            ConstantPoolTag::MethodType => 16,
            ConstantPoolTag::InvokeDynamic => 18,
        }
    }

    /// Looks a tag byte up; `None` for a byte that names no kind.
    pub fn from_byte(byte: u8) -> (tag: Option<ConstantPoolTag>)
        ensures
            tag == Self::of_byte(byte),
    {
        match byte {
            7 => Some(ConstantPoolTag::Class),
            9 => Some(ConstantPoolTag::FieldRef),
            10 => Some(ConstantPoolTag::MethodRef),
            15 => Some(ConstantPoolTag::MethodHandle),
            16 => Some(ConstantPoolTag::MethodType),
            18 => Some(ConstantPoolTag::InvokeDynamic),
            11 => Some(ConstantPoolTag::InterfaceMethodRef),
            8 => Some(ConstantPoolTag::String),
            3 => Some(ConstantPoolTag::Integer),
            4 => Some(ConstantPoolTag::Float),
            5 => Some(ConstantPoolTag::Long),
            6 => Some(ConstantPoolTag::Double),
            12 => Some(ConstantPoolTag::NameAndType),
            1 => Some(ConstantPoolTag::Utf8),
            _ => None,
        }
    }

    #[verifier::when_used_as_spec(spec_byte)]
    pub fn byte(self) -> (byte: u8)
        ensures
            byte == self.spec_byte(),
            Self::of_byte(byte) == Some(self),
    {
        match self {
            ConstantPoolTag::Utf8 => 1,
            ConstantPoolTag::Integer => 3,
            ConstantPoolTag::Float => 4,
            ConstantPoolTag::Long => 5,
            ConstantPoolTag::Double => 6,
            ConstantPoolTag::Class => 7,
            ConstantPoolTag::String => 8,
            ConstantPoolTag::FieldRef => 9,
            ConstantPoolTag::MethodRef => 10,
            ConstantPoolTag::InterfaceMethodRef => 11,
            ConstantPoolTag::NameAndType => 12,
            ConstantPoolTag::MethodHandle => 15,
            ConstantPoolTag::MethodType => 16,
            ConstantPoolTag::InvokeDynamic => 18,
        }
    }
}

/// The tag bytes that name a kind are 1, 3 to 12, 15, 16 and 18, and no
/// others; and the byte of a kind names that kind again.
pub proof fn lemma_recognized_tag_bytes(byte: u8)
    ensures
        ConstantPoolTag::of_byte(byte) is Some <==> (byte == 1 || 3 <= byte <= 12 || byte == 15
            || byte == 16 || byte == 18),
        ConstantPoolTag::of_byte(byte) matches Some(tag) ==> tag.spec_byte() == byte,
{
}

} // verus!
