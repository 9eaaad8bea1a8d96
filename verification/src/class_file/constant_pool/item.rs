use crate::class_file::constant_pool::constant_pool::{
    index_in_range, last_valid_index, rejected_index, ConstantPool,
};
use crate::class_file::constant_pool::tag::ConstantPoolTag;
use crate::class_file::constant_pool::types::class_info::ClassInfo;
use crate::class_file::constant_pool::types::double::Double;
use crate::class_file::constant_pool::types::field_ref::FieldRef;
use crate::class_file::constant_pool::types::float::Float;
use crate::class_file::constant_pool::types::integer::Integer;
use crate::class_file::constant_pool::types::interface_method_ref::InterfaceMethodRef;
use crate::class_file::constant_pool::types::invoke_dynamic::InvokeDynamic;
use crate::class_file::constant_pool::types::jvm_string::JvmString;
use crate::class_file::constant_pool::types::long::Long;
use crate::class_file::constant_pool::types::method_handle::{MethodHandle, ReferenceKind};
use crate::class_file::constant_pool::types::method_ref::MethodRef;
use crate::class_file::constant_pool::types::method_type::MethodType;
use crate::class_file::constant_pool::types::name_and_type::NameAndType;
use crate::class_file::constant_pool::types::utf8::{acceptable_text, Utf8};
use crate::error::DecodeError;
use crate::util::bytes::u16_be;
use crate::util::file::{unread_after, ByteSource};
use vstd::prelude::*;

verus! {

/// The payload of a constant-pool entry: exactly one record, of one of the
/// fourteen kinds.
#[derive(Debug)]
pub enum ConstantPoolData {
    ClassInfo(ClassInfo),
    FieldRef(FieldRef),
    MethodRef(MethodRef),
    InterfaceMethodRef(InterfaceMethodRef),
    String(JvmString),
    Float(Float),
    Integer(Integer),
    Long(Long),
    Double(Double),
    NameAndType(NameAndType),
    Utf8(Utf8),
    MethodHandle(MethodHandle),
    MethodType(MethodType),
    InvokeDynamic(InvokeDynamic),
}

/// A constant-pool entry as a plain value: the records as they are, and
/// the bytes of a Utf8 record as a sequence.
pub enum EntryView {
    ClassInfo(ClassInfo),
    FieldRef(FieldRef),
    MethodRef(MethodRef),
    InterfaceMethodRef(InterfaceMethodRef),
    String(JvmString),
    Float(Float),
    Integer(Integer),
    Long(Long),
    Double(Double),
    NameAndType(NameAndType),
    Utf8(Seq<u8>),
    MethodHandle(MethodHandle),
    MethodType(MethodType),
    InvokeDynamic(InvokeDynamic),
}

/// The first of one or two index fields that lies outside
/// `1..=last_valid`, if one does.
pub open spec fn first_rejected(indices: Seq<u16>, last_valid: u16) -> Option<u16> {
    if indices.len() >= 1 && !index_in_range(indices[0], last_valid) {
        Some(indices[0])
    } else if indices.len() >= 2 && !index_in_range(indices[1], last_valid) {
        Some(indices[1])
    } else {
        None
    }
}

impl EntryView {
    /// The kind of the record.
    pub open spec fn tag(self) -> ConstantPoolTag {
        match self {
            EntryView::ClassInfo(_) => ConstantPoolTag::Class,
            EntryView::FieldRef(_) => ConstantPoolTag::FieldRef,
            EntryView::MethodRef(_) => ConstantPoolTag::MethodRef,
            EntryView::InterfaceMethodRef(_) => ConstantPoolTag::InterfaceMethodRef,
            EntryView::String(_) => ConstantPoolTag::String,
            EntryView::Float(_) => ConstantPoolTag::Float,
            EntryView::Integer(_) => ConstantPoolTag::Integer,
            EntryView::Long(_) => ConstantPoolTag::Long,
            EntryView::Double(_) => ConstantPoolTag::Double,
            EntryView::NameAndType(_) => ConstantPoolTag::NameAndType,
            EntryView::Utf8(_) => ConstantPoolTag::Utf8,
            EntryView::MethodHandle(_) => ConstantPoolTag::MethodHandle,
            EntryView::MethodType(_) => ConstantPoolTag::MethodType,
            EntryView::InvokeDynamic(_) => ConstantPoolTag::InvokeDynamic,
        }
    }

    /// The record of kind `tag` in which every number is zero, the text is
    /// empty and the reference kind is the first one.
    pub open spec fn blank(tag: ConstantPoolTag) -> EntryView {
        match tag {
            ConstantPoolTag::Class => EntryView::ClassInfo(ClassInfo { name_index: 0 }),
            ConstantPoolTag::FieldRef => EntryView::FieldRef(
                FieldRef { class_index: 0, name_and_type_index: 0 },
            ),
            ConstantPoolTag::MethodRef => EntryView::MethodRef(
                MethodRef { class_index: 0, name_and_type_index: 0 },
            ),
            ConstantPoolTag::InterfaceMethodRef => EntryView::InterfaceMethodRef(
                InterfaceMethodRef { class_index: 0, name_and_type_index: 0 },
            ),
            ConstantPoolTag::String => EntryView::String(JvmString { string_index: 0 }),
            ConstantPoolTag::Float => EntryView::Float(Float { bytes: 0 }),
            ConstantPoolTag::Integer => EntryView::Integer(Integer { bytes: 0 }),
            ConstantPoolTag::Long => EntryView::Long(Long { high_bytes: 0, low_bytes: 0 }),
            ConstantPoolTag::Double => EntryView::Double(Double { high_bytes: 0, low_bytes: 0 }),
            ConstantPoolTag::NameAndType => EntryView::NameAndType(
                NameAndType { name_index: 0, descriptor_index: 0 },
            ),
            ConstantPoolTag::Utf8 => EntryView::Utf8(Seq::empty()),
            ConstantPoolTag::MethodHandle => EntryView::MethodHandle(
                MethodHandle { reference_kind: ReferenceKind::GetField, reference_index: 0 },
            ),
            ConstantPoolTag::MethodType => EntryView::MethodType(
                MethodType { descriptor_index: 0 },
            ),
            ConstantPoolTag::InvokeDynamic => EntryView::InvokeDynamic(
                InvokeDynamic { bootstrap_method_attr_index: 0, name_and_type_index: 0 },
            ),
        }
    }

    /// The index fields of the record, in the order in which the file
    /// stores them.
    pub open spec fn indices(self) -> Seq<u16> {
        match self {
            EntryView::ClassInfo(r) => seq![r.name_index],
            EntryView::FieldRef(r) => seq![r.class_index, r.name_and_type_index],
            EntryView::MethodRef(r) => seq![r.class_index, r.name_and_type_index],
            EntryView::InterfaceMethodRef(r) => seq![r.class_index, r.name_and_type_index],
            EntryView::String(r) => seq![r.string_index],
            EntryView::Float(_) => seq![],
            EntryView::Integer(_) => seq![],
            EntryView::Long(_) => seq![],
            EntryView::Double(_) => seq![],
            EntryView::NameAndType(r) => seq![r.name_index, r.descriptor_index],
            EntryView::Utf8(_) => seq![],
            EntryView::MethodHandle(r) => seq![r.reference_index],
            EntryView::MethodType(r) => seq![r.descriptor_index],
            EntryView::InvokeDynamic(r) => seq![
                r.bootstrap_method_attr_index,
                r.name_and_type_index,
            ],
        }
    }

    /// Every index field of the record lies in `1..=last_valid`, and if the
    /// record is a text, no byte of it is one that the encoding forbids.
    pub open spec fn well_formed(self, last_valid: u16) -> bool {
        &&& first_rejected(self.indices(), last_valid) is None
        &&& self matches EntryView::Utf8(text) ==> acceptable_text(text) && text.len() <= u16::MAX
    }

    /// The record, accepted only if all its index fields lie in
    /// `1..=last_valid`; else the error for the first field that does not.
    pub open spec fn checked(self, last_valid: u16) -> Result<EntryView, DecodeError> {
        match first_rejected(self.indices(), last_valid) {
            Some(index) => Err(rejected_index(index, last_valid)),
            None => Ok(self),
        }
    }
}

impl View for ConstantPoolData {
    type V = EntryView;

    open spec fn view(&self) -> EntryView {
        match self {
            ConstantPoolData::ClassInfo(r) => EntryView::ClassInfo(*r),
            ConstantPoolData::FieldRef(r) => EntryView::FieldRef(*r),
            ConstantPoolData::MethodRef(r) => EntryView::MethodRef(*r),
            ConstantPoolData::InterfaceMethodRef(r) => EntryView::InterfaceMethodRef(*r),
            ConstantPoolData::String(r) => EntryView::String(*r),
            ConstantPoolData::Float(r) => EntryView::Float(*r),
            ConstantPoolData::Integer(r) => EntryView::Integer(*r),
            ConstantPoolData::Long(r) => EntryView::Long(*r),
            ConstantPoolData::Double(r) => EntryView::Double(*r),
            ConstantPoolData::NameAndType(r) => EntryView::NameAndType(*r),
            ConstantPoolData::Utf8(r) => EntryView::Utf8(r@),
            ConstantPoolData::MethodHandle(r) => EntryView::MethodHandle(*r),
            ConstantPoolData::MethodType(r) => EntryView::MethodType(*r),
            ConstantPoolData::InvokeDynamic(r) => EntryView::InvokeDynamic(*r),
        }
    }
}

/// `Ok` of what `wrap` makes of the record, or the error as it is.
pub open spec fn wrapped<T>(
    decoded: Result<T, DecodeError>,
    wrap: spec_fn(T) -> EntryView,
) -> Result<EntryView, DecodeError> {
    match decoded {
        Ok(record) => Ok(wrap(record)),
        Err(e) => Err(e),
    }
}

/// The record of kind `tag` that the front of `s` encodes, whatever its
/// index fields point at; or the first thing that is wrong with its bytes.
pub open spec fn payload_decoded(tag: ConstantPoolTag, s: Seq<u8>) -> Result<
    EntryView,
    DecodeError,
> {
    match tag {
        ConstantPoolTag::Class => wrapped(ClassInfo::decoded(s), |r| EntryView::ClassInfo(r)),
        ConstantPoolTag::FieldRef => wrapped(FieldRef::decoded(s), |r| EntryView::FieldRef(r)),
        ConstantPoolTag::MethodRef => wrapped(MethodRef::decoded(s), |r| EntryView::MethodRef(r)),
        ConstantPoolTag::InterfaceMethodRef => wrapped(
            InterfaceMethodRef::decoded(s),
            |r| EntryView::InterfaceMethodRef(r),
        ),
        ConstantPoolTag::String => wrapped(JvmString::decoded(s), |r| EntryView::String(r)),
        ConstantPoolTag::Float => wrapped(Float::decoded(s), |r| EntryView::Float(r)),
        ConstantPoolTag::Integer => wrapped(Integer::decoded(s), |r| EntryView::Integer(r)),
        ConstantPoolTag::Long => wrapped(Long::decoded(s), |r| EntryView::Long(r)),
        ConstantPoolTag::Double => wrapped(Double::decoded(s), |r| EntryView::Double(r)),
        ConstantPoolTag::NameAndType => wrapped(
            NameAndType::decoded(s),
            |r| EntryView::NameAndType(r),
        ),
        ConstantPoolTag::Utf8 => wrapped(Utf8::decoded(s), |r| EntryView::Utf8(r)),
        ConstantPoolTag::MethodHandle => wrapped(
            MethodHandle::decoded(s),
            |r| EntryView::MethodHandle(r),
        ),
        ConstantPoolTag::MethodType => wrapped(
            MethodType::decoded(s),
            |r| EntryView::MethodType(r),
        ),
        ConstantPoolTag::InvokeDynamic => wrapped(
            InvokeDynamic::decoded(s),
            |r| EntryView::InvokeDynamic(r),
        ),
    }
}

/// How many bytes the record of kind `tag` at the front of `s` takes up:
/// a fixed number for every kind but Utf8, whose length prefix says how
/// many bytes follow it.
pub open spec fn payload_width(tag: ConstantPoolTag, s: Seq<u8>) -> nat {
    match tag {
        ConstantPoolTag::Class => 2,
        ConstantPoolTag::FieldRef => 4,
        ConstantPoolTag::MethodRef => 4,
        ConstantPoolTag::InterfaceMethodRef => 4,
        ConstantPoolTag::String => 2,
        ConstantPoolTag::Float => 4,
        ConstantPoolTag::Integer => 4,
        ConstantPoolTag::Long => 8,
        ConstantPoolTag::Double => 8,
        ConstantPoolTag::NameAndType => 4,
        ConstantPoolTag::Utf8 => 2 + u16_be(s) as nat,
        ConstantPoolTag::MethodHandle => 3,
        ConstantPoolTag::MethodType => 2,
        ConstantPoolTag::InvokeDynamic => 4,
    }
}

/// What is left of `s` once `payload_decoded(tag, s)` is known.
pub open spec fn payload_unread(tag: ConstantPoolTag, s: Seq<u8>) -> Seq<u8> {
    match tag {
        ConstantPoolTag::Utf8 => Utf8::unread(s),
        ConstantPoolTag::MethodHandle => MethodHandle::unread(s),
        _ => unread_after(s, payload_width(tag, s)),
    }
}

/// A record that decodes takes up exactly the bytes of its kind: what is
/// left behind it is the source without the first `payload_width` bytes.
pub proof fn lemma_payload_width(tag: ConstantPoolTag, s: Seq<u8>)
    requires
        payload_decoded(tag, s) is Ok,
    ensures
        payload_width(tag, s) <= s.len(),
        payload_unread(tag, s) == s.skip(payload_width(tag, s) as int),
        payload_decoded(tag, s)->Ok_0.tag() == tag,
{
}

/// The entry of kind `tag` that the front of `s` encodes in a pool whose
/// last valid index is `last_valid`: the record is decoded first, then its
/// index fields are checked in file order.
pub open spec fn entry_decoded(tag: ConstantPoolTag, s: Seq<u8>, last_valid: u16) -> Result<
    EntryView,
    DecodeError,
> {
    match payload_decoded(tag, s) {
        Err(e) => Err(e),
        Ok(entry) => entry.checked(last_valid),
    }
}

impl ConstantPoolData {
    /// Checks the index fields of the record against `constant_pool`, in
    /// the order in which the file stores them.
    pub fn check_indices(&self, constant_pool: &ConstantPool) -> (result: Result<(), DecodeError>)
        ensures
            result == match first_rejected(
                self@.indices(),
                last_valid_index(constant_pool@.declared_count),
            ) {
                None => Ok(()),
                Some(index) => Err(
                    rejected_index(index, last_valid_index(constant_pool@.declared_count)),
                ),
            },
    {
        match self {
            ConstantPoolData::ClassInfo(r) => constant_pool.check_index(r.name_index),
            ConstantPoolData::FieldRef(r) => {
                constant_pool.check_index(r.class_index)?;
                constant_pool.check_index(r.name_and_type_index)
            },
            ConstantPoolData::MethodRef(r) => {
                constant_pool.check_index(r.class_index)?;
                constant_pool.check_index(r.name_and_type_index)
            },
            ConstantPoolData::InterfaceMethodRef(r) => {
                constant_pool.check_index(r.class_index)?;
                constant_pool.check_index(r.name_and_type_index)
            },
            ConstantPoolData::String(r) => constant_pool.check_index(r.string_index),
            ConstantPoolData::NameAndType(r) => {
                constant_pool.check_index(r.name_index)?;
                constant_pool.check_index(r.descriptor_index)
            },
            ConstantPoolData::MethodHandle(r) => constant_pool.check_index(r.reference_index),
            ConstantPoolData::MethodType(r) => constant_pool.check_index(r.descriptor_index),
            ConstantPoolData::InvokeDynamic(r) => {
                constant_pool.check_index(r.bootstrap_method_attr_index)?;
                constant_pool.check_index(r.name_and_type_index)
            },
            _ => Ok(()),
        }
    }
}

/// One entry of the constant pool: a record and the tag that names its
/// kind.
#[derive(Debug)]
pub struct ConstantPoolItem {
    tag: ConstantPoolTag,
    data: ConstantPoolData,
}

impl View for ConstantPoolItem {
    type V = EntryView;

    closed spec fn view(&self) -> EntryView {
        self.data@
    }
}

impl ConstantPoolItem {
    #[verifier::type_invariant]
    spec fn tag_names_data(self) -> bool {
        self.tag == self.data@.tag()
    }

    /// A blank entry of kind `tag`, to be filled by `parse`.
    pub fn new(tag: ConstantPoolTag) -> (item: ConstantPoolItem)
        ensures
            item@ == EntryView::blank(tag),
    {
        let data = match tag {
            ConstantPoolTag::Class => ConstantPoolData::ClassInfo(ClassInfo::new()),
            ConstantPoolTag::FieldRef => ConstantPoolData::FieldRef(FieldRef::new()),
            ConstantPoolTag::MethodRef => ConstantPoolData::MethodRef(MethodRef::new()),
            ConstantPoolTag::InterfaceMethodRef => ConstantPoolData::InterfaceMethodRef(
                InterfaceMethodRef::new(),
            ),
            ConstantPoolTag::String => ConstantPoolData::String(JvmString::new()),
            ConstantPoolTag::Float => ConstantPoolData::Float(Float::new()),
            ConstantPoolTag::Integer => ConstantPoolData::Integer(Integer::new()),
            ConstantPoolTag::Long => ConstantPoolData::Long(Long::new()),
            ConstantPoolTag::Double => ConstantPoolData::Double(Double::new()),
            ConstantPoolTag::NameAndType => ConstantPoolData::NameAndType(NameAndType::new()),
            ConstantPoolTag::Utf8 => ConstantPoolData::Utf8(Utf8::new()),
            ConstantPoolTag::MethodHandle => ConstantPoolData::MethodHandle(MethodHandle::new()),
            ConstantPoolTag::MethodType => ConstantPoolData::MethodType(MethodType::new()),
            ConstantPoolTag::InvokeDynamic => ConstantPoolData::InvokeDynamic(InvokeDynamic::new()),
        };
        ConstantPoolItem { tag, data }
    }

    pub fn tag(&self) -> (tag: &ConstantPoolTag)
        ensures
            *tag == self@.tag(),
    {
        proof {
            use_type_invariant(self);
        }
        &self.tag
    }

    pub fn data(&self) -> (data: &ConstantPoolData)
        ensures
            data@ == self@,
    {
        &self.data
    }

    /// Reads the record that follows the tag byte of this entry and checks
    /// its index fields against `constant_pool`. The entry keeps its kind;
    /// if anything is wrong, it keeps its record too.
    pub fn parse(&mut self, reader: &mut ByteSource, constant_pool: &ConstantPool) -> (result:
        Result<(), DecodeError>)
        ensures
            final(self)@.tag() == old(self)@.tag(),
            match entry_decoded(
                old(self)@.tag(),
                old(reader).remaining(),
                last_valid_index(constant_pool@.declared_count),
            ) {
                Ok(entry) => result is Ok && final(self)@ == entry,
                Err(e) => result == Err::<(), DecodeError>(e) && final(self)@ == old(self)@,
            },
            final(reader).remaining() == payload_unread(old(self)@.tag(), old(reader).remaining()),
    {
        proof {
            use_type_invariant(&*self);
        }
        // delegate the parser based on the tag
        let data = match self.tag {
            ConstantPoolTag::Class => ConstantPoolData::ClassInfo(
                ClassInfo::from(reader, constant_pool)?,
            ),
            ConstantPoolTag::FieldRef => ConstantPoolData::FieldRef(FieldRef::from(reader)?),
            ConstantPoolTag::MethodRef => ConstantPoolData::MethodRef(MethodRef::from(reader)?),
            ConstantPoolTag::InterfaceMethodRef => ConstantPoolData::InterfaceMethodRef(
                InterfaceMethodRef::from(reader)?,
            ),
            ConstantPoolTag::String => ConstantPoolData::String(JvmString::from(reader)?),
            ConstantPoolTag::Float => ConstantPoolData::Float(Float::from(reader)?),
            ConstantPoolTag::Integer => ConstantPoolData::Integer(Integer::from(reader)?),
            ConstantPoolTag::Long => ConstantPoolData::Long(Long::from(reader)?),
            ConstantPoolTag::Double => ConstantPoolData::Double(Double::from(reader)?),
            ConstantPoolTag::NameAndType => ConstantPoolData::NameAndType(
                NameAndType::from(reader)?,
            ),
            ConstantPoolTag::Utf8 => ConstantPoolData::Utf8(Utf8::from(reader)?),
            ConstantPoolTag::MethodHandle => ConstantPoolData::MethodHandle(
                MethodHandle::from(reader)?,
            ),
            ConstantPoolTag::MethodType => ConstantPoolData::MethodType(MethodType::from(reader)?),
            ConstantPoolTag::InvokeDynamic => ConstantPoolData::InvokeDynamic(
                InvokeDynamic::from(reader)?,
            ),
        };
        data.check_indices(constant_pool)?;
        self.data = data;
        Ok(())
    }
}

} // verus!
