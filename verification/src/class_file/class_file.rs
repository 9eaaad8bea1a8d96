use crate::class_file::constant_pool::constant_pool::{
    items_decoded, items_unread, last_valid_index, lemma_items_failure_is_final, lemma_pool_count,
    lemma_pool_error_kinds, lemma_pool_width, pool_decoded, pool_unread, pool_width, ConstantPool,
    PoolView,
};
use crate::class_file::constant_pool::item::EntryView;
use crate::classfile::classfile::{
    header_decoded, header_unread, magic_number_decoded, major_version_decoded, HeaderView,
    MAGIC_NUMBER, MAX_MAJOR_VERSION,
};
use crate::error::DecodeError;
use crate::util::bytes::{u16_be, u32_be};
use crate::util::file::{read_u16, read_u32, u16_outcome, unread_after, ByteSource};
use vstd::prelude::*;

verus! {

/// The header and the constant pool of a class file.
#[derive(Debug)]
pub struct ClassFile {
    magic_number: u32,
    minor_version: u16,
    major_version: u16,
    constant_pool: ConstantPool,
}

/// A decoded class file as a plain value.
pub struct ClassFileView {
    pub magic_number: u32,
    pub minor_version: u16,
    pub major_version: u16,
    pub constant_pool: PoolView,
}

impl ClassFileView {
    /// The magic number is the sentinel, the major version is one that
    /// this decoder reads, and the constant pool is complete.
    pub open spec fn well_formed(self) -> bool {
        &&& self.magic_number == MAGIC_NUMBER
        &&& self.major_version <= MAX_MAJOR_VERSION
        &&& self.constant_pool.well_formed()
    }
}

/// The class file that `s` encodes, as far as the end of its constant
/// pool, or the first thing that is wrong with it: the header, eight
/// bytes, then the pool.
pub open spec fn class_file_decoded(s: Seq<u8>) -> Result<ClassFileView, DecodeError> {
    match header_decoded(s) {
        Err(e) => Err(e),
        Ok(header) => match pool_decoded(s.skip(8)) {
            Err(e) => Err(e),
            Ok(constant_pool) => Ok(
                ClassFileView {
                    magic_number: header.magic_number,
                    minor_version: header.minor_version,
                    major_version: header.major_version,
                    constant_pool,
                },
            ),
        },
    }
}

/// How many bytes the class file at the front of `s` takes up, as far as
/// the end of its constant pool: eight bytes of header and the pool.
pub open spec fn class_file_width(s: Seq<u8>) -> nat {
    8 + pool_width(s.skip(8))
}

/// What is left of `s` once `class_file_decoded(s)` is known.
pub open spec fn class_file_unread(s: Seq<u8>) -> Seq<u8> {
    if header_decoded(s) is Err {
        header_unread(s)
    } else {
        pool_unread(s.skip(8))
    }
}

impl View for ClassFile {
    type V = ClassFileView;

    closed spec fn view(&self) -> ClassFileView {
        ClassFileView {
            magic_number: self.magic_number,
            minor_version: self.minor_version,
            major_version: self.major_version,
            constant_pool: self.constant_pool@,
        }
    }
}

impl ClassFile {
    /// A class file with nothing in it: all numbers zero, the pool empty.
    pub fn new() -> (class_file: ClassFile)
        ensures
            class_file@ == (ClassFileView {
                magic_number: 0,
                minor_version: 0,
                major_version: 0,
                constant_pool: PoolView { declared_count: 0, entries: Seq::empty() },
            }),
    {
        ClassFile {
            magic_number: 0,
            minor_version: 0,
            major_version: 0,
            constant_pool: ConstantPool::new(),
        }
    }

    pub fn magic_number(&self) -> (magic_number: u32)
        ensures
            magic_number == self@.magic_number,
    {
        self.magic_number
    }

    pub fn minor_version(&self) -> (minor_version: u16)
        ensures
            minor_version == self@.minor_version,
    {
        self.minor_version
    }

    pub fn major_version(&self) -> (major_version: u16)
        ensures
            major_version == self@.major_version,
    {
        self.major_version
    }

    pub fn constant_pool(&self) -> (constant_pool: &ConstantPool)
        ensures
            constant_pool@ == self@.constant_pool,
    {
        &self.constant_pool
    }

    /// Decodes a class file from `reader`, as far as the end of its
    /// constant pool. On success `self` holds what was decoded; on failure
    /// `self` is as it was, and nothing of the failed decode is kept.
    pub fn decode(&mut self, reader: &mut ByteSource) -> (result: Result<(), DecodeError>)
        ensures
            match class_file_decoded(old(reader).remaining()) {
                Ok(class_file) => result is Ok && final(self)@ == class_file,
                Err(e) => result == Err::<(), DecodeError>(e) && final(self)@ == old(self)@,
            },
            final(reader).remaining() == class_file_unread(old(reader).remaining()),
            result is Ok ==> final(self)@.well_formed(),
    {
        let ghost s = old(reader).remaining();
        let mut decoded = ClassFile::new();
        proof {
            if class_file_decoded(s) is Ok {
                lemma_class_file_well_formed(s);
            }
        }

        decoded.parse_magic_number(reader)?;
        decoded.parse_minor_version(reader)?;
        proof {
            assert(s.skip(4).skip(2) =~= s.skip(6));
        }
        decoded.parse_major_version(reader)?;
        proof {
            assert(s.skip(6).skip(2) =~= s.skip(8));
        }
        decoded.parse_constant_pool(reader)?;

        *self = decoded;
        Ok(())
    }

    fn parse_magic_number(&mut self, reader: &mut ByteSource) -> (result: Result<(), DecodeError>)
        ensures
            match magic_number_decoded(old(reader).remaining()) {
                Ok(magic_number) => result is Ok && final(self)@ == (ClassFileView {
                    magic_number,
                    ..old(self)@
                }),
                Err(e) => result == Err::<(), DecodeError>(e) && final(self)@ == old(self)@,
            },
            final(reader).remaining() == unread_after(old(reader).remaining(), 4),
    {
        let magic_number: u32 = read_u32(reader)?;
        if magic_number != MAGIC_NUMBER {
            return Err(DecodeError::InvalidMagicNumber { found: magic_number });
        }
        self.magic_number = magic_number;

        Ok(())
    }

    fn parse_minor_version(&mut self, reader: &mut ByteSource) -> (result: Result<(), DecodeError>)
        ensures
            match u16_outcome(old(reader).remaining()) {
                Ok(minor_version) => result is Ok && final(self)@ == (ClassFileView {
                    minor_version,
                    ..old(self)@
                }),
                Err(e) => result == Err::<(), DecodeError>(e) && final(self)@ == old(self)@,
            },
            final(reader).remaining() == unread_after(old(reader).remaining(), 2),
    {
        self.minor_version = read_u16(reader)?;
        Ok(())
    }

    fn parse_major_version(&mut self, reader: &mut ByteSource) -> (result: Result<(), DecodeError>)
        ensures
            match major_version_decoded(old(reader).remaining()) {
                Ok(major_version) => result is Ok && final(self)@ == (ClassFileView {
                    major_version,
                    ..old(self)@
                }),
                Err(e) => result == Err::<(), DecodeError>(e) && final(self)@ == old(self)@,
            },
            final(reader).remaining() == unread_after(old(reader).remaining(), 2),
    {
        let major_version: u16 = read_u16(reader)?;
        if major_version > MAX_MAJOR_VERSION {
            return Err(
                DecodeError::UnsupportedVersion {
                    found: major_version,
                    max_supported: MAX_MAJOR_VERSION,
                },
            );
        }
        self.major_version = major_version;
        Ok(())
    }

    fn parse_constant_pool(&mut self, reader: &mut ByteSource) -> (result: Result<(), DecodeError>)
        ensures
            match pool_decoded(old(reader).remaining()) {
                Ok(constant_pool) => result is Ok && final(self)@ == (ClassFileView {
                    constant_pool,
                    ..old(self)@
                }),
                Err(e) => result == Err::<(), DecodeError>(e) && final(self)@ == old(self)@,
            },
            final(reader).remaining() == pool_unread(old(reader).remaining()),
    {
        // first get size of constant pool
        let constant_pool_count: u16 = read_u16(reader)?;
        let mut constant_pool = ConstantPool::new();
        constant_pool.set_size(constant_pool_count);

        // parse all constant pool items
        // constant pool starts at index 1 up to count - 1
        let ghost body = reader.remaining();
        let ghost last_valid = last_valid_index(constant_pool_count);
        let mut index: u16 = 1;
        while index < constant_pool_count
            invariant
                1 <= index,
                index - 1 <= last_valid,
                last_valid == last_valid_index(constant_pool_count),
                constant_pool@.declared_count == constant_pool_count,
                items_decoded(body, (index - 1) as nat, last_valid) == Ok::<
                    Seq<EntryView>,
                    DecodeError,
                >(constant_pool@.entries),
                reader.remaining() == items_unread(body, (index - 1) as nat, last_valid),
                pool_unread(old(reader).remaining()) == items_unread(
                    body,
                    last_valid as nat,
                    last_valid,
                ),
                pool_decoded(old(reader).remaining()) == match items_decoded(
                    body,
                    last_valid as nat,
                    last_valid,
                ) {
                    Err(e) => Err::<PoolView, DecodeError>(e),
                    Ok(entries) => Ok(PoolView { declared_count: constant_pool_count, entries }),
                },
                self@ == old(self)@,
            decreases constant_pool_count - index,
        {
            match constant_pool.parse_item_from_class_file(reader) {
                Ok(()) => {},
                Err(e) => {
                    proof {
                        lemma_items_failure_is_final(
                            body,
                            index as nat,
                            last_valid as nat,
                            last_valid,
                        );
                    }
                    return Err(e);
                },
            }
            index = index + 1;
        }

        self.constant_pool = constant_pool;
        Ok(())
    }
}

/// A stream that starts with four bytes other than the sentinel is
/// rejected with `InvalidMagicNumber`, whatever follows them; a stream that
/// starts with the sentinel is never rejected with that error.
pub proof fn lemma_magic_gate(s: Seq<u8>)
    requires
        s.len() >= 4,
    ensures
        u32_be(s) != MAGIC_NUMBER ==> class_file_decoded(s) == Err::<ClassFileView, DecodeError>(
            DecodeError::InvalidMagicNumber { found: u32_be(s) },
        ),
        u32_be(s) == MAGIC_NUMBER ==> !(class_file_decoded(s) matches Err(e)
            && e is InvalidMagicNumber),
{
    lemma_pool_error_kinds(s.skip(8));
}

/// Behind the sentinel, a major version above 52 is rejected with
/// `UnsupportedVersion`; a major version up to 52 is accepted together
/// with any minor version at all, and the class file then decodes or
/// fails as its constant pool does.
pub proof fn lemma_version_gate(s: Seq<u8>)
    requires
        s.len() >= 8,
        u32_be(s) == MAGIC_NUMBER,
    ensures
        u16_be(s.skip(6)) > 52 ==> class_file_decoded(s) == Err::<ClassFileView, DecodeError>(
            DecodeError::UnsupportedVersion { found: u16_be(s.skip(6)), max_supported: 52 },
        ),
        u16_be(s.skip(6)) <= 52 ==> match pool_decoded(s.skip(8)) {
            Ok(constant_pool) => class_file_decoded(s) == Ok::<ClassFileView, DecodeError>(
                ClassFileView {
                    magic_number: MAGIC_NUMBER,
                    minor_version: u16_be(s.skip(4)),
                    major_version: u16_be(s.skip(6)),
                    constant_pool,
                },
            ),
            Err(e) => class_file_decoded(s) == Err::<ClassFileView, DecodeError>(e) && !(e
                is UnsupportedVersion),
        },
{
    lemma_pool_error_kinds(s.skip(8));
}

/// The header gates the class file: a stream whose header is rejected is
/// rejected as a class file for the same reason, whatever its pool holds;
/// behind a header that is accepted, the class file decodes or fails as
/// its pool does, and then never with an error of the header.
pub proof fn lemma_header_gate(s: Seq<u8>)
    ensures
        header_decoded(s) matches Err(e) ==> class_file_decoded(s) == Err::<
            ClassFileView,
            DecodeError,
        >(e),
        header_decoded(s) is Ok ==> (class_file_decoded(s) is Ok <==> pool_decoded(
            s.skip(8),
        ) is Ok),
        header_decoded(s) is Ok ==> (class_file_decoded(s) matches Err(e) ==> pool_decoded(
            s.skip(8),
        ) == Err::<PoolView, DecodeError>(e) && !(e is InvalidMagicNumber) && !(e
            is UnsupportedVersion)),
        class_file_decoded(s) matches Ok(class_file) ==> header_decoded(s) == Ok::<
            HeaderView,
            DecodeError,
        >(
            HeaderView {
                magic_number: class_file.magic_number,
                minor_version: class_file.minor_version,
                major_version: class_file.major_version,
            },
        ) && pool_decoded(s.skip(8)) == Ok::<PoolView, DecodeError>(class_file.constant_pool),
{
    lemma_pool_error_kinds(s.skip(8));
}

/// Whatever decodes is well formed: it starts with the sentinel, its major
/// version is at most 52, and its pool holds one entry less than it
/// declares (none if it declares zero), each with all its index fields in
/// range.
pub proof fn lemma_class_file_well_formed(s: Seq<u8>)
    requires
        class_file_decoded(s) is Ok,
    ensures
        class_file_decoded(s)->Ok_0.well_formed(),
{
    lemma_pool_count(s.skip(8));
}

/// A class file that decodes has been read from its first byte to the
/// last byte of its constant pool: what is left is the source without the
/// first `class_file_width` bytes.
pub proof fn lemma_class_file_width(s: Seq<u8>)
    requires
        class_file_decoded(s) is Ok,
    ensures
        class_file_width(s) <= s.len(),
        class_file_unread(s) == s.skip(class_file_width(s) as int),
{
    lemma_pool_width(s.skip(8));
    let width = pool_width(s.skip(8));
    assert(s.skip(8).skip(width as int) =~= s.skip((8 + width) as int));
}

} // verus!
