use crate::error::DecodeError;
use crate::util::bytes::{buffer_to_u16, buffer_to_u32, buffer_to_u64, u16_be, u32_be, u64_be};
use crate::util::file::{read_bytes, short_read, u16_outcome, unread_after, ByteSource};
use vstd::prelude::*;

verus! {

/// The header of a class file: what a reader needs to tell whether the
/// rest of the file is for it, without touching the constant pool.
#[derive(Debug)]
pub struct ClassFile {
    magic_number: u32,
    minor_version: u16,
    major_version: u16,
}

/// A header as a plain value.
pub struct HeaderView {
    pub magic_number: u32,
    pub minor_version: u16,
    pub major_version: u16,
}

/// The four bytes that every class file starts with.
pub const MAGIC_NUMBER: u32 = 0xCAFEBABE;

/// The highest major version that this decoder reads.
pub const MAX_MAJOR_VERSION: u16 = 52;

/// The magic number at the front of `s`, accepted only if it is the
/// class-file sentinel.
pub open spec fn magic_number_decoded(s: Seq<u8>) -> Result<u32, DecodeError> {
    if s.len() < 4 {
        Err(short_read(4, s))
    } else if u32_be(s) != MAGIC_NUMBER {
        Err(DecodeError::InvalidMagicNumber { found: u32_be(s) })
    } else {
        Ok(u32_be(s))
    }
}

/// The major version at the front of `s`, accepted only if this decoder
/// reads it.
pub open spec fn major_version_decoded(s: Seq<u8>) -> Result<u16, DecodeError> {
    if s.len() < 2 {
        Err(short_read(2, s))
    } else if u16_be(s) > MAX_MAJOR_VERSION {
        Err(DecodeError::UnsupportedVersion { found: u16_be(s), max_supported: MAX_MAJOR_VERSION })
    } else {
        Ok(u16_be(s))
    }
}

/// The header that the first eight bytes of `s` encode, or the first
/// thing that is wrong with them: the magic number, four bytes, which must
/// be the sentinel; the minor version, two bytes, which may be anything;
/// the major version, two bytes, which must not be above the highest one
/// that this decoder reads.
pub open spec fn header_decoded(s: Seq<u8>) -> Result<HeaderView, DecodeError> {
    if s.len() < 4 {
        Err(short_read(4, s))
    } else if u32_be(s) != MAGIC_NUMBER {
        Err(DecodeError::InvalidMagicNumber { found: u32_be(s) })
    } else if s.len() < 6 {
        Err(short_read(2, s.skip(4)))
    } else if s.len() < 8 {
        Err(short_read(2, s.skip(6)))
    } else if u16_be(s.skip(6)) > MAX_MAJOR_VERSION {
        Err(
            DecodeError::UnsupportedVersion {
                found: u16_be(s.skip(6)),
                max_supported: MAX_MAJOR_VERSION,
            },
        )
    } else {
        Ok(
            HeaderView {
                magic_number: u32_be(s),
                minor_version: u16_be(s.skip(4)),
                major_version: u16_be(s.skip(6)),
            },
        )
    }
}

/// What is left of `s` once `header_decoded(s)` is known: a wrong magic
/// number stops the decoder behind its four bytes.
pub open spec fn header_unread(s: Seq<u8>) -> Seq<u8> {
    if s.len() >= 4 && u32_be(s) != MAGIC_NUMBER {
        s.skip(4)
    } else {
        unread_after(s, 8)
    }
}

/// The sentinel is the four bytes `CA FE BA BE`, and no other four bytes
/// denote it.
pub proof fn lemma_magic_number_bytes(s: Seq<u8>)
    requires
        s.len() >= 4,
    ensures
        u32_be(s) == MAGIC_NUMBER <==> (s[0] == 0xCA && s[1] == 0xFE && s[2] == 0xBA && s[3]
            == 0xBE),
{
}

/// A header that starts with four bytes other than the sentinel is
/// rejected with `InvalidMagicNumber`, whatever follows them; a header that
/// starts with the sentinel is never rejected with that error, and is
/// accepted or rejected for its major version.
pub proof fn lemma_header_magic_gate(s: Seq<u8>)
    requires
        s.len() >= 4,
    ensures
        u32_be(s) != MAGIC_NUMBER ==> header_decoded(s) == Err::<HeaderView, DecodeError>(
            DecodeError::InvalidMagicNumber { found: u32_be(s) },
        ),
        u32_be(s) == MAGIC_NUMBER ==> magic_number_decoded(s) == Ok::<u32, DecodeError>(
            MAGIC_NUMBER,
        ),
        u32_be(s) == MAGIC_NUMBER ==> !(header_decoded(s) matches Err(e)
            && e is InvalidMagicNumber),
        u32_be(s) == MAGIC_NUMBER && s.len() >= 8 ==> (header_decoded(s) is Ok
            <==> major_version_decoded(s.skip(6)) is Ok),
{
}

/// Behind the sentinel, a major version above 52 is rejected with
/// `UnsupportedVersion`, and a major version up to 52 is accepted together
/// with any minor version at all.
pub proof fn lemma_header_version_gate(s: Seq<u8>)
    requires
        s.len() >= 8,
        u32_be(s) == MAGIC_NUMBER,
    ensures
        u16_be(s.skip(6)) > 52 ==> header_decoded(s) == Err::<HeaderView, DecodeError>(
            DecodeError::UnsupportedVersion { found: u16_be(s.skip(6)), max_supported: 52 },
        ),
        u16_be(s.skip(6)) <= 52 ==> header_decoded(s) == Ok::<HeaderView, DecodeError>(
            HeaderView {
                magic_number: MAGIC_NUMBER,
                minor_version: u16_be(s.skip(4)),
                major_version: u16_be(s.skip(6)),
            },
        ),
{
}

impl View for ClassFile {
    type V = HeaderView;

    closed spec fn view(&self) -> HeaderView {
        HeaderView {
            magic_number: self.magic_number,
            minor_version: self.minor_version,
            major_version: self.major_version,
        }
    }
}

impl ClassFile {
    /// A header with nothing in it: all numbers zero.
    pub fn new() -> (class_file: ClassFile)
        ensures
            class_file@ == (HeaderView { magic_number: 0, minor_version: 0, major_version: 0 }),
    {
        ClassFile { magic_number: 0, minor_version: 0, major_version: 0 }
    }

    pub fn magic_number(&self) -> (magic_number: u32)
        ensures
            magic_number == self@.magic_number,
    {
        self.magic_number
    }

    pub fn minor_version(&self) -> (minor_version: u16)
        ensures
            minor_version == self@.minor_version,
    {
        self.minor_version
    }

    pub fn major_version(&self) -> (major_version: u16)
        ensures
            major_version == self@.major_version,
    {
        self.major_version
    }

    /// Decodes the eight bytes of a header from `reader`. On success
    /// `self` holds the header; on failure `self` is as it was.
    pub fn decode(&mut self, reader: &mut ByteSource) -> (result: Result<(), DecodeError>)
        ensures
            match header_decoded(old(reader).remaining()) {
                Ok(header) => result is Ok && final(self)@ == header,
                Err(e) => result == Err::<(), DecodeError>(e) && final(self)@ == old(self)@,
            },
            final(reader).remaining() == header_unread(old(reader).remaining()),
    {
        let ghost s = old(reader).remaining();
        let mut decoded = ClassFile::new();

        decoded.parse_magic_number(reader)?;
        decoded.parse_minor_version(reader)?;
        proof {
            assert(s.skip(4).skip(2) =~= s.skip(6));
        }
        decoded.parse_major_version(reader)?;
        proof {
            assert(s.skip(6).skip(2) =~= s.skip(8));
        }

        *self = decoded;
        Ok(())
    }

    fn parse_magic_number(&mut self, reader: &mut ByteSource) -> (result: Result<(), DecodeError>)
        ensures
            match magic_number_decoded(old(reader).remaining()) {
                Ok(magic_number) => result is Ok && final(self)@ == (HeaderView {
                    magic_number,
                    ..old(self)@
                }),
                Err(e) => result == Err::<(), DecodeError>(e) && final(self)@ == old(self)@,
            },
            final(reader).remaining() == unread_after(old(reader).remaining(), 4),
    {
        let mut buffer: Vec<u8> = Vec::new();
        self.read_bytes(reader, &mut buffer, 4)?;
        let magic_number: u32 = self.vec_to_u32(&buffer);
        if magic_number != MAGIC_NUMBER {
            return Err(DecodeError::InvalidMagicNumber { found: magic_number });
        }
        self.magic_number = magic_number;

        Ok(())
    }

    fn parse_minor_version(&mut self, reader: &mut ByteSource) -> (result: Result<(), DecodeError>)
        ensures
            match u16_outcome(old(reader).remaining()) {
                Ok(minor_version) => result is Ok && final(self)@ == (HeaderView {
                    minor_version,
                    ..old(self)@
                }),
                Err(e) => result == Err::<(), DecodeError>(e) && final(self)@ == old(self)@,
            },
            final(reader).remaining() == unread_after(old(reader).remaining(), 2),
    {
        let mut buffer: Vec<u8> = Vec::new();
        self.read_bytes(reader, &mut buffer, 2)?;
        self.minor_version = self.vec_to_u16(&buffer);
        Ok(())
    }

    fn parse_major_version(&mut self, reader: &mut ByteSource) -> (result: Result<(), DecodeError>)
        ensures
            match major_version_decoded(old(reader).remaining()) {
                Ok(major_version) => result is Ok && final(self)@ == (HeaderView {
                    major_version,
                    ..old(self)@
                }),
                Err(e) => result == Err::<(), DecodeError>(e) && final(self)@ == old(self)@,
            },
            final(reader).remaining() == unread_after(old(reader).remaining(), 2),
    {
        let mut buffer: Vec<u8> = Vec::new();
        self.read_bytes(reader, &mut buffer, 2)?;
        let major_version: u16 = self.vec_to_u16(&buffer);
        if major_version > MAX_MAJOR_VERSION {
            return Err(
                DecodeError::UnsupportedVersion {
                    found: major_version,
                    max_supported: MAX_MAJOR_VERSION,
                },
            );
        }
        self.major_version = major_version;
        Ok(())
    }

    /// Takes exactly `n_bytes` bytes off the front of `reader` and puts
    /// them in `buffer` in place of what it held. If fewer bytes are left,
    /// `buffer` keeps what it held.
    pub fn read_bytes(
        &mut self,
        reader: &mut ByteSource,
        buffer: &mut Vec<u8>,
        n_bytes: usize,
    ) -> (result: Result<(), DecodeError>)
        ensures
            final(self)@ == old(self)@,
            result is Ok <==> n_bytes <= old(reader).remaining().len(),
            result is Ok ==> final(buffer)@ == old(reader).remaining().take(n_bytes as int),
            result matches Err(e) ==> final(buffer)@ == old(buffer)@ && e == short_read(
                n_bytes as nat,
                old(reader).remaining(),
            ),
            final(reader).remaining() == unread_after(old(reader).remaining(), n_bytes as nat),
    {
        let bytes: Vec<u8> = read_bytes(reader, n_bytes)?;
        *buffer = bytes;
        Ok(())
    }

    /// The first byte of `buffer`.
    pub fn vec_to_u8(&self, buffer: &Vec<u8>) -> (value: u8)
        requires
            buffer@.len() >= 1,
        ensures
            value == buffer@[0],
    {
        buffer[0]
    }

    /// The big-endian number in the first two bytes of `buffer`.
    pub fn vec_to_u16(&self, buffer: &Vec<u8>) -> (value: u16)
        requires
            buffer@.len() >= 2,
        ensures
            value == u16_be(buffer@),
    {
        buffer_to_u16([buffer[0], buffer[1]])
    }

    /// The big-endian number in the first four bytes of `buffer`.
    pub fn vec_to_u32(&self, buffer: &Vec<u8>) -> (value: u32)
        requires
            buffer@.len() >= 4,
        ensures
            value == u32_be(buffer@),
    {
        buffer_to_u32([buffer[0], buffer[1], buffer[2], buffer[3]])
    }

    /// The big-endian number in the first eight bytes of `buffer`.
    pub fn vec_to_u64(&self, buffer: &Vec<u8>) -> (value: u64)
        requires
            buffer@.len() >= 8,
        ensures
            value == u64_be(buffer@),
    {
        buffer_to_u64(
            [
                buffer[0],
                buffer[1],
                buffer[2],
                buffer[3],
                buffer[4],
                buffer[5],
                buffer[6],
                buffer[7],
            ],
        )
    }
}

} // verus!
