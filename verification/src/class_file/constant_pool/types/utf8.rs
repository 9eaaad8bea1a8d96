use crate::error::{viewed, DecodeError};
use crate::util::bytes::u16_be;
use crate::util::file::{read_bytes, read_u16, short_read, unread_after, ByteSource};
use vstd::prelude::*;

verus! {

/// A length-prefixed run of bytes in the restricted encoding that class
/// files use for text. A value of this type never holds a byte that the
/// encoding forbids.
#[derive(Debug)]
pub struct Utf8 {
    length: u16,
    bytes: Vec<u8>,
}

/// No byte of a Utf8 record is zero or lies in the range `0xF0..=0xFF`.
pub open spec fn acceptable_byte(byte: u8) -> bool {
    byte != 0 && byte < 0xF0
}

/// Every byte of `text` may stand in a Utf8 record.
pub open spec fn acceptable_text(text: Seq<u8>) -> bool {
    forall|i: int| 0 <= i < text.len() ==> acceptable_byte(#[trigger] text[i])
}

/// `position` is where the first byte of `text` stands that may not stand
/// in a Utf8 record.
pub open spec fn first_rejected_at(text: Seq<u8>, position: int) -> bool {
    &&& 0 <= position < text.len()
    &&& !acceptable_byte(text[position])
    &&& acceptable_text(text.take(position))
}

/// The text of a Utf8 record, as it is judged once all its bytes are read.
pub open spec fn judged_text(text: Seq<u8>) -> Result<Seq<u8>, DecodeError> {
    if acceptable_text(text) {
        Ok(text)
    } else {
        let position = choose|position: int| first_rejected_at(text, position);
        Err(DecodeError::MalformedUtf8Byte { value: text[position], position: position as usize })
    }
}

/// A text has at most one first rejected byte, and has one unless it is
/// acceptable throughout.
pub proof fn lemma_first_rejected_unique(text: Seq<u8>, position: int)
    requires
        first_rejected_at(text, position),
    ensures
        !acceptable_text(text),
        judged_text(text) == Err::<Seq<u8>, DecodeError>(
            DecodeError::MalformedUtf8Byte { value: text[position], position: position as usize },
        ),
{
    let chosen = choose|p: int| first_rejected_at(text, p);
    if chosen < position {
        assert(text.take(position)[chosen] == text[chosen]);
    } else if position < chosen {
        assert(text.take(chosen)[position] == text[position]);
    }
}

/// The text that `String::from_utf8_lossy` makes of `bytes`: the bytes
/// read as UTF-8, with the replacement character in place of whatever is
/// not UTF-8.
pub uninterp spec fn lossy_text(bytes: Seq<u8>) -> Seq<char>;

/// Calls `String::from_utf8_lossy` and takes the result as a `String` of
/// its own. Nothing is proved of the conversion: the contract only gives
/// its result a name, so all it claims is that the same bytes always give
/// the same text.
#[verifier::external_body]
fn lossy_string(bytes: &Vec<u8>) -> (text: String)
    ensures
        text@ == lossy_text(bytes@),
{
    String::from_utf8_lossy(bytes).into_owned()
}

impl View for Utf8 {
    type V = Seq<u8>;

    closed spec fn view(&self) -> Seq<u8> {
        self.bytes@
    }
}

impl Utf8 {
    #[verifier::type_invariant]
    spec fn well_formed(self) -> bool {
        &&& self.length == self.bytes@.len()
        &&& acceptable_text(self.bytes@)
    }

    /// The text that the front of `s` encodes, or the first thing that is
    /// wrong with it: the length prefix is read, then all the bytes that it
    /// announces, and only then are the bytes judged.
    pub open spec fn decoded(s: Seq<u8>) -> Result<Seq<u8>, DecodeError> {
        if s.len() < 2 {
            Err(short_read(2, s))
        } else if s.len() - 2 < u16_be(s) {
            Err(short_read(u16_be(s) as nat, s.skip(2)))
        } else {
            judged_text(s.subrange(2, 2 + u16_be(s)))
        }
    }

    /// What is left of `s` once `decoded(s)` is known.
    pub open spec fn unread(s: Seq<u8>) -> Seq<u8> {
        if s.len() < 2 {
            Seq::empty()
        } else {
            unread_after(s, 2 + u16_be(s) as nat)
        }
    }

    /// The empty text.
    pub fn new() -> (utf8: Utf8)
        ensures
            utf8@ == Seq::<u8>::empty(),
    {
        Utf8 { length: 0, bytes: Vec::new() }
    }

    pub fn length(&self) -> (length: u16)
        ensures
            length == self@.len(),
    {
        proof {
            use_type_invariant(self);
        }
        self.length
    }

    pub fn bytes(&self) -> (bytes: &[u8])
        ensures
            bytes@ == self@,
            acceptable_text(bytes@),
    {
        proof {
            use_type_invariant(self);
        }
        self.bytes.as_slice()
    }

    /// Returns the UTF-8 decoded string value. The text of a class file is
    /// stored in a restricted encoding of its own, so this is a reading
    /// for display: what is not UTF-8 comes out as the replacement
    /// character.
    pub fn value(&self) -> (value: String)
        ensures
            value@ == lossy_text(self@),
    {
        lossy_string(&self.bytes)
    }

    /// Reads the length prefix and the bytes of a Utf8 record.
    pub fn from(reader: &mut ByteSource) -> (result: Result<Utf8, DecodeError>)
        ensures
            viewed(result) == Self::decoded(old(reader).remaining()),
            final(reader).remaining() == Self::unread(old(reader).remaining()),
    {
        let ghost s = old(reader).remaining();
        let length: u16 = read_u16(reader)?;

        let bytes: Vec<u8> = read_bytes(reader, length as usize)?;
        proof {
            assert(bytes@ =~= s.subrange(2, 2 + length));
            assert(reader.remaining() =~= s.skip(2 + length));
            assert(unread_after(s, 2 + length as nat) == s.skip(2 + length));
        }

        // verify byte values
        // no byte may have value 0x0 or lie in range 0xf0 to 0xff
        let mut position: usize = 0;
        while position < bytes.len()
            invariant
                position <= bytes@.len(),
                acceptable_text(bytes@.take(position as int)),
                s == old(reader).remaining(),
                Self::decoded(s) == judged_text(bytes@),
                reader.remaining() == Self::unread(s),
            decreases bytes@.len() - position,
        {
            let byte: u8 = bytes[position];
            if byte == 0x0 || byte >= 0xf0 {
                proof {
                    lemma_first_rejected_unique(bytes@, position as int);
                }
                return Err(DecodeError::MalformedUtf8Byte { value: byte, position });
            }
            proof {
                let seen = bytes@.take(position + 1);
                assert forall|i: int| 0 <= i < seen.len() implies acceptable_byte(
                    #[trigger] seen[i],
                ) by {
                    if i < position {
                        assert(bytes@.take(position as int)[i] == seen[i]);
                    }
                }
            }
            position = position + 1;
        }
        proof {
            assert(bytes@.take(position as int) =~= bytes@);
        }

        Ok(Utf8 { length, bytes })
    }
}

/// The bytes that may stand in a Utf8 record are exactly `0x01..=0xEF`.
pub proof fn lemma_acceptable_bytes(byte: u8)
    ensures
        acceptable_byte(byte) <==> 0x01 <= byte <= 0xEF,
{
}

/// A Utf8 record whose bytes are all in the source decodes if and only if
/// every one of its bytes is acceptable, and then to just those bytes; and
/// whether it decodes or not, it takes up its length prefix and the bytes
/// that the prefix announces, no more.
pub proof fn lemma_utf8_accepts_acceptable_text(s: Seq<u8>)
    requires
        s.len() >= 2 + u16_be(s),
    ensures
        Utf8::decoded(s) is Ok <==> acceptable_text(s.subrange(2, 2 + u16_be(s))),
        Utf8::decoded(s) matches Ok(text) ==> text == s.subrange(2, 2 + u16_be(s)),
        Utf8::decoded(s) matches Err(e) ==> e is MalformedUtf8Byte,
        Utf8::unread(s) == s.skip(2 + u16_be(s)),
{
}

/// A Utf8 record with length prefix zero decodes to the empty text and
/// takes up the two bytes of its prefix, whatever follows them.
pub proof fn lemma_utf8_empty(s: Seq<u8>)
    requires
        s.len() >= 2,
        u16_be(s) == 0,
    ensures
        Utf8::decoded(s) == Ok::<Seq<u8>, DecodeError>(Seq::empty()),
        Utf8::unread(s) == s.skip(2),
{
    assert(s.subrange(2, 2) =~= Seq::<u8>::empty());
}

} // verus!
