//! The sequential byte source that every decoder reads from.

use crate::error::DecodeError;
use crate::util::bytes::{buffer_to_u16, buffer_to_u32, u16_be, u32_be};
use vstd::prelude::*;

verus! {

/// A run of bytes with a read cursor. Reading only ever moves the cursor
/// forward: there is no seeking and no lookahead.
#[derive(Debug)]
pub struct ByteSource {
    bytes: Vec<u8>,
    position: usize,
}

/// The error that a source still holding `s` reports when asked for `n`
/// bytes that it does not have.
pub open spec fn short_read(n: nat, s: Seq<u8>) -> DecodeError {
    DecodeError::ShortRead { expected: n as usize, actual: s.len() as usize }
}

/// The outcome is a failure, and the failure is a short read.
pub open spec fn is_short_read<T>(outcome: Result<T, DecodeError>) -> bool {
    outcome matches Err(e) && e is ShortRead
}

/// What a source that held `s` still holds after it was asked for `n`
/// bytes. A request that cannot be met drains the source.
pub open spec fn unread_after(s: Seq<u8>, n: nat) -> Seq<u8> {
    if n <= s.len() {
        s.skip(n as int)
    } else {
        Seq::empty()
    }
}

/// Reading one byte off `s`.
pub open spec fn u8_outcome(s: Seq<u8>) -> Result<u8, DecodeError> {
    if 1 <= s.len() {
        Ok(s[0])
    } else {
        Err(short_read(1, s))
    }
}

/// Reading a big-endian `u16` off `s`.
pub open spec fn u16_outcome(s: Seq<u8>) -> Result<u16, DecodeError> {
    if 2 <= s.len() {
        Ok(u16_be(s))
    } else {
        Err(short_read(2, s))
    }
}

/// Reading a big-endian `u32` off `s`.
pub open spec fn u32_outcome(s: Seq<u8>) -> Result<u32, DecodeError> {
    if 4 <= s.len() {
        Ok(u32_be(s))
    } else {
        Err(short_read(4, s))
    }
}

/// Two requests in a row leave what one request for both would leave.
pub proof fn lemma_unread_after_twice(s: Seq<u8>, first: nat, second: nat)
    ensures
        unread_after(unread_after(s, first), second) == unread_after(s, first + second),
{
    if first <= s.len() {
        if second <= s.len() - first {
            assert(s.skip(first as int).skip(second as int) =~= s.skip((first + second) as int));
        }
    } else {
        assert(Seq::<u8>::empty().skip(0) =~= Seq::<u8>::empty());
    }
}

impl ByteSource {
    #[verifier::type_invariant]
    spec fn cursor_in_bounds(self) -> bool {
        self.position <= self.bytes@.len()
    }

    /// The bytes that have not been read yet, in the order in which they
    /// will be handed out.
    pub closed spec fn remaining(&self) -> Seq<u8> {
        self.bytes@.skip(self.position as int)
    }

    /// A source that will hand out `bytes` from the first to the last.
    pub fn new(bytes: Vec<u8>) -> (source: ByteSource)
        ensures
            source.remaining() == bytes@,
    {
        ByteSource { bytes, position: 0 }
    }

    /// How many bytes are still unread.
    pub fn remaining_len(&self) -> (n: usize)
        ensures
            n == self.remaining().len(),
    {
        proof {
            use_type_invariant(self);
        }
        self.bytes.len() - self.position
    }
}

/// Takes exactly `n_bytes` bytes off the front of `reader`, or fails with
/// `ShortRead` when fewer are left.
pub fn read_bytes(reader: &mut ByteSource, n_bytes: usize) -> (result: Result<Vec<u8>, DecodeError>)
    ensures
        result is Ok <==> n_bytes <= old(reader).remaining().len(),
        result matches Ok(bytes) ==> bytes@ == old(reader).remaining().take(n_bytes as int),
        result matches Err(e) ==> e == short_read(n_bytes as nat, old(reader).remaining()),
        final(reader).remaining() == unread_after(old(reader).remaining(), n_bytes as nat),
{
    proof {
        use_type_invariant(&*reader);
    }
    let available: usize = reader.bytes.len() - reader.position;
    if available < n_bytes {
        reader.position = reader.bytes.len();
        proof {
            assert(reader.remaining() =~= Seq::<u8>::empty());
        }
        return Err(DecodeError::ShortRead { expected: n_bytes, actual: available });
    }
    let start: usize = reader.position;
    let end: usize = start + n_bytes;
    let mut bytes: Vec<u8> = Vec::new();
    let mut next: usize = start;
    while next < end
        invariant
            start <= next <= end <= reader.bytes@.len(),
            bytes@ == reader.bytes@.subrange(start as int, next as int),
        decreases end - next,
    {
        bytes.push(reader.bytes[next]);
        next = next + 1;
    }
    reader.position = end;
    proof {
        let unread = old(reader).remaining();
        assert(bytes@ =~= unread.take(n_bytes as int));
        assert(reader.remaining() =~= unread.skip(n_bytes as int));
    }
    Ok(bytes)
}

/// Takes one byte off the front of `reader`.
pub fn read_u8(reader: &mut ByteSource) -> (result: Result<u8, DecodeError>)
    ensures
        result == u8_outcome(old(reader).remaining()),
        final(reader).remaining() == unread_after(old(reader).remaining(), 1),
{
    match read_bytes(reader, 1) {
        Ok(bytes) => Ok(bytes[0]),
        Err(e) => Err(e),
    }
}

/// Takes a big-endian `u16` off the front of `reader`.
pub fn read_u16(reader: &mut ByteSource) -> (result: Result<u16, DecodeError>)
    ensures
        result == u16_outcome(old(reader).remaining()),
        final(reader).remaining() == unread_after(old(reader).remaining(), 2),
{
    match read_bytes(reader, 2) {
        Ok(bytes) => Ok(buffer_to_u16([bytes[0], bytes[1]])),
        Err(e) => Err(e),
    }
}

/// Takes a big-endian `u32` off the front of `reader`.
pub fn read_u32(reader: &mut ByteSource) -> (result: Result<u32, DecodeError>)
    ensures
        result == u32_outcome(old(reader).remaining()),
        final(reader).remaining() == unread_after(old(reader).remaining(), 4),
{
    match read_bytes(reader, 4) {
        Ok(bytes) => Ok(buffer_to_u32([bytes[0], bytes[1], bytes[2], bytes[3]])),
        Err(e) => Err(e),
    }
}

} // verus!
