use crate::class_file::constant_pool::item::{
    entry_decoded, lemma_payload_width, payload_unread, payload_width, ConstantPoolItem, EntryView,
};
use crate::class_file::constant_pool::tag::ConstantPoolTag;
use crate::error::DecodeError;
use crate::util::bytes::u16_be;
use crate::util::file::{read_bytes, short_read, ByteSource};
use vstd::prelude::*;

verus! {

/// The constant pool while it is assembled and once it is complete: the
/// entry count that the file declares, and the entries decoded so far.
#[derive(Debug)]
pub struct ConstantPool {
    count: u16,
    items: Vec<ConstantPoolItem>,
}

/// A constant pool as a plain value.
pub struct PoolView {
    /// The count as the file declares it: one more than the number of
    /// entries that follow.
    pub declared_count: u16,
    /// The entries in file order. The entry at position `i` is the one
    /// that index `i + 1` refers to.
    pub entries: Seq<EntryView>,
}

impl PoolView {
    /// The pool holds as many entries as its declared count promises, and
    /// every one of them is well formed: a complete pool.
    pub open spec fn well_formed(self) -> bool {
        &&& self.entries.len() == last_valid_index(self.declared_count)
        &&& forall|i: int|
            0 <= i < self.entries.len() ==> (#[trigger] self.entries[i]).well_formed(
                last_valid_index(self.declared_count),
            )
    }
}

/// The largest index that refers to an entry of a pool that declares
/// `declared_count`; zero if no index does.
pub open spec fn last_valid_index(declared_count: u16) -> u16 {
    if declared_count == 0 {
        0
    } else {
        (declared_count - 1) as u16
    }
}

/// Index zero refers to nothing; the indices `1..=last_valid` refer to the
/// entries.
pub open spec fn index_in_range(index: u16, last_valid: u16) -> bool {
    1 <= index <= last_valid
}

/// The error for an index that lies outside `1..=last_valid`.
pub open spec fn rejected_index(index: u16, last_valid: u16) -> DecodeError {
    DecodeError::InvalidPoolIndex { index, first_valid: 1, last_valid }
}

/// The entry that the front of `s` encodes, tag byte first, in a pool
/// whose last valid index is `last_valid`; or the first thing that is
/// wrong with it. A tag byte that names no kind is an error: the width of
/// what follows it is not known, so nothing behind it can be read.
pub open spec fn item_decoded(s: Seq<u8>, last_valid: u16) -> Result<EntryView, DecodeError> {
    if s.len() < 1 {
        Err(short_read(1, s))
    } else {
        match ConstantPoolTag::of_byte(s[0]) {
            None => Err(DecodeError::UnknownTag { value: s[0] }),
            Some(tag) => entry_decoded(tag, s.skip(1), last_valid),
        }
    }
}

/// What is left of `s` once `item_decoded(s, _)` is known.
pub open spec fn item_unread(s: Seq<u8>) -> Seq<u8> {
    if s.len() < 1 {
        Seq::empty()
    } else {
        match ConstantPoolTag::of_byte(s[0]) {
            None => s.skip(1),
            Some(tag) => payload_unread(tag, s.skip(1)),
        }
    }
}

/// How many bytes the entry at the front of `s` takes up: its tag byte and
/// the record of the kind that the tag byte names.
pub open spec fn item_width(s: Seq<u8>) -> nat {
    match ConstantPoolTag::of_byte(s[0]) {
        None => 1,
        Some(tag) => 1 + payload_width(tag, s.skip(1)),
    }
}

/// How many bytes the first `n` entries of `s` take up together.
pub open spec fn items_width(s: Seq<u8>, n: nat) -> nat
    decreases n,
{
    if n == 0 {
        0
    } else {
        let before = items_width(s, (n - 1) as nat);
        before + item_width(s.skip(before as int))
    }
}

/// How many bytes the pool at the front of `s` takes up: the declared
/// count and the entries.
pub open spec fn pool_width(s: Seq<u8>) -> nat {
    2 + items_width(s.skip(2), last_valid_index(u16_be(s)) as nat)
}

/// The first `n` entries that `s` encodes one after the other, or the
/// error of the first one that cannot be decoded.
pub open spec fn items_decoded(s: Seq<u8>, n: nat, last_valid: u16) -> Result<
    Seq<EntryView>,
    DecodeError,
>
    decreases n,
{
    if n == 0 {
        Ok(Seq::empty())
    } else {
        match items_decoded(s, (n - 1) as nat, last_valid) {
            Err(e) => Err(e),
            Ok(entries) => match item_decoded(
                items_unread(s, (n - 1) as nat, last_valid),
                last_valid,
            ) {
                Err(e) => Err(e),
                Ok(entry) => Ok(entries.push(entry)),
            },
        }
    }
}

/// What is left of `s` once `items_decoded(s, n, _)` is known: decoding
/// stops behind the first entry that fails.
pub open spec fn items_unread(s: Seq<u8>, n: nat, last_valid: u16) -> Seq<u8>
    decreases n,
{
    if n == 0 {
        s
    } else if items_decoded(s, (n - 1) as nat, last_valid) is Err {
        items_unread(s, (n - 1) as nat, last_valid)
    } else {
        item_unread(items_unread(s, (n - 1) as nat, last_valid))
    }
}

/// Once an entry has failed, asking for more entries changes nothing.
pub proof fn lemma_items_failure_is_final(s: Seq<u8>, failed: nat, n: nat, last_valid: u16)
    requires
        failed <= n,
        items_decoded(s, failed, last_valid) is Err,
    ensures
        items_decoded(s, n, last_valid) == items_decoded(s, failed, last_valid),
        items_unread(s, n, last_valid) == items_unread(s, failed, last_valid),
    decreases n,
{
    if failed < n {
        lemma_items_failure_is_final(s, failed, (n - 1) as nat, last_valid);
    }
}

/// The pool that the front of `s` encodes: the declared count, two bytes,
/// then one entry less than it declares (none if it declares zero).
pub open spec fn pool_decoded(s: Seq<u8>) -> Result<PoolView, DecodeError> {
    if s.len() < 2 {
        Err(short_read(2, s))
    } else {
        let last_valid = last_valid_index(u16_be(s));
        match items_decoded(s.skip(2), last_valid as nat, last_valid) {
            Err(e) => Err(e),
            Ok(entries) => Ok(PoolView { declared_count: u16_be(s), entries }),
        }
    }
}

/// What is left of `s` once `pool_decoded(s)` is known.
pub open spec fn pool_unread(s: Seq<u8>) -> Seq<u8> {
    if s.len() < 2 {
        Seq::empty()
    } else {
        let last_valid = last_valid_index(u16_be(s));
        items_unread(s.skip(2), last_valid as nat, last_valid)
    }
}

impl View for ConstantPool {
    type V = PoolView;

    closed spec fn view(&self) -> PoolView {
        PoolView {
            declared_count: self.count,
            entries: Seq::new(self.items@.len(), |i: int| self.items@[i]@),
        }
    }
}

impl ConstantPool {
    /// A pool that declares nothing and holds nothing.
    pub fn new() -> (constant_pool: ConstantPool)
        ensures
            constant_pool@.declared_count == 0,
            constant_pool@.entries == Seq::<EntryView>::empty(),
    {
        let constant_pool = ConstantPool { count: 0, items: Vec::new() };
        proof {
            assert(constant_pool@.entries =~= Seq::<EntryView>::empty());
        }
        constant_pool
    }

    pub fn set_size(&mut self, size: u16)
        ensures
            final(self)@.declared_count == size,
            final(self)@.entries == old(self)@.entries,
    {
        self.count = size;
    }

    pub fn count(&self) -> (count: usize)
        ensures
            count == self@.declared_count,
    {
        self.count as usize
    }

    pub fn items(&self) -> (items: &[ConstantPoolItem])
        ensures
            items@.len() == self@.entries.len(),
            forall|i: int| 0 <= i < items@.len() ==> (#[trigger] items@[i])@ == self@.entries[i],
    {
        self.items.as_slice()
    }

    /// The largest index that refers to an entry of this pool; zero if the
    /// pool declares no entries.
    pub fn max_constant_pool_index(&self) -> (last_valid: u16)
        ensures
            last_valid == last_valid_index(self@.declared_count),
    {
        if self.count == 0 {
            0
        } else {
            self.count - 1
        }
    }

    /// Accepts `index` if it lies in `1..=declared_count - 1`.
    pub fn check_index(&self, index: u16) -> (result: Result<(), DecodeError>)
        ensures
            result == if index_in_range(index, last_valid_index(self@.declared_count)) {
                Ok(())
            } else {
                Err(rejected_index(index, last_valid_index(self@.declared_count)))
            },
    {
        let last_valid: u16 = self.max_constant_pool_index();
        if index == 0 || index > last_valid {
            return Err(DecodeError::InvalidPoolIndex { index, first_valid: 1, last_valid });
        }
        Ok(())
    }

    /// The entry that the 1-based `index` refers to, if the pool holds it.
    pub fn get(&self, index: u16) -> (item: Option<&ConstantPoolItem>)
        ensures
            item is Some <==> 1 <= index <= self@.entries.len(),
            item matches Some(found) ==> found@ == self@.entries[index - 1],
    {
        if index == 0 || index as usize > self.items.len() {
            return None;
        }
        Some(&self.items[index as usize - 1])
    }

    /// Decodes the entry at the front of `reader`, tag byte first, and
    /// appends it to the pool. If anything is wrong with the entry, the
    /// pool stays as it was.
    pub fn parse_item_from_class_file(&mut self, reader: &mut ByteSource) -> (result: Result<
        (),
        DecodeError,
    >)
        ensures
            final(self)@.declared_count == old(self)@.declared_count,
            match item_decoded(
                old(reader).remaining(),
                last_valid_index(old(self)@.declared_count),
            ) {
                Ok(entry) => result is Ok && final(self)@.entries == old(self)@.entries.push(entry),
                Err(e) => result == Err::<(), DecodeError>(e) && final(self)@.entries == old(
                    self,
                )@.entries,
            },
            final(reader).remaining() == item_unread(old(reader).remaining()),
    {
        // read the tag
        let buffer: Vec<u8> = read_bytes(reader, 1)?;
        let tag = match ConstantPoolTag::from_byte(buffer[0]) {
            Some(tag) => tag,
            None => {
                return Err(DecodeError::UnknownTag { value: buffer[0] });
            },
        };

        let mut item = ConstantPoolItem::new(tag);
        item.parse(reader, self)?;

        self.items.push(item);
        proof {
            assert(self@.entries =~= old(self)@.entries.push(item@));
        }
        Ok(())
    }
}

/// The errors that the decode of an entry can end in: a short read, an
/// unknown tag, a malformed Utf8 byte, an invalid reference kind or an
/// invalid pool index.
pub open spec fn is_entry_error(e: DecodeError) -> bool {
    e is ShortRead || e is UnknownTag || e is MalformedUtf8Byte || e is InvalidReferenceKind
        || e is InvalidPoolIndex
}

/// An entry fails with one of the five errors of entries, never with an
/// error of the header.
pub proof fn lemma_item_error_kinds(s: Seq<u8>, last_valid: u16)
    ensures
        item_decoded(s, last_valid) matches Err(e) ==> is_entry_error(e),
{
}

/// A run of entries fails with one of the five errors of entries.
pub proof fn lemma_items_error_kinds(s: Seq<u8>, n: nat, last_valid: u16)
    ensures
        items_decoded(s, n, last_valid) matches Err(e) ==> is_entry_error(e),
    decreases n,
{
    if n > 0 {
        lemma_items_error_kinds(s, (n - 1) as nat, last_valid);
        lemma_item_error_kinds(items_unread(s, (n - 1) as nat, last_valid), last_valid);
    }
}

/// A pool fails with one of the five errors of entries.
pub proof fn lemma_pool_error_kinds(s: Seq<u8>)
    ensures
        pool_decoded(s) matches Err(e) ==> is_entry_error(e),
{
    if s.len() >= 2 {
        let last_valid = last_valid_index(u16_be(s));
        lemma_items_error_kinds(s.skip(2), last_valid as nat, last_valid);
    }
}

/// An entry that decodes is well formed.
pub proof fn lemma_item_well_formed(s: Seq<u8>, last_valid: u16)
    requires
        item_decoded(s, last_valid) is Ok,
    ensures
        item_decoded(s, last_valid)->Ok_0.well_formed(last_valid),
{
}

/// A run of `n` entries that decodes has `n` entries, each of them well
/// formed, and the entry at position `i` is the one that was decoded
/// behind the first `i`.
pub proof fn lemma_items_in_file_order(s: Seq<u8>, n: nat, last_valid: u16)
    requires
        items_decoded(s, n, last_valid) is Ok,
    ensures
        items_decoded(s, n, last_valid)->Ok_0.len() == n,
        forall|i: nat|
            i < n ==> {
                &&& #[trigger] items_decoded(s, i, last_valid) is Ok
                &&& items_decoded(s, i, last_valid)->Ok_0 == items_decoded(
                    s,
                    n,
                    last_valid,
                )->Ok_0.take(i as int)
                &&& item_decoded(items_unread(s, i, last_valid), last_valid) == Ok::<
                    EntryView,
                    DecodeError,
                >(items_decoded(s, n, last_valid)->Ok_0[i as int])
            },
        forall|i: int|
            0 <= i < n ==> (#[trigger] items_decoded(s, n, last_valid)->Ok_0[i]).well_formed(
                last_valid,
            ),
    decreases n,
{
    if n > 0 {
        let before = (n - 1) as nat;
        lemma_items_in_file_order(s, before, last_valid);
        lemma_item_well_formed(items_unread(s, before, last_valid), last_valid);
        let entries = items_decoded(s, n, last_valid)->Ok_0;
        let earlier = items_decoded(s, before, last_valid)->Ok_0;
        assert(entries.take(before as int) =~= earlier);
        assert forall|i: nat| i < n implies {
            &&& #[trigger] items_decoded(s, i, last_valid) is Ok
            &&& items_decoded(s, i, last_valid)->Ok_0 == entries.take(i as int)
            &&& item_decoded(items_unread(s, i, last_valid), last_valid) == Ok::<
                EntryView,
                DecodeError,
            >(entries[i as int])
        } by {
            if i < before {
                assert(earlier.take(i as int) =~= entries.take(i as int));
            }
        }
        assert forall|i: int| 0 <= i < n implies (#[trigger] entries[i]).well_formed(
            last_valid,
        ) by {
            if i < before {
                assert(entries[i] == earlier[i]);
            }
        }
    } else {
        assert(items_decoded(s, n, last_valid)->Ok_0.take(0) =~= Seq::<EntryView>::empty());
    }
}

/// A pool that decodes holds one entry less than it declares, or none if
/// it declares zero; so the entry at position `i` is the one that index
/// `i + 1` refers to, and the indices that refer to an entry are
/// `1..=declared_count - 1`. Every entry is well formed.
pub proof fn lemma_pool_count(s: Seq<u8>)
    requires
        pool_decoded(s) is Ok,
    ensures
        pool_decoded(s)->Ok_0.declared_count == u16_be(s),
        pool_decoded(s)->Ok_0.entries.len() == last_valid_index(u16_be(s)),
        u16_be(s) >= 1 ==> pool_decoded(s)->Ok_0.entries.len() == u16_be(s) - 1,
        pool_decoded(s)->Ok_0.well_formed(),
{
    let last_valid = last_valid_index(u16_be(s));
    lemma_items_in_file_order(s.skip(2), last_valid as nat, last_valid);
}

/// In a complete pool no reference dangles: every index field of every
/// entry is the index of an entry that the pool holds.
pub proof fn lemma_references_resolve(pool: PoolView, entry: int, field: int)
    requires
        pool.well_formed(),
        0 <= entry < pool.entries.len(),
        0 <= field < pool.entries[entry].indices().len(),
    ensures
        1 <= pool.entries[entry].indices()[field] <= pool.entries.len(),
{
    assert(pool.entries[entry].well_formed(last_valid_index(pool.declared_count)));
}

/// A tag byte that names no kind fails the entry with `UnknownTag`; a tag
/// byte that names a kind never does, and if the entry decodes it is a
/// record of that kind and takes up the tag byte and the bytes of that
/// kind, no more and no less.
pub proof fn lemma_tag_dispatch(s: Seq<u8>, last_valid: u16)
    requires
        s.len() >= 1,
    ensures
        ConstantPoolTag::of_byte(s[0]) is None ==> item_decoded(s, last_valid) == Err::<
            EntryView,
            DecodeError,
        >(DecodeError::UnknownTag { value: s[0] }),
        ConstantPoolTag::of_byte(s[0]) is Some ==> !(item_decoded(s, last_valid) matches Err(e)
            && e is UnknownTag),
        ConstantPoolTag::of_byte(s[0]) matches Some(tag) ==> (item_decoded(
            s,
            last_valid,
        ) matches Ok(entry) ==> {
            &&& entry.tag() == tag
            &&& 1 + payload_width(tag, s.skip(1)) <= s.len()
            &&& item_unread(s) == s.skip((1 + payload_width(tag, s.skip(1))) as int)
        }),
{
    if item_decoded(s, last_valid) is Ok {
        lemma_item_width(s, last_valid);
    }
}

/// An entry that decodes takes up exactly `item_width` bytes.
pub proof fn lemma_item_width(s: Seq<u8>, last_valid: u16)
    requires
        item_decoded(s, last_valid) is Ok,
    ensures
        item_width(s) <= s.len(),
        item_unread(s) == s.skip(item_width(s) as int),
        ConstantPoolTag::of_byte(s[0]) == Some(item_decoded(s, last_valid)->Ok_0.tag()),
{
    let tag = ConstantPoolTag::of_byte(s[0])->Some_0;
    lemma_payload_width(tag, s.skip(1));
    let width = payload_width(tag, s.skip(1));
    assert(s.skip(1).skip(width as int) =~= s.skip((1 + width) as int));
}

/// A run of entries that decodes takes up exactly `items_width` bytes.
pub proof fn lemma_items_width(s: Seq<u8>, n: nat, last_valid: u16)
    requires
        items_decoded(s, n, last_valid) is Ok,
    ensures
        items_width(s, n) <= s.len(),
        items_unread(s, n, last_valid) == s.skip(items_width(s, n) as int),
    decreases n,
{
    if n > 0 {
        let before = (n - 1) as nat;
        lemma_items_width(s, before, last_valid);
        let width = items_width(s, before);
        lemma_item_width(s.skip(width as int), last_valid);
        let last = item_width(s.skip(width as int));
        assert(s.skip(width as int).skip(last as int) =~= s.skip((width + last) as int));
    } else {
        assert(s.skip(0) =~= s);
    }
}

/// A pool that decodes takes up exactly `pool_width` bytes.
pub proof fn lemma_pool_width(s: Seq<u8>)
    requires
        pool_decoded(s) is Ok,
    ensures
        pool_width(s) <= s.len(),
        pool_unread(s) == s.skip(pool_width(s) as int),
{
    let last_valid = last_valid_index(u16_be(s));
    lemma_items_width(s.skip(2), last_valid as nat, last_valid);
    let width = items_width(s.skip(2), last_valid as nat);
    assert(s.skip(2).skip(width as int) =~= s.skip((2 + width) as int));
}

} // verus!
