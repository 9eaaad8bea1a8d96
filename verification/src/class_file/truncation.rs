//! What becomes of a class file that is cut short: a cut anywhere before
//! the end of the constant pool is reported as a short read, and a cut
//! behind it changes nothing.

use crate::class_file::class_file::{class_file_decoded, class_file_width};
use crate::class_file::constant_pool::constant_pool::{
    item_decoded, item_width, items_decoded, items_width, last_valid_index, lemma_items_width,
    pool_decoded, pool_width,
};
use crate::class_file::constant_pool::item::{payload_decoded, payload_width};
use crate::class_file::constant_pool::tag::ConstantPoolTag;
use crate::util::bytes::u16_be;
use crate::util::file::is_short_read;
use vstd::prelude::*;

verus! {

/// A record cut short of its last byte is a short read; a record that is
/// there in full decodes to the same value whatever follows it.
pub proof fn lemma_payload_truncated(tag: ConstantPoolTag, s: Seq<u8>, n: int)
    requires
        payload_decoded(tag, s) is Ok,
        0 <= n <= s.len(),
    ensures
        n < payload_width(tag, s) ==> is_short_read(payload_decoded(tag, s.take(n))),
        n >= payload_width(tag, s) ==> payload_decoded(tag, s.take(n)) == payload_decoded(tag, s)
            && payload_width(tag, s.take(n)) == payload_width(tag, s),
{
    let cut = s.take(n);
    if n >= 2 {
        assert(cut[0] == s[0] && cut[1] == s[1]);
    }
    if tag == ConstantPoolTag::Utf8 && n >= payload_width(tag, s) {
        let length = u16_be(s);
        assert(cut.subrange(2, 2 + length) =~= s.subrange(2, 2 + length));
    }
}

/// An entry, tag byte and record, cut short of its last byte is a short
/// read; an entry that is there in full decodes to the same value
/// whatever follows it.
pub proof fn lemma_item_truncated(s: Seq<u8>, n: int, last_valid: u16)
    requires
        item_decoded(s, last_valid) is Ok,
        0 <= n <= s.len(),
    ensures
        n < item_width(s) ==> is_short_read(item_decoded(s.take(n), last_valid)),
        n >= item_width(s) ==> item_decoded(s.take(n), last_valid) == item_decoded(s, last_valid)
            && item_width(s.take(n)) == item_width(s),
{
    if n >= 1 {
        let tag = ConstantPoolTag::of_byte(s[0])->Some_0;
        assert(s.take(n).skip(1) =~= s.skip(1).take(n - 1));
        lemma_payload_truncated(tag, s.skip(1), n - 1);
    }
}

/// A run of entries cut anywhere before its end is a short read; a run
/// that is there in full decodes to the same entries whatever follows it.
pub proof fn lemma_items_truncated(s: Seq<u8>, count: nat, n: int, last_valid: u16)
    requires
        items_decoded(s, count, last_valid) is Ok,
        0 <= n <= s.len(),
    ensures
        n < items_width(s, count) ==> is_short_read(items_decoded(s.take(n), count, last_valid)),
        n >= items_width(s, count) ==> items_decoded(s.take(n), count, last_valid)
            == items_decoded(s, count, last_valid) && items_width(s.take(n), count) == items_width(
            s,
            count,
        ),
    decreases count,
{
    if count > 0 {
        let before = (count - 1) as nat;
        let cut = s.take(n);
        lemma_items_truncated(s, before, n, last_valid);
        lemma_items_width(s, before, last_valid);
        let width = items_width(s, before) as int;
        if n >= width {
            lemma_items_width(cut, before, last_valid);
            assert(cut.skip(width) =~= s.skip(width).take(n - width));
            lemma_item_truncated(s.skip(width), n - width, last_valid);
        }
    }
}

/// A pool cut anywhere before its end is a short read; a pool that is
/// there in full decodes to the same pool whatever follows it.
pub proof fn lemma_pool_truncated(s: Seq<u8>, n: int)
    requires
        pool_decoded(s) is Ok,
        0 <= n <= s.len(),
    ensures
        n < pool_width(s) ==> is_short_read(pool_decoded(s.take(n))),
        n >= pool_width(s) ==> pool_decoded(s.take(n)) == pool_decoded(s) && pool_width(s.take(n))
            == pool_width(s),
{
    if n >= 2 {
        let last_valid = last_valid_index(u16_be(s));
        assert(s.take(n)[0] == s[0] && s.take(n)[1] == s[1]);
        assert(s.take(n).skip(2) =~= s.skip(2).take(n - 2));
        lemma_items_truncated(s.skip(2), last_valid as nat, n - 2, last_valid);
    }
}

/// Take a stream that decodes, and cut it anywhere before the end of its
/// constant pool, inside a record or between two. The decode of what is
/// left fails with `ShortRead`; it never succeeds with some other value. A
/// cut at or behind the end of the pool changes nothing: the decode gives
/// the same class file.
pub proof fn lemma_class_file_truncated(s: Seq<u8>, n: int)
    requires
        class_file_decoded(s) is Ok,
        0 <= n <= s.len(),
    ensures
        n < class_file_width(s) ==> is_short_read(class_file_decoded(s.take(n))),
        n >= class_file_width(s) ==> class_file_decoded(s.take(n)) == class_file_decoded(s),
{
    let cut = s.take(n);
    if n >= 4 {
        assert(cut[0] == s[0] && cut[1] == s[1] && cut[2] == s[2] && cut[3] == s[3]);
    }
    if n >= 6 {
        assert(cut.skip(4)[0] == s.skip(4)[0] && cut.skip(4)[1] == s.skip(4)[1]);
    }
    if n >= 8 {
        assert(cut.skip(6)[0] == s.skip(6)[0] && cut.skip(6)[1] == s.skip(6)[1]);
        assert(cut.skip(8) =~= s.skip(8).take(n - 8));
        lemma_pool_truncated(s.skip(8), n - 8);
    }
}

} // verus!
