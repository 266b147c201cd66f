//! The part of CBOR (RFC 8949) in which a Jade's messages are written:
//! data items of definite length.
//!
//! A data item begins with a head: a byte whose high three bits are the
//! major type and whose low five bits are the additional information, and
//! after it, where the information says so, an argument of 1, 2, 4 or 8
//! bytes, most significant first. Byte and text strings are followed by as
//! many bytes as the argument says, arrays by that many items, maps by twice
//! that many, a tag by one item. Items of indefinite length are not
//! accepted.

use crate::bytes::{be16, be32, be64};
use vstd::prelude::*;

verus! {

pub const MAJOR_UNSIGNED: u8 = 0;

pub const MAJOR_NEGATIVE: u8 = 1;

pub const MAJOR_BYTES: u8 = 2;

pub const MAJOR_TEXT: u8 = 3;

pub const MAJOR_ARRAY: u8 = 4;

pub const MAJOR_MAP: u8 = 5;

pub const MAJOR_TAG: u8 = 6;

pub const MAJOR_SIMPLE: u8 = 7;

/// The head of a data item.
pub struct Head {
    pub major: u8,
    pub info: u8,
    pub arg: u64,
    /// The number of bytes that the head takes.
    pub len: usize,
}

/// The number that `n` bytes from `pos` on stand for, most significant
/// first, for `n` of 1, 2, 4 or 8.
pub open spec fn be_value(bytes: Seq<u8>, pos: int, n: int) -> int {
    if n == 1 {
        bytes[pos] as int
    } else if n == 2 {
        bytes[pos] as int * 0x100 + bytes[pos + 1] as int
    } else if n == 4 {
        bytes[pos] as int * 0x100_0000 + bytes[pos + 1] as int * 0x1_0000 + bytes[pos + 2] as int
            * 0x100 + bytes[pos + 3] as int
    } else {
        bytes[pos] as int * 0x100_0000_0000_0000 + bytes[pos + 1] as int * 0x1_0000_0000_0000
            + bytes[pos + 2] as int * 0x100_0000_0000 + bytes[pos + 3] as int * 0x1_0000_0000
            + bytes[pos + 4] as int * 0x100_0000 + bytes[pos + 5] as int * 0x1_0000 + bytes[pos
            + 6] as int * 0x100 + bytes[pos + 7] as int
    }
}

/// The bytes that the argument takes after the first byte of a head.
pub open spec fn arg_len(info: int) -> int {
    if info < 24 {
        0
    } else if info == 24 {
        1
    } else if info == 25 {
        2
    } else if info == 26 {
        4
    } else {
        8
    }
}

/// The head that begins at `pos`, if one does and it is all there.
pub open spec fn head_at(bytes: Seq<u8>, pos: int) -> Option<Head> {
    if pos < 0 || pos >= bytes.len() {
        None
    } else {
        let major = bytes[pos] / 32;
        let info = bytes[pos] % 32;
        if info < 24 {
            Some(Head { major, info, arg: info as u64, len: 1 })
        } else if info > 27 || pos + 1 + arg_len(info as int) > bytes.len() {
            None
        } else {
            Some(
                Head {
                    major,
                    info,
                    arg: be_value(bytes, pos + 1, arg_len(info as int)) as u64,
                    len: (1 + arg_len(info as int)) as usize,
                },
            )
        }
    }
}

/// Reads the head that begins at `pos`.
pub fn read_head(bytes: &[u8], pos: usize) -> (r: Option<Head>)
    ensures
        r == head_at(bytes@, pos as int),
        match r {
            Some(h) => 1 <= h.len <= 9 && pos + h.len <= bytes@.len() && h.major < 8,
            None => true,
        },
{
    if pos >= bytes.len() {
        return None;
    }
    let first = bytes[pos];
    let major = first / 32;
    let info = first % 32;
    let rest = bytes.len() - pos - 1;
    if info < 24 {
        Some(Head { major, info, arg: info as u64, len: 1 })
    } else if info == 24 {
        if rest < 1 {
            return None;
        }
        Some(Head { major, info, arg: bytes[pos + 1] as u64, len: 2 })
    } else if info == 25 {
        if rest < 2 {
            return None;
        }
        let arg = bytes[pos + 1] as u64 * 0x100 + bytes[pos + 2] as u64;
        Some(Head { major, info, arg, len: 3 })
    } else if info == 26 {
        if rest < 4 {
            return None;
        }
        let arg = bytes[pos + 1] as u64 * 0x100_0000 + bytes[pos + 2] as u64 * 0x1_0000 + bytes[pos
            + 3] as u64 * 0x100 + bytes[pos + 4] as u64;
        Some(Head { major, info, arg, len: 5 })
    } else if info == 27 {
        if rest < 8 {
            return None;
        }
        let arg = bytes[pos + 1] as u64 * 0x100_0000_0000_0000 + bytes[pos + 2] as u64
            * 0x1_0000_0000_0000 + bytes[pos + 3] as u64 * 0x100_0000_0000 + bytes[pos + 4] as u64
            * 0x1_0000_0000 + bytes[pos + 5] as u64 * 0x100_0000 + bytes[pos + 6] as u64 * 0x1_0000
            + bytes[pos + 7] as u64 * 0x100 + bytes[pos + 8] as u64;
        Some(Head { major, info, arg, len: 9 })
    } else {
        None
    }
}

/// The place behind `count` data items in a row from `pos` on, if that many
/// are there, each one complete.
pub open spec fn items_end(bytes: Seq<u8>, pos: int, count: int) -> Option<int>
    decreases bytes.len() - pos,
{
    if count <= 0 {
        Some(pos)
    } else {
        match head_at(bytes, pos) {
            None => None,
            Some(h) => {
                let next = pos + h.len;
                if h.major == MAJOR_BYTES || h.major == MAJOR_TEXT {
                    if next + h.arg <= bytes.len() {
                        items_end(bytes, next + h.arg, count - 1)
                    } else {
                        None
                    }
                } else if h.major == MAJOR_ARRAY {
                    items_end(bytes, next, count - 1 + h.arg)
                } else if h.major == MAJOR_MAP {
                    items_end(bytes, next, count - 1 + 2 * h.arg)
                } else if h.major == MAJOR_TAG {
                    items_end(bytes, next, count)
                } else {
                    items_end(bytes, next, count - 1)
                }
            },
        }
    }
}

/// Items take room: `count` items from `pos` on end no earlier than `count`
/// bytes later, and within the bytes.
pub proof fn lemma_items_take_room(bytes: Seq<u8>, pos: int, count: int)
    requires
        0 <= pos,
        0 <= count,
    ensures
        items_end(bytes, pos, count) matches Some(end) ==> pos + count <= end && (count > 0
            ==> end <= bytes.len()),
    decreases bytes.len() - pos,
{
    if count > 0 {
        match head_at(bytes, pos) {
            None => {},
            Some(h) => {
                let next = pos + h.len;
                if h.major == MAJOR_BYTES || h.major == MAJOR_TEXT {
                    if next + h.arg <= bytes.len() {
                        lemma_items_take_room(bytes, next + h.arg, count - 1);
                    }
                } else if h.major == MAJOR_ARRAY {
                    lemma_items_take_room(bytes, next, count - 1 + h.arg);
                } else if h.major == MAJOR_MAP {
                    lemma_items_take_room(bytes, next, count - 1 + 2 * h.arg);
                } else if h.major == MAJOR_TAG {
                    lemma_items_take_room(bytes, next, count);
                } else {
                    lemma_items_take_room(bytes, next, count - 1);
                }
            },
        }
    }
}

pub open spec fn as_int(r: Option<usize>) -> Option<int> {
    match r {
        Some(n) => Some(n as int),
        None => None,
    }
}

/// Finds the place behind `count` data items in a row from `pos` on.
pub fn skip_items(bytes: &[u8], pos: usize, count: usize) -> (r: Option<usize>)
    requires
        pos <= bytes@.len(),
    ensures
        as_int(r) == items_end(bytes@, pos as int, count as int),
        r matches Some(end) ==> pos <= end <= bytes@.len(),
{
    let len = bytes.len();
    let mut at: usize = pos;
    let mut pending: usize = count;
    while pending > 0
        invariant
            len == bytes@.len(),
            pos <= at <= len,
            items_end(bytes@, pos as int, count as int) == items_end(
                bytes@,
                at as int,
                pending as int,
            ),
        decreases len - at,
    {
        let h = match read_head(bytes, at) {
            Some(h) => h,
            None => {
                return None;
            },
        };
        let next = at + h.len;
        let room = len - next;
        if h.major == MAJOR_BYTES || h.major == MAJOR_TEXT {
            if h.arg > room as u64 {
                return None;
            }
            at = next + h.arg as usize;
            pending = pending - 1;
        } else if h.major == MAJOR_ARRAY || h.major == MAJOR_MAP {
            let per: u128 = if h.major == MAJOR_ARRAY {
                1
            } else {
                2
            };
            let wanted: u128 = (pending - 1) as u128 + per * (h.arg as u128);
            if wanted > room as u128 {
                proof {
                    lemma_items_take_room(bytes@, next as int, wanted as int);
                }
                return None;
            }
            at = next;
            pending = wanted as usize;
        } else if h.major == MAJOR_TAG {
            at = next;
        } else {
            at = next;
            pending = pending - 1;
        }
    }
    Some(at)
}

/// The span of the bytes of the text string at `pos`, if a text string is
/// there and complete.
pub open spec fn text_at(bytes: Seq<u8>, pos: int) -> Option<(int, int)> {
    match head_at(bytes, pos) {
        Some(h) => if h.major == MAJOR_TEXT && pos + h.len + h.arg <= bytes.len() {
            Some((pos + h.len, pos + h.len + h.arg))
        } else {
            None
        },
        None => None,
    }
}

pub open spec fn span_view(r: Option<(usize, usize)>) -> Option<(int, int)> {
    match r {
        Some((a, b)) => Some((a as int, b as int)),
        None => None,
    }
}

/// Finds the bytes of the text string at `pos`.
pub fn read_text(bytes: &[u8], pos: usize) -> (r: Option<(usize, usize)>)
    ensures
        span_view(r) == text_at(bytes@, pos as int),
        r matches Some((from, to)) ==> from <= to <= bytes@.len(),
{
    let len = bytes.len();
    match read_head(bytes, pos) {
        Some(h) => {
            let start = pos + h.len;
            if h.major == MAJOR_TEXT && h.arg <= (len - start) as u64 {
                Some((start, start + h.arg as usize))
            } else {
                None
            }
        },
        None => None,
    }
}

/// The truth value at `pos`, if one is there.
pub open spec fn bool_at(bytes: Seq<u8>, pos: int) -> Option<bool> {
    if 0 <= pos < bytes.len() && bytes[pos] == 0xf5 {
        Some(true)
    } else if 0 <= pos < bytes.len() && bytes[pos] == 0xf4 {
        Some(false)
    } else {
        None
    }
}

pub fn read_bool(bytes: &[u8], pos: usize) -> (r: Option<bool>)
    ensures
        r == bool_at(bytes@, pos as int),
{
    if pos < bytes.len() && bytes[pos] == 0xf5 {
        Some(true)
    } else if pos < bytes.len() && bytes[pos] == 0xf4 {
        Some(false)
    } else {
        None
    }
}

/// Whether the item at `pos` is `null`.
pub open spec fn null_at(bytes: Seq<u8>, pos: int) -> bool {
    0 <= pos < bytes.len() && bytes[pos] == 0xf6
}

pub fn is_null(bytes: &[u8], pos: usize) -> (r: bool)
    ensures
        r == null_at(bytes@, pos as int),
{
    pos < bytes.len() && bytes[pos] == 0xf6
}

/// The integer at `pos`, if one is there that fits 32 bits with sign.
pub open spec fn i32_at(bytes: Seq<u8>, pos: int) -> Option<i32> {
    match head_at(bytes, pos) {
        Some(h) => if h.major == MAJOR_UNSIGNED && h.arg <= 0x7fff_ffff {
            Some(h.arg as i32)
        } else if h.major == MAJOR_NEGATIVE && h.arg <= 0x7fff_ffff {
            Some((-1 - h.arg) as i32)
        } else {
            None
        },
        None => None,
    }
}

pub fn read_i32(bytes: &[u8], pos: usize) -> (r: Option<i32>)
    ensures
        r == i32_at(bytes@, pos as int),
{
    match read_head(bytes, pos) {
        Some(h) => {
            if h.major == MAJOR_UNSIGNED && h.arg <= 0x7fff_ffff {
                Some(h.arg as i32)
            } else if h.major == MAJOR_NEGATIVE && h.arg <= 0x7fff_ffff {
                Some(-1 - (h.arg as i32))
            } else {
                None
            }
        },
        None => None,
    }
}

/// The place of the first item and the number of items of the array or map
/// at `pos`, if one of the major type asked for is there.
pub open spec fn collection_at(bytes: Seq<u8>, pos: int, major: u8) -> Option<(int, int)> {
    match head_at(bytes, pos) {
        Some(h) => if h.major == major {
            Some((pos + h.len, h.arg as int))
        } else {
            None
        },
        None => None,
    }
}

pub open spec fn collection_view(r: Option<(usize, u64)>) -> Option<(int, int)> {
    match r {
        Some((a, b)) => Some((a as int, b as int)),
        None => None,
    }
}

pub fn read_collection(bytes: &[u8], pos: usize, major: u8) -> (r: Option<(usize, u64)>)
    ensures
        collection_view(r) == collection_at(bytes@, pos as int, major),
        r matches Some((first, _)) ==> first <= bytes@.len(),
{
    let len = bytes.len();
    match read_head(bytes, pos) {
        Some(h) => {
            if h.major == major {
                Some((pos + h.len, h.arg))
            } else {
                None
            }
        },
        None => None,
    }
}

/// What looking for a key among the pairs of a map comes to.
pub enum Lookup {
    /// The value of the first pair with the key begins here.
    Found(usize),
    /// No pair has the key.
    Missing,
    /// The pairs are not all there.
    Malformed,
}

/// Looks for a text key among `pairs` pairs of a map, the first of which
/// begins at `pos`. The first pair with the key counts. The pairs before it
/// must be complete items, and so must its key.
pub open spec fn lookup(bytes: Seq<u8>, pos: int, pairs: int, key: Seq<u8>) -> Lookup
    decreases pairs,
{
    if pairs <= 0 {
        Lookup::Missing
    } else {
        match items_end(bytes, pos, 1) {
            None => Lookup::Malformed,
            Some(value) => {
                if text_at(bytes, pos) matches Some((from, to)) && bytes.subrange(from, to)
                    == key {
                    if 0 <= value <= bytes.len() {
                        Lookup::Found(value as usize)
                    } else {
                        Lookup::Malformed
                    }
                } else {
                    match items_end(bytes, value, 1) {
                        None => Lookup::Malformed,
                        Some(next) => lookup(bytes, next, pairs - 1, key),
                    }
                }
            },
        }
    }
}

fn same_bytes(bytes: &[u8], from: usize, to: usize, key: &[u8]) -> (r: bool)
    requires
        from <= to <= bytes@.len(),
    ensures
        r == (bytes@.subrange(from as int, to as int) == key@),
{
    if to - from != key.len() {
        return false;
    }
    let part = vstd::slice::slice_subrange(bytes, from, to);
    let r = crate::bytes::starts_with(part, key);
    assert(part@.subrange(0, key@.len() as int) =~= part@);
    r
}

/// Looks for a text key among the pairs of a map.
pub fn find(bytes: &[u8], pos: usize, pairs: u64, key: &[u8]) -> (r: Lookup)
    requires
        pos <= bytes@.len(),
    ensures
        r == lookup(bytes@, pos as int, pairs as int, key@),
        r matches Lookup::Found(value) ==> value <= bytes@.len(),
{
    let mut at: usize = pos;
    let mut left: u64 = pairs;
    while left > 0
        invariant
            at <= bytes@.len(),
            lookup(bytes@, pos as int, pairs as int, key@) == lookup(
                bytes@,
                at as int,
                left as int,
                key@,
            ),
        decreases left,
    {
        let value = match skip_items(bytes, at, 1) {
            Some(value) => value,
            None => {
                return Lookup::Malformed;
            },
        };
        let is_key = match read_text(bytes, at) {
            Some((from, to)) => same_bytes(bytes, from, to, key),
            None => false,
        };
        if is_key {
            return Lookup::Found(value);
        }
        let next = match skip_items(bytes, value, 1) {
            Some(next) => next,
            None => {
                return Lookup::Malformed;
            },
        };
        at = next;
        left = left - 1;
    }
    Lookup::Missing
}

/// The head of an item of a major type with an argument, in the shortest
/// form.
pub open spec fn head(major: u8, arg: u64) -> Seq<u8> {
    if arg < 24 {
        seq![(major * 32 + arg) as u8]
    } else if arg < 0x100 {
        seq![(major * 32 + 24) as u8, arg as u8]
    } else if arg < 0x1_0000 {
        seq![(major * 32 + 25) as u8] + be16(arg as int)
    } else if arg <= 0xffff_ffff {
        seq![(major * 32 + 26) as u8] + be32(arg as u32)
    } else {
        seq![(major * 32 + 27) as u8] + be64(arg)
    }
}

/// A text string.
pub open spec fn text(content: Seq<u8>) -> Seq<u8> {
    head(MAJOR_TEXT, content.len() as u64) + content
}

/// The unsigned integers one after another.
pub open spec fn uints(numbers: Seq<u32>) -> Seq<u8>
    decreases numbers.len(),
{
    if numbers.len() == 0 {
        Seq::<u8>::empty()
    } else {
        uints(numbers.drop_last()) + head(MAJOR_UNSIGNED, numbers.last() as u64)
    }
}

/// An array of unsigned integers.
pub open spec fn uint_array(numbers: Seq<u32>) -> Seq<u8> {
    head(MAJOR_ARRAY, numbers.len() as u64) + uints(numbers)
}

proof fn lemma_be32_digits(n: u32)
    ensures
        be32(n)[0] as int * 0x100_0000 + be32(n)[1] as int * 0x1_0000 + be32(n)[2] as int * 0x100
            + be32(n)[3] as int == n,
{
    assert((n / 0x100_0000) * 0x100_0000 + ((n / 0x1_0000) % 256) * 0x1_0000 + ((n / 0x100) % 256)
        * 0x100 + n % 256 == n) by (bit_vector);
    assert(n / 0x100_0000 < 256) by (bit_vector);
}

proof fn lemma_first_byte(major: u8, info: u8)
    requires
        major < 8,
        info < 32,
    ensures
        ((major * 32 + info) as u8) / 32 == major,
        ((major * 32 + info) as u8) % 32 == info,
{
}

proof fn lemma_head_of_one_byte(major: u8, arg: u64, rest: Seq<u8>)
    requires
        major < 8,
        24 <= arg < 0x100,
    ensures
        head_at(head(major, arg) + rest, 0) matches Some(h) && h.major == major && h.arg == arg
            && h.len == 2,
{
    let bytes = head(major, arg) + rest;
    lemma_first_byte(major, 24);
    assert(bytes[0] == (major * 32 + 24) as u8);
    assert(bytes[1] == arg as u8);
}

proof fn lemma_head_of_two_bytes(major: u8, arg: u64, rest: Seq<u8>)
    requires
        major < 8,
        0x100 <= arg < 0x1_0000,
    ensures
        head_at(head(major, arg) + rest, 0) matches Some(h) && h.major == major && h.arg == arg
            && h.len == 3,
{
    let bytes = head(major, arg) + rest;
    lemma_first_byte(major, 25);
    assert(bytes[0] == (major * 32 + 25) as u8);
    assert(bytes[1] == be16(arg as int)[0]);
    assert(bytes[2] == be16(arg as int)[1]);
}

proof fn lemma_head_of_four_bytes(major: u8, arg: u64, rest: Seq<u8>)
    requires
        major < 8,
        0x1_0000 <= arg <= 0xffff_ffff,
    ensures
        head_at(head(major, arg) + rest, 0) matches Some(h) && h.major == major && h.arg == arg
            && h.len == 5,
{
    let bytes = head(major, arg) + rest;
    let b = be32(arg as u32);
    lemma_first_byte(major, 26);
    lemma_be32_digits(arg as u32);
    assert(bytes[0] == (major * 32 + 26) as u8);
    assert(bytes[1] == b[0] && bytes[2] == b[1] && bytes[3] == b[2] && bytes[4] == b[3]);
}

proof fn lemma_head_of_eight_bytes(major: u8, arg: u64, rest: Seq<u8>)
    requires
        major < 8,
        0xffff_ffff < arg,
    ensures
        head_at(head(major, arg) + rest, 0) matches Some(h) && h.major == major && h.arg == arg
            && h.len == 9,
{
    let bytes = head(major, arg) + rest;
    let hi = (arg / 0x1_0000_0000) as u32;
    let lo = (arg % 0x1_0000_0000) as u32;
    let h = be32(hi);
    let l = be32(lo);
    lemma_first_byte(major, 27);
    lemma_be32_digits(hi);
    lemma_be32_digits(lo);
    assert(be64(arg) =~= h + l);
    assert(bytes[0] == (major * 32 + 27) as u8);
    assert(bytes[1] == h[0] && bytes[2] == h[1] && bytes[3] == h[2] && bytes[4] == h[3]);
    assert(bytes[5] == l[0] && bytes[6] == l[1] && bytes[7] == l[2] && bytes[8] == l[3]);
    let high = h[0] as int * 0x100_0000 + h[1] as int * 0x1_0000 + h[2] as int * 0x100
        + h[3] as int;
    let low = l[0] as int * 0x100_0000 + l[1] as int * 0x1_0000 + l[2] as int * 0x100
        + l[3] as int;
    assert(be_value(bytes, 1, 8) == high * 0x1_0000_0000 + low);
    assert(high * 0x1_0000_0000 + low == arg);
}

/// A head in the shortest form is read back as it was written: the major
/// type, the argument, and as many bytes as were written.
pub proof fn lemma_head_read_back(major: u8, arg: u64, rest: Seq<u8>)
    requires
        major < 8,
    ensures
        head_at(head(major, arg) + rest, 0) matches Some(h) && h.major == major && h.arg == arg
            && h.len == head(major, arg).len(),
{
    if arg < 24 {
        let bytes = head(major, arg) + rest;
        lemma_first_byte(major, arg as u8);
        assert(bytes[0] == (major * 32 + arg) as u8);
    } else if arg < 0x100 {
        lemma_head_of_one_byte(major, arg, rest);
    } else if arg < 0x1_0000 {
        lemma_head_of_two_bytes(major, arg, rest);
    } else if arg <= 0xffff_ffff {
        lemma_head_of_four_bytes(major, arg, rest);
    } else {
        lemma_head_of_eight_bytes(major, arg, rest);
    }
}

/// A text string is read back as it was written: it is one complete item,
/// and its bytes are the content.
pub proof fn lemma_text_read_back(content: Seq<u8>, rest: Seq<u8>)
    requires
        content.len() <= u64::MAX,
    ensures
        ({
            let bytes = text(content) + rest;
            let start = head(MAJOR_TEXT, content.len() as u64).len() as int;
            &&& text_at(bytes, 0) == Some((start, start + content.len()))
            &&& bytes.subrange(start, start + content.len()) == content
            &&& items_end(bytes, 0, 1) == Some(start + content.len())
        }),
{
    let written = head(MAJOR_TEXT, content.len() as u64);
    let bytes = text(content) + rest;
    let start = written.len() as int;
    assert(bytes =~= written + (content + rest));
    lemma_head_read_back(MAJOR_TEXT, content.len() as u64, content + rest);
    assert(bytes.subrange(start, start + content.len()) =~= content);
    assert(items_end(bytes, start + content.len(), 0) == Some(start + content.len()));
}

/// A place moved on by an offset, where there is one.
pub open spec fn moved(place: Option<int>, offset: int) -> Option<int> {
    match place {
        Some(p) => Some(p + offset),
        None => None,
    }
}

/// A head does not depend on what follows the bytes that it takes.
pub proof fn lemma_head_within(bytes: Seq<u8>, more: Seq<u8>, pos: int)
    ensures
        head_at(bytes, pos) matches Some(h) ==> head_at(bytes + more, pos) == Some(h),
{
    if head_at(bytes, pos) is Some {
        let all = bytes + more;
        assert(all[pos] == bytes[pos]);
        let info = bytes[pos] % 32;
        if info >= 24 {
            assert(all[pos + 1] == bytes[pos + 1]);
        }
        if info >= 25 {
            assert(all[pos + 2] == bytes[pos + 2]);
        }
        if info >= 26 {
            assert(all[pos + 3] == bytes[pos + 3]);
            assert(all[pos + 4] == bytes[pos + 4]);
        }
        if info >= 27 {
            assert(all[pos + 5] == bytes[pos + 5]);
            assert(all[pos + 6] == bytes[pos + 6]);
            assert(all[pos + 7] == bytes[pos + 7]);
            assert(all[pos + 8] == bytes[pos + 8]);
        }
    }
}

/// A head does not depend on what stands before the place where it begins.
pub proof fn lemma_head_behind(before: Seq<u8>, bytes: Seq<u8>, pos: int)
    requires
        0 <= pos,
    ensures
        match head_at(bytes, pos) {
            Some(h) => head_at(before + bytes, before.len() + pos) == Some(h),
            None => head_at(before + bytes, before.len() + pos) is None,
        },
{
    let all = before + bytes;
    let at = before.len() + pos;
    if pos < bytes.len() {
        assert(all[at] == bytes[pos]);
        let info = bytes[pos] % 32;
        if 24 <= info <= 27 && pos + 1 + arg_len(info as int) <= bytes.len() {
            assert(all[at + 1] == bytes[pos + 1]);
            if info >= 25 {
                assert(all[at + 2] == bytes[pos + 2]);
            }
            if info >= 26 {
                assert(all[at + 3] == bytes[pos + 3]);
                assert(all[at + 4] == bytes[pos + 4]);
            }
            if info >= 27 {
                assert(all[at + 5] == bytes[pos + 5]);
                assert(all[at + 6] == bytes[pos + 6]);
                assert(all[at + 7] == bytes[pos + 7]);
                assert(all[at + 8] == bytes[pos + 8]);
            }
        }
    }
}

/// Items that are complete stay so, and end where they ended, when more
/// bytes follow.
pub proof fn lemma_items_within(bytes: Seq<u8>, more: Seq<u8>, pos: int, count: int)
    requires
        0 <= pos,
    ensures
        items_end(bytes, pos, count) matches Some(end) ==> items_end(bytes + more, pos, count)
            == Some(end),
    decreases bytes.len() - pos,
{
    if count > 0 {
        lemma_head_within(bytes, more, pos);
        match head_at(bytes, pos) {
            None => {},
            Some(h) => {
                let next = pos + h.len;
                if h.major == MAJOR_BYTES || h.major == MAJOR_TEXT {
                    if next + h.arg <= bytes.len() {
                        lemma_items_within(bytes, more, next + h.arg, count - 1);
                    }
                } else if h.major == MAJOR_ARRAY {
                    lemma_items_within(bytes, more, next, count - 1 + h.arg);
                } else if h.major == MAJOR_MAP {
                    lemma_items_within(bytes, more, next, count - 1 + 2 * h.arg);
                } else if h.major == MAJOR_TAG {
                    lemma_items_within(bytes, more, next, count);
                } else {
                    lemma_items_within(bytes, more, next, count - 1);
                }
            },
        }
    }
}

/// Items end the same number of bytes behind their beginning, whatever
/// stands before it.
pub proof fn lemma_items_behind(before: Seq<u8>, bytes: Seq<u8>, pos: int, count: int)
    requires
        0 <= pos,
    ensures
        items_end(before + bytes, before.len() + pos, count) == moved(
            items_end(bytes, pos, count),
            before.len() as int,
        ),
    decreases bytes.len() - pos,
{
    if count > 0 {
        lemma_head_behind(before, bytes, pos);
        match head_at(bytes, pos) {
            None => {},
            Some(h) => {
                let next = pos + h.len;
                if h.major == MAJOR_BYTES || h.major == MAJOR_TEXT {
                    if next + h.arg <= bytes.len() {
                        lemma_items_behind(before, bytes, next + h.arg, count - 1);
                    }
                } else if h.major == MAJOR_ARRAY {
                    lemma_items_behind(before, bytes, next, count - 1 + h.arg);
                } else if h.major == MAJOR_MAP {
                    lemma_items_behind(before, bytes, next, count - 1 + 2 * h.arg);
                } else if h.major == MAJOR_TAG {
                    lemma_items_behind(before, bytes, next, count);
                } else {
                    lemma_items_behind(before, bytes, next, count - 1);
                }
            },
        }
    }
}

/// Items in a row can be counted in two parts: the second part begins
/// where the first ends.
pub proof fn lemma_items_in_parts(bytes: Seq<u8>, pos: int, first: int, second: int)
    requires
        0 <= first,
        0 <= second,
    ensures
        items_end(bytes, pos, first + second) == match items_end(bytes, pos, first) {
            Some(middle) => items_end(bytes, middle, second),
            None => None,
        },
    decreases bytes.len() - pos,
{
    if first > 0 {
        match head_at(bytes, pos) {
            None => {},
            Some(h) => {
                let next = pos + h.len;
                if h.major == MAJOR_BYTES || h.major == MAJOR_TEXT {
                    if next + h.arg <= bytes.len() {
                        lemma_items_in_parts(bytes, next + h.arg, first - 1, second);
                    }
                } else if h.major == MAJOR_ARRAY {
                    lemma_items_in_parts(bytes, next, first - 1 + h.arg, second);
                } else if h.major == MAJOR_MAP {
                    lemma_items_in_parts(bytes, next, first - 1 + 2 * h.arg, second);
                } else if h.major == MAJOR_TAG {
                    lemma_items_in_parts(bytes, next, first, second);
                } else {
                    lemma_items_in_parts(bytes, next, first - 1, second);
                }
            },
        }
    }
}

/// Whether a byte string is exactly this many complete items in a row.
pub open spec fn is_items(bytes: Seq<u8>, count: int) -> bool {
    items_end(bytes, 0, count) == Some(bytes.len() as int)
}

/// Items followed by items are items: the counts add up.
pub proof fn lemma_items_joined(a: Seq<u8>, m: int, b: Seq<u8>, n: int)
    requires
        0 <= m,
        0 <= n,
        is_items(a, m),
        is_items(b, n),
    ensures
        is_items(a + b, m + n),
{
    lemma_items_within(a, b, 0, m);
    lemma_items_behind(a, b, 0, n);
    lemma_items_in_parts(a + b, 0, m, n);
}

/// A head of an array or a map, followed by the items that it announces, is
/// one item.
pub proof fn lemma_collection_is_an_item(major: u8, count: u64, items: Seq<u8>)
    requires
        major == MAJOR_ARRAY || major == MAJOR_MAP,
        is_items(
            items,
            if major == MAJOR_ARRAY {
                count as int
            } else {
                2 * count
            },
        ),
    ensures
        is_items(head(major, count) + items, 1),
{
    let written = head(major, count);
    lemma_head_read_back(major, count, items);
    let inside = if major == MAJOR_ARRAY {
        count as int
    } else {
        2 * count
    };
    lemma_items_behind(written, items, 0, inside);
}

/// A text string is one item.
pub proof fn lemma_text_is_an_item(content: Seq<u8>)
    requires
        content.len() <= u64::MAX,
    ensures
        is_items(text(content), 1),
{
    lemma_text_read_back(content, Seq::<u8>::empty());
    assert(text(content) + Seq::<u8>::empty() =~= text(content));
}

/// Unsigned integers in a row are as many items.
pub proof fn lemma_uints_are_items(numbers: Seq<u32>)
    ensures
        is_items(uints(numbers), numbers.len() as int),
    decreases numbers.len(),
{
    if numbers.len() > 0 {
        lemma_uints_are_items(numbers.drop_last());
        let last = head(MAJOR_UNSIGNED, numbers.last() as u64);
        lemma_head_read_back(MAJOR_UNSIGNED, numbers.last() as u64, Seq::<u8>::empty());
        assert(last + Seq::<u8>::empty() =~= last);
        assert(items_end(last, last.len() as int, 0) == Some(last.len() as int));
        assert(is_items(last, 1));
        lemma_items_joined(uints(numbers.drop_last()), numbers.len() - 1, last, 1);
    }
}

/// An array of unsigned integers is one item.
pub proof fn lemma_uint_array_is_an_item(numbers: Seq<u32>)
    requires
        numbers.len() <= u64::MAX,
    ensures
        is_items(uint_array(numbers), 1),
{
    lemma_uints_are_items(numbers);
    lemma_collection_is_an_item(MAJOR_ARRAY, numbers.len() as u64, uints(numbers));
}

/// Appends the head of an item.
pub fn push_head(out: &mut Vec<u8>, major: u8, arg: u64)
    requires
        major < 8,
    ensures
        final(out)@ == old(out)@ + head(major, arg),
{
    let base: u8 = major * 32;
    if arg < 24 {
        out.push(base + arg as u8);
    } else if arg < 0x100 {
        out.push(base + 24);
        out.push(arg as u8);
    } else if arg < 0x1_0000 {
        out.push(base + 25);
        crate::bytes::push_be16(out, arg as usize);
    } else if arg <= 0xffff_ffff {
        out.push(base + 26);
        crate::bytes::push_be32(out, arg as u32);
    } else {
        out.push(base + 27);
        crate::bytes::push_be64(out, arg);
    }
    assert(out@ =~= old(out)@ + head(major, arg));
}

/// Appends a text string.
pub fn push_text(out: &mut Vec<u8>, content: &[u8])
    ensures
        final(out)@ == old(out)@ + text(content@),
{
    push_head(out, MAJOR_TEXT, content.len() as u64);
    out.extend_from_slice(content);
    assert(out@ =~= old(out)@ + text(content@));
}

/// Appends an array of unsigned integers.
pub fn push_uint_array(out: &mut Vec<u8>, numbers: &[u32])
    ensures
        final(out)@ == old(out)@ + uint_array(numbers@),
{
    push_head(out, MAJOR_ARRAY, numbers.len() as u64);
    let ghost start = out@;
    let mut i: usize = 0;
    assert(out@ =~= start + uints(numbers@.take(0)));
    while i < numbers.len()
        invariant
            i <= numbers@.len(),
            out@ == start + uints(numbers@.take(i as int)),
        decreases numbers@.len() - i,
    {
        push_head(out, MAJOR_UNSIGNED, numbers[i] as u64);
        i = i + 1;
        assert(numbers@.take(i as int).drop_last() =~= numbers@.take(i - 1));
        assert(out@ =~= start + uints(numbers@.take(i as int)));
    }
    assert(numbers@.take(i as int) =~= numbers@);
    assert(out@ =~= old(out)@ + uint_array(numbers@));
}

} // verus!
