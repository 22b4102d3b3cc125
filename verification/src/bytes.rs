//! Byte-slice primitives shared by all signature matchers: anchored
//! comparisons, substring search, and endian-aware field reads.

use byteorder::ByteOrder;
use vstd::prelude::*;

verus! {

/// The signature `sig` occurs in `c` exactly at offset `off`.
pub open spec fn sub_at(c: Seq<u8>, off: int, sig: Seq<u8>) -> bool {
    0 <= off && off + sig.len() <= c.len() && c.subrange(off, off + sig.len()) == sig
}

/// The signature `sig` is a prefix of `c`.
pub open spec fn has_prefix(c: Seq<u8>, sig: Seq<u8>) -> bool {
    sub_at(c, 0, sig)
}

/// Least offset `j >= i` at which `sub` occurs in `c`, or -1 when there is none.
pub open spec fn find_from(c: Seq<u8>, sub: Seq<u8>, i: int) -> int
    decreases c.len() - i when 0 <= i
{
    if sub.len() == 0 {
        i
    } else if i + sub.len() > c.len() {
        -1
    } else if c.subrange(i, i + sub.len()) == sub {
        i
    } else {
        find_from(c, sub, i + 1)
    }
}

/// What `find_from` reports: a found offset carries a match, with no earlier
/// one, and -1 means no match at or after `i`.
pub proof fn lemma_find_from_bounds(c: Seq<u8>, sub: Seq<u8>, i: int)
    requires
        0 <= i,
        sub.len() > 0,
    ensures
        ({
            let r = find_from(c, sub, i);
            &&& r == -1 || r >= i
            &&& r >= 0 ==> sub_at(c, r, sub) && r + sub.len() <= c.len()
            &&& r >= 0 ==> forall|j: int| i <= j < r ==> !sub_at(c, j, sub)
            &&& r == -1 ==> forall|j: int| i <= j ==> !sub_at(c, j, sub)
        }),
    decreases c.len() - i,
{
    if i + sub.len() > c.len() {
        assert forall|j: int| i <= j implies !sub_at(c, j, sub) by {
            assert(j + sub.len() > c.len());
        }
    } else if c.subrange(i, i + sub.len()) == sub {
    } else {
        lemma_find_from_bounds(c, sub, i + 1);
        assert(!sub_at(c, i, sub));
    }
}

/// Little-endian 16-bit value of the two bytes of `c` at `i`.
pub open spec fn le16(c: Seq<u8>, i: int) -> int {
    c[i] + 0x100 * c[i + 1]
}

/// Little-endian 32-bit value of the four bytes of `c` at `i`.
pub open spec fn le32(c: Seq<u8>, i: int) -> int {
    c[i] + 0x100 * c[i + 1] + 0x1_0000 * c[i + 2] + 0x100_0000 * c[i + 3]
}

/// Big-endian 16-bit value of the two bytes of `c` at `i`.
pub open spec fn be16(c: Seq<u8>, i: int) -> int {
    0x100 * c[i] + c[i + 1]
}

/// Big-endian 32-bit value of the four bytes of `c` at `i`.
pub open spec fn be32(c: Seq<u8>, i: int) -> int {
    0x100_0000 * c[i] + 0x1_0000 * c[i + 1] + 0x100 * c[i + 2] + c[i + 3]
}

/// True iff `sig` occurs in `c` at offset `off`.
pub fn starts_with_at(c: &[u8], off: usize, sig: &[u8]) -> (r: bool)
    ensures
        r == sub_at(c@, off as int, sig@),
{
    if sig.len() > c.len() || off > c.len() - sig.len() {
        assert(!sub_at(c@, off as int, sig@));
        return false;
    }
    let mut i: usize = 0;
    while i < sig.len()
        invariant
            off + sig.len() <= c.len(),
            i <= sig.len(),
            forall|j: int| 0 <= j < i ==> c@[off + j] == sig@[j],
        decreases sig.len() - i,
    {
        if c[off + i] != sig[i] {
            assert(c@.subrange(off as int, off + sig@.len())[i as int] != sig@[i as int]);
            return false;
        }
        i += 1;
    }
    assert(c@.subrange(off as int, off + sig@.len()) =~= sig@);
    true
}

/// First offset at which `sub` occurs in `c`, scanning forward from 0.
pub fn find_sub(c: &[u8], sub: &[u8]) -> (r: Option<usize>)
    ensures
        match r {
            Some(i) => find_from(c@, sub@, 0) == i as int,
            None => find_from(c@, sub@, 0) == -1,
        },
{
    if sub.len() == 0 {
        assert(c@.subrange(0, 0) =~= sub@);
        return Some(0);
    }
    if sub.len() > c.len() {
        return None;
    }
    let mut i: usize = 0;
    while i <= c.len() - sub.len()
        invariant
            1 <= sub.len() <= c.len(),
            i <= c.len() - sub.len() + 1,
            find_from(c@, sub@, 0) == find_from(c@, sub@, i as int),
        decreases c.len() - i,
    {
        if starts_with_at(c, i, sub) {
            return Some(i);
        }
        proof {
            assert(c@.subrange(i as int, i + sub@.len()) != sub@);
            assert(find_from(c@, sub@, i as int) == find_from(c@, sub@, i as int + 1));
        }
        i += 1;
    }
    None
}

/// Relies on byteorder::LittleEndian::read_u16: the little-endian value of the
/// first two bytes; it panics on a shorter slice, which `requires` rules out.
#[verifier::external_body]
pub fn read_le_u16(b: &[u8]) -> (r: u16)
    requires
        b@.len() >= 2,
    ensures
        r as int == le16(b@, 0),
{
    byteorder::LittleEndian::read_u16(b)
}

/// Relies on byteorder::LittleEndian::read_u32: the little-endian value of the
/// first four bytes; it panics on a shorter slice, which `requires` rules out.
#[verifier::external_body]
pub fn read_le_u32(b: &[u8]) -> (r: u32)
    requires
        b@.len() >= 4,
    ensures
        r as int == le32(b@, 0),
{
    byteorder::LittleEndian::read_u32(b)
}

/// Relies on byteorder::BigEndian::read_u16: the big-endian value of the
/// first two bytes; it panics on a shorter slice, which `requires` rules out.
#[verifier::external_body]
pub fn read_be_u16(b: &[u8]) -> (r: u16)
    requires
        b@.len() >= 2,
    ensures
        r as int == be16(b@, 0),
{
    byteorder::BigEndian::read_u16(b)
}

/// Relies on byteorder::BigEndian::read_u32: the big-endian value of the
/// first four bytes; it panics on a shorter slice, which `requires` rules out.
#[verifier::external_body]
pub fn read_be_u32(b: &[u8]) -> (r: u32)
    requires
        b@.len() >= 4,
    ensures
        r as int == be32(b@, 0),
{
    byteorder::BigEndian::read_u32(b)
}

/// The little-endian 16-bit field of `content` at `off`.
pub fn read_le_u16_at(content: &[u8], off: usize) -> (r: u16)
    requires
        off + 2 <= content@.len(),
    ensures
        r as int == le16(content@, off as int),
{
    let n = content.len();
    let s = vstd::slice::slice_subrange(content, off, off + 2);
    proof {
        assert(content@.subrange(off as int, off + 2)[0] == content@[off as int]);
        assert(content@.subrange(off as int, off + 2)[1] == content@[off + 1]);
    }
    read_le_u16(s)
}

/// The little-endian 32-bit field of `content` at `off`.
pub fn read_le_u32_at(content: &[u8], off: usize) -> (r: u32)
    requires
        off + 4 <= content@.len(),
    ensures
        r as int == le32(content@, off as int),
{
    let n = content.len();
    let s = vstd::slice::slice_subrange(content, off, off + 4);
    proof {
        assert(content@.subrange(off as int, off + 4)[0] == content@[off as int]);
        assert(content@.subrange(off as int, off + 4)[1] == content@[off + 1]);
        assert(content@.subrange(off as int, off + 4)[2] == content@[off + 2]);
        assert(content@.subrange(off as int, off + 4)[3] == content@[off + 3]);
    }
    read_le_u32(s)
}

/// The big-endian 16-bit field of `content` at `off`.
pub fn read_be_u16_at(content: &[u8], off: usize) -> (r: u16)
    requires
        off + 2 <= content@.len(),
    ensures
        r as int == be16(content@, off as int),
{
    let n = content.len();
    let s = vstd::slice::slice_subrange(content, off, off + 2);
    proof {
        assert(content@.subrange(off as int, off + 2)[0] == content@[off as int]);
        assert(content@.subrange(off as int, off + 2)[1] == content@[off + 1]);
    }
    read_be_u16(s)
}

/// The big-endian 32-bit field of `content` at `off`.
pub fn read_be_u32_at(content: &[u8], off: usize) -> (r: u32)
    requires
        off + 4 <= content@.len(),
    ensures
        r as int == be32(content@, off as int),
{
    let n = content.len();
    let s = vstd::slice::slice_subrange(content, off, off + 4);
    proof {
        assert(content@.subrange(off as int, off + 4)[0] == content@[off as int]);
        assert(content@.subrange(off as int, off + 4)[1] == content@[off + 1]);
        assert(content@.subrange(off as int, off + 4)[2] == content@[off + 2]);
        assert(content@.subrange(off as int, off + 4)[3] == content@[off + 3]);
    }
    read_be_u32(s)
}

} // verus!
