//! Primitive signature matchers: stateless predicates over a byte slice
//! (exact prefix, anchored offset, case-folded prefix, markup tag, shebang
//! line, file-type box) and the whitespace utilities they share.

use vstd::prelude::*;

use crate::bytes::{find_from, find_sub, has_prefix, starts_with_at, sub_at};
use vstd::slice::slice_subrange;

verus! {

/// ASCII whitespace, as `u8::is_ascii_whitespace` defines it.
pub open spec fn is_ws(b: u8) -> bool {
    b == 0x20 || b == 0x09 || b == 0x0a || b == 0x0c || b == 0x0d
}

/// `c` with its leading ASCII whitespace removed.
pub open spec fn trimmed_left(c: Seq<u8>) -> Seq<u8>
    decreases c.len(),
{
    if c.len() > 0 && is_ws(c[0]) {
        trimmed_left(c.skip(1))
    } else {
        c
    }
}

/// `c` with its trailing ASCII whitespace removed.
pub open spec fn trimmed_right(c: Seq<u8>) -> Seq<u8>
    decreases c.len(),
{
    if c.len() > 0 && is_ws(c[c.len() - 1]) {
        trimmed_right(c.take(c.len() - 1))
    } else {
        c
    }
}

proof fn lemma_trimmed_left_step(c: Seq<u8>, i: int)
    requires
        0 <= i < c.len(),
        is_ws(c[i]),
    ensures
        trimmed_left(c.skip(i)) == trimmed_left(c.skip(i + 1)),
{
    assert(c.skip(i).skip(1) =~= c.skip(i + 1));
}

/// The slice of `content` past its leading ASCII whitespace.
pub fn trim_left_ws(content: &[u8]) -> (r: &[u8])
    ensures
        r@ == trimmed_left(content@),
{
    let mut i: usize = 0;
    assert(content@.skip(0) =~= content@);
    loop
        invariant
            i <= content@.len(),
            trimmed_left(content@) == trimmed_left(content@.skip(i as int)),
        ensures
            i <= content@.len(),
            trimmed_left(content@) == content@.skip(i as int),
        decreases content@.len() - i,
    {
        if i >= content.len() {
            assert(content@.skip(i as int) =~= Seq::<u8>::empty());
            break;
        }
        let b = content[i];
        if !(b == 0x20 || b == 0x09 || b == 0x0a || b == 0x0c || b == 0x0d) {
            assert(content@.skip(i as int)[0] == content@[i as int]);
            break;
        }
        proof {
            lemma_trimmed_left_step(content@, i as int);
        }
        i += 1;
    }
    slice_subrange(content, i, content.len())
}

proof fn lemma_trimmed_right_step(c: Seq<u8>, i: int)
    requires
        0 <= i < c.len(),
        is_ws(c[i]),
    ensures
        trimmed_right(c.take(i + 1)) == trimmed_right(c.take(i)),
{
    assert(c.take(i + 1).take(i) =~= c.take(i));
    assert(c.take(i + 1)[i] == c[i]);
}

/// The slice of `content` up to its trailing ASCII whitespace.
pub fn trim_right_ws(content: &[u8]) -> (r: &[u8])
    ensures
        r@ == trimmed_right(content@),
{
    let mut i: usize = content.len();
    assert(content@.take(content@.len() as int) =~= content@);
    loop
        invariant
            i <= content@.len(),
            trimmed_right(content@) == trimmed_right(content@.take(i as int)),
        ensures
            i <= content@.len(),
            trimmed_right(content@) == content@.take(i as int),
        decreases i,
    {
        if i == 0 {
            break;
        }
        let b = content[i - 1];
        if !(b == 0x20 || b == 0x09 || b == 0x0a || b == 0x0c || b == 0x0d) {
            assert(content@.take(i as int)[i - 1] == content@[i - 1]);
            break;
        }
        proof {
            lemma_trimmed_right_step(content@, i - 1);
        }
        i -= 1;
    }
    assert(content@.take(content@.len() as int) =~= content@);
    slice_subrange(content, 0, i)
}

/// The prefix of `c` up to (excluding) the first newline byte, or all of `c`
/// when it holds none.
pub open spec fn spec_first_line(c: Seq<u8>) -> Seq<u8> {
    let i = find_from(c, seq![0x0au8], 0);
    if i < 0 {
        c
    } else {
        c.take(i)
    }
}

/// The first line of `input`: everything before the first newline byte.
pub fn first_line(input: &[u8]) -> (r: &[u8])
    ensures
        r@ == spec_first_line(input@),
{
    let nl: Vec<u8> = vec![0x0a];
    assert(nl@ =~= seq![0x0au8]);
    match find_sub(input, nl.as_slice()) {
        Some(i) => {
            proof {
                crate::bytes::lemma_find_from_bounds(input@, seq![0x0au8], 0);
            }
            slice_subrange(input, 0, i)
        },
        None => {
            assert(input@.take(input@.len() as int) =~= input@);
            slice_subrange(input, 0, input.len())
        },
    }
}

/// True iff the two slices hold the same bytes.
pub fn bytes_eq(a: &[u8], b: &[u8]) -> (r: bool)
    ensures
        r == (a@ == b@),
{
    if a.len() != b.len() {
        return false;
    }
    let mut i: usize = 0;
    while i < a.len()
        invariant
            a@.len() == b@.len(),
            i <= a@.len(),
            forall|j: int| 0 <= j < i ==> a@[j] == b@[j],
        decreases a@.len() - i,
    {
        if a[i] != b[i] {
            return false;
        }
        i += 1;
    }
    assert(a@ =~= b@);
    true
}

/// The views of a list of byte vectors.
pub open spec fn seq_views(sigs: Seq<Vec<u8>>) -> Seq<Seq<u8>> {
    Seq::new(sigs.len(), |i: int| sigs[i]@)
}

/// Some signature of `sigs` is a prefix of `c`.
pub open spec fn spec_any_prefix(sigs: Seq<Seq<u8>>, c: Seq<u8>) -> bool {
    exists|k: int| 0 <= k < sigs.len() && has_prefix(c, sigs[k])
}

/// True iff any signature of `sigs` is a prefix of `content`.
pub fn prefix_detect(sigs: &Vec<Vec<u8>>, content: &[u8]) -> (r: bool)
    ensures
        r == spec_any_prefix(seq_views(sigs@), content@),
{
    let mut k: usize = 0;
    while k < sigs.len()
        invariant
            k <= sigs@.len(),
            forall|j: int| 0 <= j < k ==> !has_prefix(content@, #[trigger] seq_views(sigs@)[j]),
        decreases sigs@.len() - k,
    {
        if starts_with_at(content, 0, sigs[k].as_slice()) {
            assert(has_prefix(content@, seq_views(sigs@)[k as int]));
            return true;
        }
        k += 1;
    }
    false
}

/// The signature sits at a fixed offset, and the buffer extends past the
/// offset.
pub open spec fn spec_offset_matches(c: Seq<u8>, off: int, sig: Seq<u8>) -> bool {
    c.len() > off && sub_at(c, off, sig)
}

/// True iff `content` reaches past `offset` and holds `sig` there.
pub fn offset_detect(offset: usize, sig: &[u8], content: &[u8]) -> (r: bool)
    ensures
        r == spec_offset_matches(content@, offset as int, sig@),
{
    content.len() > offset && starts_with_at(content, offset, sig)
}

/// A signature passes the case-insensitive prefix comparison: wherever the
/// signature byte is an ASCII uppercase letter, the content byte is folded
/// to uppercase before comparing, so an uppercase signature matches content
/// of either case.  One byte of content beyond the signature is required.
pub open spec fn spec_ci_check(sig: Seq<u8>, c: Seq<u8>) -> bool {
    c.len() > sig.len() && (forall|j: int|
        0 <= j < sig.len() ==> markup_fold(sig[j], c[j]) == sig[j])
}

/// Compares `content` against `sig` case-insensitively: content bytes are
/// folded to uppercase with the mask `0xDF` wherever the signature byte is
/// an uppercase letter; one byte of content beyond the signature is
/// required.
pub fn ci_check(sig: &[u8], content: &[u8]) -> (r: bool)
    ensures
        r == spec_ci_check(sig@, content@),
{
    if content.len() <= sig.len() {
        return false;
    }
    let mut i: usize = 0;
    while i < sig.len()
        invariant
            content@.len() > sig@.len(),
            i <= sig@.len(),
            forall|j: int| 0 <= j < i ==> markup_fold(sig@[j], content@[j]) == sig@[j],
        decreases sig@.len() - i,
    {
        let b = sig[i];
        let mut db = content[i];
        if b >= 0x41 && b <= 0x5a {
            db = db & 0xdf;
        }
        if b != db {
            assert(markup_fold(sig@[i as int], content@[i as int]) != sig@[i as int]);
            return false;
        }
        i += 1;
    }
    true
}

/// Some signature of `sigs` passes the case-folded prefix comparison.
pub open spec fn spec_any_ci_prefix(sigs: Seq<Seq<u8>>, c: Seq<u8>) -> bool {
    exists|k: int| 0 <= k < sigs.len() && spec_ci_check(sigs[k], c)
}

/// True iff any signature of `sigs` passes the case-folded prefix comparison.
pub fn ci_prefix_detect(sigs: &Vec<Vec<u8>>, content: &[u8]) -> (r: bool)
    ensures
        r == spec_any_ci_prefix(seq_views(sigs@), content@),
{
    let mut k: usize = 0;
    while k < sigs.len()
        invariant
            k <= sigs@.len(),
            forall|j: int| 0 <= j < k ==> !spec_ci_check(#[trigger] seq_views(sigs@)[j], content@),
        decreases sigs@.len() - k,
    {
        if ci_check(sigs[k].as_slice(), content) {
            assert(spec_ci_check(seq_views(sigs@)[k as int], content@));
            return true;
        }
        k += 1;
    }
    false
}

/// The case-folded byte used by the markup comparison: when the signature
/// byte is an ASCII uppercase letter, the content byte is folded to uppercase
/// with the mask `0xDF`; otherwise it is taken as it is.
pub open spec fn markup_fold(sig_b: u8, content_b: u8) -> u8 {
    if 0x41 <= sig_b && sig_b <= 0x5a {
        content_b & 0xdf
    } else {
        content_b
    }
}

/// A markup tag signature matches: each content byte equals the signature
/// byte after folding, and the byte after the tag is a space or `>`.
pub open spec fn spec_mark_up_check(sig: Seq<u8>, c: Seq<u8>) -> bool {
    &&& c.len() > sig.len()
    &&& forall|j: int| 0 <= j < sig.len() ==> markup_fold(sig[j], c[j]) == sig[j]
    &&& (c[sig.len() as int] == 0x20 || c[sig.len() as int] == 0x3e)
}

/// Compares `content` against a markup tag signature, folding content bytes
/// to uppercase where the signature byte is uppercase, and requiring a space
/// or `>` right after the tag.
pub fn mark_up_check(sig: &[u8], content: &[u8]) -> (r: bool)
    ensures
        r == spec_mark_up_check(sig@, content@),
{
    if content.len() <= sig.len() {
        return false;
    }
    let mut i: usize = 0;
    while i < sig.len()
        invariant
            content@.len() > sig@.len(),
            i <= sig@.len(),
            forall|j: int| 0 <= j < i ==> markup_fold(sig@[j], content@[j]) == sig@[j],
        decreases sig@.len() - i,
    {
        let b = sig[i];
        let mut db = content[i];
        if b >= 0x41 && b <= 0x5a {
            db = db & 0xdf;
        }
        if b != db {
            assert(markup_fold(sig@[i as int], content@[i as int]) != sig@[i as int]);
            return false;
        }
        i += 1;
    }
    let db = content[sig.len()];
    if db != 0x20 && db != 0x3e {
        return false;
    }
    true
}

/// The markup detector first strips a UTF-8 byte-order mark if present, then
/// leading whitespace; a non-empty remainder must open with one of the tags.
pub open spec fn spec_markup_content(c: Seq<u8>) -> Seq<u8> {
    if has_prefix(c, seq![0xefu8, 0xbbu8, 0xbfu8]) {
        trimmed_left(c.skip(3))
    } else {
        trimmed_left(c)
    }
}

/// Some markup tag signature matches after BOM and whitespace stripping.
pub open spec fn spec_any_markup(sigs: Seq<Seq<u8>>, c: Seq<u8>) -> bool {
    let t = spec_markup_content(c);
    t.len() > 0 && exists|k: int| 0 <= k < sigs.len() && spec_mark_up_check(sigs[k], t)
}

/// True iff `content`, after BOM and whitespace stripping, opens with one of
/// the markup tag signatures.
pub fn markup_detect(sigs: &Vec<Vec<u8>>, content: &[u8]) -> (r: bool)
    ensures
        r == spec_any_markup(seq_views(sigs@), content@),
{
    let bom: Vec<u8> = vec![0xef, 0xbb, 0xbf];
    assert(bom@ =~= seq![0xefu8, 0xbbu8, 0xbfu8]);
    let rest: &[u8] = if starts_with_at(content, 0, bom.as_slice()) {
        trim_left_ws(slice_subrange(content, 3, content.len()))
    } else {
        trim_left_ws(content)
    };
    if rest.is_empty() {
        return false;
    }
    let mut k: usize = 0;
    while k < sigs.len()
        invariant
            rest@ == spec_markup_content(content@),
            rest@.len() > 0,
            k <= sigs@.len(),
            forall|j: int| 0 <= j < k ==> !spec_mark_up_check(#[trigger] seq_views(sigs@)[j], rest@),
        decreases sigs@.len() - k,
    {
        if mark_up_check(sigs[k].as_slice(), rest) {
            assert(spec_mark_up_check(seq_views(sigs@)[k as int], rest@));
            return true;
        }
        k += 1;
    }
    false
}

/// A shebang signature matches: the first line starts with `#!` and, after
/// trimming whitespace on both ends, the interpreter path equals `sig`.
pub open spec fn spec_shebang_check(sig: Seq<u8>, line: Seq<u8>) -> bool {
    &&& line.len() >= sig.len() + 2
    &&& line[0] == 0x23
    &&& line[1] == 0x21
    &&& trimmed_left(trimmed_right(line.skip(2))) == sig
}

/// Compares the line against one shebang interpreter signature.
pub fn shebang_check(sig: &[u8], content: &[u8]) -> (r: bool)
    ensures
        r == spec_shebang_check(sig@, content@),
{
    if content.len() < 2 || content.len() - 2 < sig.len() {
        return false;
    }
    if content[0] != 0x23 || content[1] != 0x21 {
        return false;
    }
    bytes_eq(trim_left_ws(trim_right_ws(slice_subrange(content, 2, content.len()))), sig)
}

/// Some shebang signature matches the first line of the content.
pub open spec fn spec_any_shebang(sigs: Seq<Seq<u8>>, c: Seq<u8>) -> bool {
    exists|k: int| 0 <= k < sigs.len() && spec_shebang_check(sigs[k], spec_first_line(c))
}

/// True iff the first line of `content` is a shebang line naming one of the
/// interpreters in `sigs`.
pub fn shebang_detect(sigs: &Vec<Vec<u8>>, content: &[u8]) -> (r: bool)
    ensures
        r == spec_any_shebang(seq_views(sigs@), content@),
{
    let line = first_line(content);
    let mut k: usize = 0;
    while k < sigs.len()
        invariant
            line@ == spec_first_line(content@),
            k <= sigs@.len(),
            forall|j: int|
                0 <= j < k ==> !spec_shebang_check(#[trigger] seq_views(sigs@)[j], line@),
        decreases sigs@.len() - k,
    {
        if shebang_check(sigs[k].as_slice(), line) {
            assert(spec_shebang_check(seq_views(sigs@)[k as int], line@));
            return true;
        }
        k += 1;
    }
    false
}

/// An ISO-BMFF `ftyp` box opens the buffer and its brand code is one of
/// `sigs`: bytes [4,8) read `ftyp` and bytes [8,12) equal a listed brand.
pub open spec fn spec_any_ftyp(sigs: Seq<Seq<u8>>, c: Seq<u8>) -> bool {
    &&& c.len() >= 12
    &&& sub_at(c, 4, seq![0x66u8, 0x74u8, 0x79u8, 0x70u8])  // "ftyp"
    &&& exists|k: int| 0 <= k < sigs.len() && c.subrange(8, 12) == sigs[k]
}

/// True iff the buffer opens with an `ftyp` box whose brand is one of `sigs`.
pub fn ftyp_detect(sigs: &Vec<Vec<u8>>, content: &[u8]) -> (r: bool)
    ensures
        r == spec_any_ftyp(seq_views(sigs@), content@),
{
    if content.len() < 12 {
        return false;
    }
    let ftyp: Vec<u8> = vec![0x66, 0x74, 0x79, 0x70];  // "ftyp"
    assert(ftyp@ =~= seq![0x66u8, 0x74u8, 0x79u8, 0x70u8]);  // "ftyp"
    if !starts_with_at(content, 4, ftyp.as_slice()) {
        return false;
    }
    let brand = slice_subrange(content, 8, 12);
    let mut k: usize = 0;
    while k < sigs.len()
        invariant
            brand@ == content@.subrange(8, 12),
            content@.len() >= 12,
            sub_at(content@, 4, seq![0x66u8, 0x74u8, 0x79u8, 0x70u8]),
            k <= sigs@.len(),
            forall|j: int| 0 <= j < k ==> content@.subrange(8, 12) != #[trigger] seq_views(sigs@)[j],
        decreases sigs@.len() - k,
    {
        if bytes_eq(brand, sigs[k].as_slice()) {
            assert(content@.subrange(8, 12) == seq_views(sigs@)[k as int]);
            return true;
        }
        k += 1;
    }
    false
}

/// A detector that accepts every buffer; it backs the root catalog entry, the
/// generic binary stream.
pub struct EmptyDetector;

impl EmptyDetector {
    /// Accepts any content whatever the sampling limit.
    pub fn detect(&self, _content: &[u8], _limit: usize) -> (r: bool)
        ensures
            r,
    {
        true
    }
}

/// An XML signature: an optional local tag name (stored with a leading `<`)
/// and an optional namespace string, both searched for in the first bytes of
/// a document.
pub struct XmlSig {
    /// The stored tag pattern: `<` followed by the local name, or empty.
    pub local_name: Vec<u8>,
    /// The stored namespace pattern.
    pub xmlns: Vec<u8>,
}

impl XmlSig {
    /// Builds the signature; a non-empty local name is prefixed with `<`.
    pub fn new(local_name: &[u8], xmlns: &[u8]) -> (r: Self)
        ensures
            r.xmlns@ == xmlns@,
            local_name@.len() == 0 ==> r.local_name@ == Seq::<u8>::empty(),
            local_name@.len() > 0 ==> r.local_name@ == seq![0x3cu8] + local_name@,
    {
        let mut ln: Vec<u8> = Vec::new();
        if local_name.len() > 0 {
            ln.push(0x3c);
            let mut i: usize = 0;
            while i < local_name.len()
                invariant
                    i <= local_name@.len(),
                    ln@ == seq![0x3cu8] + local_name@.take(i as int),
                decreases local_name@.len() - i,
            {
                ln.push(local_name[i]);
                assert(seq![0x3cu8] + local_name@.take(i + 1) =~= (seq![0x3cu8]
                    + local_name@.take(i as int)).push(local_name@[i as int]));
                i += 1;
            }
            assert(local_name@.take(local_name@.len() as int) =~= local_name@);
        }
        let mut xn: Vec<u8> = Vec::new();
        let mut i: usize = 0;
        while i < xmlns.len()
            invariant
                i <= xmlns@.len(),
                xn@ == xmlns@.take(i as int),
            decreases xmlns@.len() - i,
        {
            xn.push(xmlns[i]);
            assert(xmlns@.take(i + 1) =~= xmlns@.take(i as int).push(xmlns@[i as int]));
            i += 1;
        }
        assert(xmlns@.take(xmlns@.len() as int) =~= xmlns@);
        XmlSig { local_name: ln, xmlns: xn }
    }
}

/// The XML signature check over the first 512 bytes: whichever of the tag and
/// namespace patterns are present must be found, the tag not at offset 0, and
/// the tag before the namespace when both are given.
pub open spec fn spec_xml_check(local_name: Seq<u8>, xmlns: Seq<u8>, c: Seq<u8>) -> bool {
    let h = if c.len() < 512 {
        c
    } else {
        c.take(512)
    };
    if local_name.len() == 0 {
        find_from(h, xmlns, 0) > 0
    } else if xmlns.len() == 0 {
        find_from(h, local_name, 0) > 0
    } else {
        {
            let i = find_from(h, local_name, 0);
            let j = find_from(h, xmlns, 0);
            i >= 0 && j >= 0 && i < j
        }
    }
}

/// Checks one XML signature against the first 512 bytes of `content`.
pub fn xml_check(sig: &XmlSig, content: &[u8]) -> (r: bool)
    ensures
        r == spec_xml_check(sig.local_name@, sig.xmlns@, content@),
{
    let n = if content.len() < 512 {
        content.len()
    } else {
        512
    };
    let head = slice_subrange(content, 0, n);
    proof {
        if content@.len() >= 512 {
            assert(head@ =~= content@.take(512));
        } else {
            assert(head@ =~= content@);
        }
    }
    if sig.local_name.len() == 0 {
        return match find_sub(head, sig.xmlns.as_slice()) {
            Some(i) => i > 0,
            None => false,
        };
    }
    if sig.xmlns.len() == 0 {
        return match find_sub(head, sig.local_name.as_slice()) {
            Some(i) => i > 0,
            None => false,
        };
    }
    match find_sub(head, sig.local_name.as_slice()) {
        Some(i) => match find_sub(head, sig.xmlns.as_slice()) {
            Some(j) => i < j,
            None => false,
        },
        None => false,
    }
}



/// Specificity refinement for offset-anchored signatures: when a child's
/// signature extends its parent's signature at the same offset, content the
/// child matcher accepts is accepted by the parent matcher too.  This is the
/// catalog precondition behind nesting a more specific format under a more
/// general one.
pub proof fn lemma_offset_refinement(c: Seq<u8>, off: int, sig1: Seq<u8>, sig2: Seq<u8>)
    requires
        sig1.len() <= sig2.len(),
        sig2.subrange(0, sig1.len() as int) == sig1,
        spec_offset_matches(c, off, sig2),
    ensures
        spec_offset_matches(c, off, sig1),
{
    assert(c.subrange(off, off + sig1.len()) =~= sig2.subrange(0, sig1.len() as int));
}

} // verus!
