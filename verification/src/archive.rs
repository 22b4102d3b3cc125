//! Container and archive parsers: the ZIP local-header tokenizer and the
//! formats built on it, the tar header checksum and octal fields, and the
//! OLE compound-file root-CLSID resolver with its document formats.

use vstd::prelude::*;

use crate::base::seq_views;
use crate::bytes::{
    find_from, find_sub, has_prefix, le16, le32, lemma_find_from_bounds, read_le_u16, read_le_u32,
    starts_with_at, sub_at,
};
use vstd::slice::slice_subrange;

verus! {

/// The ZIP local-file-header signature `PK\x03\x04`.
pub open spec fn pk_sig() -> Seq<u8> {
    seq![0x50u8, 0x4bu8, 0x03u8, 0x04u8]
}

/// `find_from` returns `m` when a match sits at `m` and none sits earlier.
pub proof fn lemma_find_from_unique(c: Seq<u8>, sub: Seq<u8>, i: int, m: int)
    requires
        0 <= i <= m,
        sub.len() > 0,
        sub_at(c, m, sub),
        forall|j: int| i <= j < m ==> !sub_at(c, j, sub),
    ensures
        find_from(c, sub, i) == m,
{
    lemma_find_from_bounds(c, sub, i);
}

/// A match inside the suffix `c.skip(idx)` is a match in `c`, shifted.
pub proof fn lemma_sub_at_skip(c: Seq<u8>, idx: int, j: int, sub: Seq<u8>)
    requires
        0 <= idx <= c.len(),
        0 <= j,
    ensures
        sub_at(c.skip(idx), j, sub) == sub_at(c, idx + j, sub),
{
    if j + sub.len() <= c.skip(idx).len() {
        assert(c.skip(idx).subrange(j, j + sub.len()) =~= c.subrange(idx + j, idx + j + sub.len()));
    }
}

/// Some candidate path is a prefix of the file name of length `nlen` sitting
/// at `name_off`.
pub open spec fn spec_token_matches(c: Seq<u8>, name_off: int, nlen: int, paths: Seq<Seq<u8>>) -> bool {
    exists|k: int| 0 <= k < paths.len() && paths[k].len() <= nlen && sub_at(c, name_off, paths[k])
}

/// The forward walk over ZIP local file headers, from cursor `idx`: find the
/// next `PK\x03\x04` signature, read the 2-byte little-endian name length 26
/// bytes past it, take the name 30 bytes past it, and report whether any
/// walked name starts with one of the candidate paths.  Any truncated or
/// malformed header ends the walk with a non-match.
pub open spec fn spec_zip_scan(c: Seq<u8>, idx: int, paths: Seq<Seq<u8>>) -> bool
    decreases c.len() - idx,
    when 0 <= idx <= c.len()
    via spec_zip_scan_decreases
{
    let p = find_from(c, pk_sig(), idx);
    if p < 0 {
        false
    } else if p + 30 > c.len() {
        false
    } else {
        {
            let nlen = le16(c, p + 26);
            if nlen == 0 || p + 30 + nlen > c.len() {
                false
            } else if spec_token_matches(c, p + 30, nlen, paths) {
                true
            } else {
                spec_zip_scan(c, p + 30 + nlen, paths)
            }
        }
    }
}

#[via_fn]
proof fn spec_zip_scan_decreases(c: Seq<u8>, idx: int, paths: Seq<Seq<u8>>) {
    lemma_find_from_bounds(c, pk_sig(), idx);
}

/// True iff some candidate path of length at most `nlen` sits at `name_off`.
fn match_any_path(content: &[u8], name_off: usize, nlen: usize, paths: &Vec<Vec<u8>>) -> (r: bool)
    ensures
        r == spec_token_matches(content@, name_off as int, nlen as int, seq_views(paths@)),
{
    let mut k: usize = 0;
    while k < paths.len()
        invariant
            k <= paths@.len(),
            forall|j: int|
                0 <= j < k ==> !((#[trigger] seq_views(paths@)[j]).len() <= nlen as int
                    && sub_at(content@, name_off as int, seq_views(paths@)[j])),
        decreases paths@.len() - k,
    {
        if paths[k].len() <= nlen && starts_with_at(content, name_off, paths[k].as_slice()) {
            assert(seq_views(paths@)[k as int].len() <= nlen as int && sub_at(
                content@,
                name_off as int,
                seq_views(paths@)[k as int],
            ));
            return true;
        }
        k += 1;
    }
    false
}

/// True iff one of the file names tokenized from the ZIP local headers of
/// `content` starts with one of the candidate `paths`.
pub fn zip_contains(content: &[u8], paths: &Vec<Vec<u8>>) -> (r: bool)
    ensures
        r == spec_zip_scan(content@, 0, seq_views(paths@)),
{
    let pk: Vec<u8> = vec![0x50, 0x4b, 0x03, 0x04];
    assert(pk@ =~= pk_sig());
    let mut idx: usize = 0;
    loop
        invariant
            idx <= content@.len(),
            pk@ == pk_sig(),
            spec_zip_scan(content@, 0, seq_views(paths@)) == spec_zip_scan(
                content@,
                idx as int,
                seq_views(paths@),
            ),
        decreases content@.len() - idx,
    {
        let suffix = slice_subrange(content, idx, content.len());
        let p_rel = match find_sub(suffix, pk.as_slice()) {
            Some(p_rel) => p_rel,
            None => {
                proof {
                    lemma_find_from_bounds(suffix@, pk_sig(), 0);
                    assert forall|j: int| idx as int <= j implies !sub_at(
                        content@,
                        j,
                        pk_sig(),
                    ) by {
                        lemma_sub_at_skip(content@, idx as int, j - idx, pk_sig());
                    }
                    lemma_find_from_bounds(content@, pk_sig(), idx as int);
                }
                return false;
            },
        };
        proof {
            lemma_find_from_bounds(suffix@, pk_sig(), 0);
            lemma_sub_at_skip(content@, idx as int, p_rel as int, pk_sig());
            assert forall|j: int| idx as int <= j < idx + p_rel implies !sub_at(
                content@,
                j,
                pk_sig(),
            ) by {
                lemma_sub_at_skip(content@, idx as int, j - idx, pk_sig());
            }
            lemma_find_from_unique(content@, pk_sig(), idx as int, idx + p_rel);
        }
        let p = idx + p_rel;
        // The name field sits 30 bytes past the signature; a header cut short
        // ends the walk.
        if content.len() - p < 30 {
            return false;
        }
        let name_off = p + 30;
        let nlen = read_le_u16(slice_subrange(content, p + 26, p + 28)) as usize;
        proof {
            assert(content@.subrange(p + 26, p + 28)[0] == content@[p + 26]);
            assert(content@.subrange(p + 26, p + 28)[1] == content@[p + 27]);
        }
        if nlen == 0 || nlen > content.len() - name_off {
            return false;
        }
        // Compare each candidate path against the walked name.
        if match_any_path(content, name_off, nlen, paths) {
            return true;
        }
        idx = name_off + nlen;
    }
}

/// A ZIP archive header: `PK` followed by one of the local-file,
/// central-directory or spanned-archive marker byte pairs.
pub open spec fn spec_zip_matches(c: Seq<u8>) -> bool {
    &&& c.len() > 3
    &&& c[0] == 0x50
    &&& c[1] == 0x4b
    &&& (c[2] == 0x03 || c[2] == 0x05 || c[2] == 0x07)
    &&& (c[3] == 0x04 || c[3] == 0x06 || c[3] == 0x08)
}

/// True iff `content` opens with a ZIP archive header.
pub fn zip_detect(content: &[u8]) -> (r: bool)
    ensures
        r == spec_zip_matches(content@),
{
    content.len() > 3 && content[0] == 0x50 && content[1] == 0x4b && (content[2] == 0x03
        || content[2] == 0x05 || content[2] == 0x07) && (content[3] == 0x04 || content[3] == 0x06
        || content[3] == 0x08)
}

/// A Chrome extension: the `Cr24` package header, whose two little-endian
/// length fields give the offset of the embedded ZIP archive.
pub open spec fn spec_crx_matches(c: Seq<u8>) -> bool {
    &&& c.len() >= 16
    &&& has_prefix(c, seq![0x43u8, 0x72u8, 0x32u8, 0x34u8])  // "Cr24"
    &&& {
        let off = 16 + le32(c, 8) + le32(c, 12);
        c.len() >= off && spec_zip_matches(c.skip(off))
    }
}

/// True iff `content` is a Chrome extension package wrapping a ZIP archive.
pub fn crx_detect(content: &[u8]) -> (r: bool)
    ensures
        r == spec_crx_matches(content@),
{
    if content.len() < 16 {
        return false;
    }
    let cr: Vec<u8> = vec![0x43, 0x72, 0x32, 0x34];  // "Cr24"
    assert(cr@ =~= seq![0x43u8, 0x72u8, 0x32u8, 0x34u8]);  // "Cr24"
    if !starts_with_at(content, 0, cr.as_slice()) {
        return false;
    }
    let pubkey_len = read_le_u32(slice_subrange(content, 8, 12)) as u64;
    let sig_len = read_le_u32(slice_subrange(content, 12, 16)) as u64;
    proof {
        assert(content@.subrange(8, 12)[0] == content@[8]);
        assert(content@.subrange(8, 12)[1] == content@[9]);
        assert(content@.subrange(8, 12)[2] == content@[10]);
        assert(content@.subrange(8, 12)[3] == content@[11]);
        assert(content@.subrange(12, 16)[0] == content@[12]);
        assert(content@.subrange(12, 16)[1] == content@[13]);
        assert(content@.subrange(12, 16)[2] == content@[14]);
        assert(content@.subrange(12, 16)[3] == content@[15]);
    }
    let zip_offset: u64 = 16 + pubkey_len + sig_len;
    if (content.len() as u64) < zip_offset {
        return false;
    }
    let zo = zip_offset as usize;
    zip_detect(slice_subrange(content, zo, content.len()))
}

/// An InstallShield Cabinet archive: the `ISc(` marker and a known version
/// byte.
pub open spec fn spec_installshield_matches(c: Seq<u8>) -> bool {
    &&& c.len() > 7
    &&& has_prefix(c, seq![0x49u8, 0x53u8, 0x63u8, 0x28u8])  // "ISc("
    &&& c[6] == 0
    &&& (c[7] == 1 || c[7] == 2 || c[7] == 4)
}

/// True iff `content` opens with an InstallShield Cabinet header.
pub fn installshield_cab_detect(content: &[u8]) -> (r: bool)
    ensures
        r == spec_installshield_matches(content@),
{
    if content.len() <= 7 {
        return false;
    }
    let isc: Vec<u8> = vec![0x49, 0x53, 0x63, 0x28];  // "ISc("
    assert(isc@ =~= seq![0x49u8, 0x53u8, 0x63u8, 0x28u8]);  // "ISc("
    starts_with_at(content, 0, isc.as_slice()) && content[6] == 0 && (content[7] == 1
        || content[7] == 2 || content[7] == 4)
}

// --- tar ---

/// The byte of a 512-byte tar header used for checksumming: the eight bytes
/// of the checksum field itself count as ASCII spaces, since the checksum is
/// computed before being written there.
pub open spec fn chk_byte(c: Seq<u8>, i: int) -> u8 {
    if 148 <= i < 156 {
        0x20
    } else {
        c[i]
    }
}

/// The value of a byte under the signed-byte checksum convention.
pub open spec fn signed_byte(b: u8) -> int {
    if b >= 128 {
        b - 256
    } else {
        b as int
    }
}

/// Sum of the first `n` checksum bytes, each taken as an unsigned value.
pub open spec fn spec_sum_unsigned(c: Seq<u8>, n: int) -> int
    decreases n,
{
    if n <= 0 {
        0
    } else {
        spec_sum_unsigned(c, n - 1) + chk_byte(c, n - 1)
    }
}

/// Sum of the first `n` checksum bytes, each taken as a signed value.
pub open spec fn spec_sum_signed(c: Seq<u8>, n: int) -> int
    decreases n,
{
    if n <= 0 {
        0
    } else {
        spec_sum_signed(c, n - 1) + signed_byte(chk_byte(c, n - 1))
    }
}

/// Computes the two historical tar header checksums over the 512-byte block
/// `b`: the sum of unsigned byte values and the sum of signed byte values,
/// both with the checksum field's own bytes taken as ASCII spaces.
pub fn tar_chksum(b: &[u8]) -> (r: (i64, i64))
    requires
        b@.len() == 512,
    ensures
        r.0 == spec_sum_unsigned(b@, 512),
        r.1 == spec_sum_signed(b@, 512),
{
    let mut unsigned: i64 = 0;
    let mut signed: i64 = 0;
    let mut i: usize = 0;
    while i < 512
        invariant
            b@.len() == 512,
            i <= 512,
            unsigned == spec_sum_unsigned(b@, i as int),
            signed == spec_sum_signed(b@, i as int),
            0 <= unsigned <= 255 * i,
            -128 * i <= signed <= 127 * i,
        decreases 512 - i,
    {
        let mut cc = b[i];
        if 148 <= i && i < 156 {
            cc = 0x20;
        }
        unsigned = unsigned + cc as i64;
        if cc >= 128 {
            signed = signed + (cc as i64 - 256);
        } else {
            signed = signed + cc as i64;
        }
        i += 1;
    }
    (unsigned, signed)
}

/// One octal accumulation step: from offset `i` of the trimmed field with the
/// value `acc` so far, to the decoded value, -1 standing for an invalid
/// digit.
pub open spec fn spec_octal_from(s: Seq<u8>, i: int, acc: int) -> int
    decreases s.len() - i,
    when 0 <= i <= s.len()
{
    if i >= s.len() {
        acc
    } else if s[i] == 0 {
        acc
    } else if !(0x30 <= s[i] <= 0x37) {
        -1
    } else {
        spec_octal_from(s, i + 1, acc * 8 + (s[i] - 0x30))
    }
}

/// A padding byte at either end of a tar octal field: unused fields are
/// filled with NULs, and fields may also be padded with spaces.
pub open spec fn is_field_pad(b: u8) -> bool {
    b == 0x00 || crate::base::is_ws(b)
}

/// The field with its leading NUL and whitespace padding removed.
pub open spec fn field_trimmed_left(c: Seq<u8>) -> Seq<u8>
    decreases c.len(),
{
    if c.len() > 0 && is_field_pad(c[0]) {
        field_trimmed_left(c.skip(1))
    } else {
        c
    }
}

/// The field with its trailing NUL and whitespace padding removed.
pub open spec fn field_trimmed_right(c: Seq<u8>) -> Seq<u8>
    decreases c.len(),
{
    if c.len() > 0 && is_field_pad(c[c.len() - 1]) {
        field_trimmed_right(c.take(c.len() - 1))
    } else {
        c
    }
}

proof fn lemma_field_trimmed_left_step(c: Seq<u8>, i: int)
    requires
        0 <= i < c.len(),
        is_field_pad(c[i]),
    ensures
        field_trimmed_left(c.skip(i)) == field_trimmed_left(c.skip(i + 1)),
{
    assert(c.skip(i).skip(1) =~= c.skip(i + 1));
}

proof fn lemma_field_trimmed_right_step(c: Seq<u8>, i: int)
    requires
        0 <= i < c.len(),
        is_field_pad(c[i]),
    ensures
        field_trimmed_right(c.take(i + 1)) == field_trimmed_right(c.take(i)),
{
    assert(c.take(i + 1).take(i) =~= c.take(i));
    assert(c.take(i + 1)[i] == c[i]);
}

/// The slice of `field` past its leading NUL and whitespace padding.
fn trim_field_left(field: &[u8]) -> (r: &[u8])
    ensures
        r@ == field_trimmed_left(field@),
{
    let mut i: usize = 0;
    assert(field@.skip(0) =~= field@);
    loop
        invariant
            i <= field@.len(),
            field_trimmed_left(field@) == field_trimmed_left(field@.skip(i as int)),
        ensures
            i <= field@.len(),
            field_trimmed_left(field@) == field@.skip(i as int),
        decreases field@.len() - i,
    {
        if i >= field.len() {
            assert(field@.skip(i as int) =~= Seq::<u8>::empty());
            break;
        }
        let b = field[i];
        if !(b == 0x00 || b == 0x20 || b == 0x09 || b == 0x0a || b == 0x0c || b == 0x0d) {
            assert(field@.skip(i as int)[0] == field@[i as int]);
            break;
        }
        proof {
            lemma_field_trimmed_left_step(field@, i as int);
        }
        i += 1;
    }
    slice_subrange(field, i, field.len())
}

/// The slice of `field` up to its trailing NUL and whitespace padding.
fn trim_field_right(field: &[u8]) -> (r: &[u8])
    ensures
        r@ == field_trimmed_right(field@),
{
    let mut i: usize = field.len();
    assert(field@.take(field@.len() as int) =~= field@);
    loop
        invariant
            i <= field@.len(),
            field_trimmed_right(field@) == field_trimmed_right(field@.take(i as int)),
        ensures
            i <= field@.len(),
            field_trimmed_right(field@) == field@.take(i as int),
        decreases i,
    {
        if i == 0 {
            break;
        }
        let b = field[i - 1];
        if !(b == 0x00 || b == 0x20 || b == 0x09 || b == 0x0a || b == 0x0c || b == 0x0d) {
            assert(field@.take(i as int)[i - 1] == field@[i - 1]);
            break;
        }
        proof {
            lemma_field_trimmed_right_step(field@, i - 1);
        }
        i -= 1;
    }
    slice_subrange(field, 0, i)
}

/// The decoded octal value of a tar header field: NUL and whitespace padding
/// is trimmed from both ends, an empty remainder is invalid (-1), digits run
/// to the end or to an interior NUL, and any other byte makes the field
/// invalid (-1).
pub open spec fn spec_parse_octal(s: Seq<u8>) -> int {
    let t = field_trimmed_left(field_trimmed_right(s));
    if t.len() == 0 {
        -1
    } else {
        spec_octal_from(t, 0, 0)
    }
}

/// Eight to the power `n`; the bound for an octal accumulator of `n` digits.
pub open spec fn pow8(n: int) -> int
    decreases n,
{
    if n <= 0 {
        1
    } else {
        8 * pow8(n - 1)
    }
}

proof fn lemma_pow8_pos(n: int)
    ensures
        pow8(n) >= 1,
    decreases n,
{
    if n > 0 {
        lemma_pow8_pos(n - 1);
    }
}

proof fn lemma_pow8_le(i: int, j: int)
    requires
        0 <= i <= j,
    ensures
        pow8(i) <= pow8(j),
    decreases j - i,
{
    if i < j {
        lemma_pow8_le(i, j - 1);
        lemma_pow8_pos(j - 1);
    }
}

proof fn lemma_pow8_eight()
    ensures
        pow8(8) == 0x100_0000,
{
    assert(pow8(0) == 1);
    assert(pow8(1) == 8);
    assert(pow8(2) == 64);
    assert(pow8(3) == 512);
    assert(pow8(4) == 4096);
    assert(pow8(5) == 32768);
    assert(pow8(6) == 262144);
    assert(pow8(7) == 2097152);
}

/// Decodes a tar header octal field of at most eight bytes; -1 reports an
/// invalid field.
pub fn tar_parse_octal(bs: &[u8]) -> (r: i64)
    requires
        bs@.len() <= 8,
    ensures
        r == spec_parse_octal(bs@),
{
    let t = trim_field_left(trim_field_right(bs));
    proof {
        lemma_trimmed_len(bs@);
    }
    if t.len() == 0 {
        return -1;
    }
    let mut ret: i64 = 0;
    let mut i: usize = 0;
    while i < t.len()
        invariant
            t@ == field_trimmed_left(field_trimmed_right(bs@)),
            t@.len() > 0,
            t@.len() <= 8,
            i <= t@.len(),
            0 <= ret,
            ret < pow8(i as int),
            spec_octal_from(t@, 0, 0) == spec_octal_from(t@, i as int, ret as int),
        decreases t@.len() - i,
    {
        let b = t[i];
        if b == 0 {
            return ret;
        }
        if !(0x30 <= b && b <= 0x37) {
            return -1;
        }
        proof {
            lemma_pow8_le(i + 1, 8);
            lemma_pow8_eight();
        }
        ret = ret * 8 + (b - 0x30) as i64;
        i += 1;
    }
    ret
}

/// Trimming padding never lengthens a byte field.
proof fn lemma_trimmed_len(s: Seq<u8>)
    ensures
        field_trimmed_left(field_trimmed_right(s)).len() <= s.len(),
{
    lemma_trimmed_right_len(s);
    lemma_trimmed_left_len(field_trimmed_right(s));
}

proof fn lemma_trimmed_left_len(s: Seq<u8>)
    ensures
        field_trimmed_left(s).len() <= s.len(),
    decreases s.len(),
{
    if s.len() > 0 && is_field_pad(s[0]) {
        lemma_trimmed_left_len(s.skip(1));
    }
}

proof fn lemma_trimmed_right_len(s: Seq<u8>)
    ensures
        field_trimmed_right(s).len() <= s.len(),
    decreases s.len(),
{
    if s.len() > 0 && is_field_pad(s[s.len() - 1]) {
        lemma_trimmed_right_len(s.take(s.len() - 1));
    }
}

/// The vendor marker whose presence in the first hundred header bytes marks a
/// Gentoo GLEP binary package.
pub open spec fn gpkg_marker() -> Seq<u8> {
    seq![0x2fu8, 0x67u8, 0x70u8, 0x6bu8, 0x67u8, 0x2du8, 0x31u8, 0x00u8]
}

/// A tar header: the buffer holds a full 512-byte record whose recorded
/// checksum octal field equals either computed checksum, or whose first
/// hundred bytes hold the vendor package marker.
pub open spec fn spec_tar_matches(c: Seq<u8>) -> bool {
    c.len() >= 512 && {
        let h = c.take(512);
        if find_from(h.take(100), gpkg_marker(), 0) >= 0 {
            true
        } else {
            {
                let rec = spec_parse_octal(h.subrange(148, 156));
                rec != -1 && (rec == spec_sum_unsigned(h, 512) || rec == spec_sum_signed(h, 512))
            }
        }
    }
}

/// True iff `content` opens with a valid 512-byte tar header record.
pub fn tar_detect(content: &[u8]) -> (r: bool)
    ensures
        r == spec_tar_matches(content@),
{
    if content.len() < 512 {
        return false;
    }
    let h = slice_subrange(content, 0, 512);
    let first100 = slice_subrange(content, 0, 100);
    proof {
        assert(first100@ =~= h@.take(100));
    }
    let marker: Vec<u8> = vec![0x2f, 0x67, 0x70, 0x6b, 0x67, 0x2d, 0x31, 0x00];
    assert(marker@ =~= gpkg_marker());
    match find_sub(first100, marker.as_slice()) {
        Some(_) => {
            return true;
        },
        None => {},
    }
    let recsum = tar_parse_octal(slice_subrange(content, 148, 156));
    proof {
        assert(content@.subrange(148, 156) =~= h@.subrange(148, 156));
    }
    if recsum == -1 {
        return false;
    }
    let (sum1, sum2) = tar_chksum(h);
    recsum == sum1 || recsum == sum2
}



// --- OLE compound files ---

/// The byte offset of the root-storage CLSID of an OLE compound file: the
/// sector size (512, or 4096 when the version field reads 4) times one plus
/// the first directory sector ID, plus 80.
pub open spec fn spec_ole_clsid_offset(c: Seq<u8>) -> int {
    let sector: int = if c[26] == 0x04 && c[27] == 0x00 {
        4096
    } else {
        512
    };
    sector * (1 + le32(c, 48)) + 80
}

/// The compound file holds at least one sector, its root CLSID sits inside
/// the buffer at the computed offset, and the bytes there begin with `clsid`.
pub open spec fn spec_ole_clsid_matches(c: Seq<u8>, clsid: Seq<u8>) -> bool {
    c.len() >= 512 && {
        let off = spec_ole_clsid_offset(c);
        c.len() > off + 16 && sub_at(c, off, clsid)
    }
}

/// True iff `content` is an OLE compound file whose root CLSID begins with
/// `clsid`; the offset arithmetic is exact, so no wrap can fake a match.
pub fn match_ole_clsid(content: &[u8], clsid: &[u8]) -> (r: bool)
    ensures
        r == spec_ole_clsid_matches(content@, clsid@),
{
    if content.len() < 512 {
        return false;
    }
    let sector: u64 = if content[26] == 0x04 && content[27] == 0x00 {
        4096
    } else {
        512
    };
    let first = read_le_u32(slice_subrange(content, 48, 52)) as u64;
    proof {
        assert(content@.subrange(48, 52)[0] == content@[48]);
        assert(content@.subrange(48, 52)[1] == content@[49]);
        assert(content@.subrange(48, 52)[2] == content@[50]);
        assert(content@.subrange(48, 52)[3] == content@[51]);
        assert(sector * (1 + first) + 80 < 0x10_0000_0000_0000) by (nonlinear_arith)
            requires
                sector <= 4096,
                first <= 0x1_0000_0000,
        ;
    }
    let off: u64 = sector * (1 + first) + 80;
    if (content.len() as u64) <= off + 16 {
        return false;
    }
    assert(off < content.len() as u64);
    starts_with_at(content, off as usize, clsid)
}


/// A Microsoft Windows Installer file, by its root CLSID.
pub open spec fn spec_msi_matches(c: Seq<u8>) -> bool {
    spec_ole_clsid_matches(c, seq![0x84u8, 0x10u8, 0x0cu8, 0x00u8, 0x00u8, 0x00u8, 0x00u8, 0x00u8, 0xc0u8, 0x00u8, 0x00u8, 0x00u8, 0x00u8, 0x00u8, 0x00u8, 0x46u8])
}

/// True iff `content` matches as described by `spec_msi_matches`.
pub fn msi_detect(content: &[u8]) -> (r: bool)
    ensures
        r == spec_msi_matches(content@),
{
    let c0: Vec<u8> = vec![0x84, 0x10, 0x0c, 0x00, 0x00, 0x00, 0x00, 0x00, 0xc0, 0x00, 0x00, 0x00, 0x00, 0x00, 0x00, 0x46];
    assert(c0@ =~= seq![0x84u8, 0x10u8, 0x0cu8, 0x00u8, 0x00u8, 0x00u8, 0x00u8, 0x00u8, 0xc0u8, 0x00u8, 0x00u8, 0x00u8, 0x00u8, 0x00u8, 0x00u8, 0x46u8]);
    if match_ole_clsid(content, c0.as_slice()) {
        return true;
    }
    false
}


/// A Microsoft Outlook email file, by its root CLSID.
pub open spec fn spec_msg_matches(c: Seq<u8>) -> bool {
    spec_ole_clsid_matches(c, seq![0x0bu8, 0x0du8, 0x02u8, 0x00u8, 0x00u8, 0x00u8, 0x00u8, 0x00u8, 0xc0u8, 0x00u8, 0x00u8, 0x00u8, 0x00u8, 0x00u8, 0x00u8, 0x46u8])
}

/// True iff `content` matches as described by `spec_msg_matches`.
pub fn msg_detect(content: &[u8]) -> (r: bool)
    ensures
        r == spec_msg_matches(content@),
{
    let c0: Vec<u8> = vec![0x0b, 0x0d, 0x02, 0x00, 0x00, 0x00, 0x00, 0x00, 0xc0, 0x00, 0x00, 0x00, 0x00, 0x00, 0x00, 0x46];
    assert(c0@ =~= seq![0x0bu8, 0x0du8, 0x02u8, 0x00u8, 0x00u8, 0x00u8, 0x00u8, 0x00u8, 0xc0u8, 0x00u8, 0x00u8, 0x00u8, 0x00u8, 0x00u8, 0x00u8, 0x46u8]);
    if match_ole_clsid(content, c0.as_slice()) {
        return true;
    }
    false
}


/// A Microsoft Publisher file, by its root CLSID.
pub open spec fn spec_publisher_matches(c: Seq<u8>) -> bool {
    spec_ole_clsid_matches(c, seq![0x01u8, 0x12u8, 0x02u8, 0x00u8, 0x00u8, 0x00u8, 0x00u8, 0x00u8, 0x00u8, 0xc0u8, 0x00u8, 0x00u8, 0x00u8, 0x00u8, 0x00u8, 0x46u8])
}

/// True iff `content` matches as described by `spec_publisher_matches`.
pub fn publisher_detect(content: &[u8]) -> (r: bool)
    ensures
        r == spec_publisher_matches(content@),
{
    let c0: Vec<u8> = vec![0x01, 0x12, 0x02, 0x00, 0x00, 0x00, 0x00, 0x00, 0x00, 0xc0, 0x00, 0x00, 0x00, 0x00, 0x00, 0x46];
    assert(c0@ =~= seq![0x01u8, 0x12u8, 0x02u8, 0x00u8, 0x00u8, 0x00u8, 0x00u8, 0x00u8, 0x00u8, 0xc0u8, 0x00u8, 0x00u8, 0x00u8, 0x00u8, 0x00u8, 0x46u8]);
    if match_ole_clsid(content, c0.as_slice()) {
        return true;
    }
    false
}


/// A Microsoft Word 97-2003 file, by any of its three root CLSIDs.
pub open spec fn spec_doc_matches(c: Seq<u8>) -> bool {
    spec_ole_clsid_matches(c, seq![0x06u8, 0x09u8, 0x02u8, 0x00u8, 0x00u8, 0x00u8, 0x00u8, 0x00u8, 0xc0u8, 0x00u8, 0x00u8, 0x00u8, 0x00u8, 0x00u8, 0x00u8, 0x46u8]) || spec_ole_clsid_matches(c, seq![0x00u8, 0x09u8, 0x02u8, 0x00u8, 0x00u8, 0x00u8, 0x00u8, 0x00u8, 0xc0u8, 0x00u8, 0x00u8, 0x00u8, 0x00u8, 0x00u8, 0x00u8, 0x46u8]) || spec_ole_clsid_matches(c, seq![0x07u8, 0x09u8, 0x02u8, 0x00u8, 0x00u8, 0x00u8, 0x00u8, 0x00u8, 0xc0u8, 0x00u8, 0x00u8, 0x00u8, 0x00u8, 0x00u8, 0x00u8, 0x46u8])
}

/// True iff `content` matches as described by `spec_doc_matches`.
pub fn doc_detect(content: &[u8]) -> (r: bool)
    ensures
        r == spec_doc_matches(content@),
{
    let c0: Vec<u8> = vec![0x06, 0x09, 0x02, 0x00, 0x00, 0x00, 0x00, 0x00, 0xc0, 0x00, 0x00, 0x00, 0x00, 0x00, 0x00, 0x46];
    assert(c0@ =~= seq![0x06u8, 0x09u8, 0x02u8, 0x00u8, 0x00u8, 0x00u8, 0x00u8, 0x00u8, 0xc0u8, 0x00u8, 0x00u8, 0x00u8, 0x00u8, 0x00u8, 0x00u8, 0x46u8]);
    if match_ole_clsid(content, c0.as_slice()) {
        return true;
    }
    let c1: Vec<u8> = vec![0x00, 0x09, 0x02, 0x00, 0x00, 0x00, 0x00, 0x00, 0xc0, 0x00, 0x00, 0x00, 0x00, 0x00, 0x00, 0x46];
    assert(c1@ =~= seq![0x00u8, 0x09u8, 0x02u8, 0x00u8, 0x00u8, 0x00u8, 0x00u8, 0x00u8, 0xc0u8, 0x00u8, 0x00u8, 0x00u8, 0x00u8, 0x00u8, 0x00u8, 0x46u8]);
    if match_ole_clsid(content, c1.as_slice()) {
        return true;
    }
    let c2: Vec<u8> = vec![0x07, 0x09, 0x02, 0x00, 0x00, 0x00, 0x00, 0x00, 0xc0, 0x00, 0x00, 0x00, 0x00, 0x00, 0x00, 0x46];
    assert(c2@ =~= seq![0x07u8, 0x09u8, 0x02u8, 0x00u8, 0x00u8, 0x00u8, 0x00u8, 0x00u8, 0xc0u8, 0x00u8, 0x00u8, 0x00u8, 0x00u8, 0x00u8, 0x00u8, 0x46u8]);
    if match_ole_clsid(content, c2.as_slice()) {
        return true;
    }
    false
}


/// The tail window searched for the wide-character application markers of
/// the legacy Office formats: bytes 1152 up to 4096, clipped to the buffer.
pub open spec fn spec_ole_marker_window(c: Seq<u8>) -> Seq<u8> {
    c.subrange(1152, if c.len() < 4096 { c.len() as int } else { 4096 })
}

/// True iff the buffer reaches past byte 1152 and the window up to byte 4096
/// holds the marker.
fn ole_marker_search(content: &[u8], marker: &[u8]) -> (r: bool)
    ensures
        r == (content@.len() > 1152 && find_from(spec_ole_marker_window(content@), marker@, 0) >= 0),
{
    if content.len() <= 1152 {
        return false;
    }
    let end = if content.len() < 4096 {
        content.len()
    } else {
        4096
    };
    let window = slice_subrange(content, 1152, end);
    proof {
        assert(window@ =~= spec_ole_marker_window(content@));
    }
    match find_sub(window, marker) {
        Some(_) => true,
        None => false,
    }
}


/// A Microsoft Excel 97-2003 file: a root CLSID prefix, a known sub-header
/// at byte 512, or the wide-character workbook marker in the tail window.
pub open spec fn spec_xls_matches(c: Seq<u8>) -> bool {
    ||| spec_ole_clsid_matches(c, seq![0x10u8, 0x08u8, 0x02u8, 0x00u8, 0x00u8, 0x00u8, 0x00u8, 0x00u8])
    ||| spec_ole_clsid_matches(c, seq![0x20u8, 0x08u8, 0x02u8, 0x00u8, 0x00u8, 0x00u8, 0x00u8, 0x00u8])
    ||| (c.len() >= 520 && (sub_at(c, 512, seq![0x09u8, 0x08u8, 0x10u8, 0x00u8, 0x00u8, 0x06u8, 0x05u8, 0x00u8]) || sub_at(c, 512, seq![0xfdu8, 0xffu8, 0xffu8, 0xffu8, 0x10u8]) || sub_at(c, 512, seq![0xfdu8, 0xffu8, 0xffu8, 0xffu8, 0x1fu8]) || sub_at(c, 512, seq![0xfdu8, 0xffu8, 0xffu8, 0xffu8, 0x22u8]) || sub_at(c, 512, seq![0xfdu8, 0xffu8, 0xffu8, 0xffu8, 0x23u8]) || sub_at(c, 512, seq![0xfdu8, 0xffu8, 0xffu8, 0xffu8, 0x28u8]) || sub_at(c, 512, seq![0xfdu8, 0xffu8, 0xffu8, 0xffu8, 0x29u8])))
    ||| (c.len() > 1152 && find_from(spec_ole_marker_window(c), seq![0x57u8, 0x00u8, 0x6bu8, 0x00u8, 0x73u8, 0x00u8, 0x53u8, 0x00u8, 0x53u8, 0x00u8, 0x57u8, 0x00u8, 0x6fu8, 0x00u8, 0x72u8, 0x00u8, 0x6bu8, 0x00u8, 0x42u8, 0x00u8, 0x6fu8, 0x00u8, 0x6fu8, 0x00u8, 0x6bu8], 0) >= 0)
}

/// True iff `content` matches as described by `spec_xls_matches`.
pub fn xls_detect(content: &[u8]) -> (r: bool)
    ensures
        r == spec_xls_matches(content@),
{
    let c0: Vec<u8> = vec![0x10, 0x08, 0x02, 0x00, 0x00, 0x00, 0x00, 0x00];
    assert(c0@ =~= seq![0x10u8, 0x08u8, 0x02u8, 0x00u8, 0x00u8, 0x00u8, 0x00u8, 0x00u8]);
    if match_ole_clsid(content, c0.as_slice()) {
        return true;
    }
    let c1: Vec<u8> = vec![0x20, 0x08, 0x02, 0x00, 0x00, 0x00, 0x00, 0x00];
    assert(c1@ =~= seq![0x20u8, 0x08u8, 0x02u8, 0x00u8, 0x00u8, 0x00u8, 0x00u8, 0x00u8]);
    if match_ole_clsid(content, c1.as_slice()) {
        return true;
    }
    if content.len() >= 520 {
        let h0: Vec<u8> = vec![0x09, 0x08, 0x10, 0x00, 0x00, 0x06, 0x05, 0x00];
        assert(h0@ =~= seq![0x09u8, 0x08u8, 0x10u8, 0x00u8, 0x00u8, 0x06u8, 0x05u8, 0x00u8]);
        if starts_with_at(content, 512, h0.as_slice()) {
            return true;
        }
        let h1: Vec<u8> = vec![0xfd, 0xff, 0xff, 0xff, 0x10];
        assert(h1@ =~= seq![0xfdu8, 0xffu8, 0xffu8, 0xffu8, 0x10u8]);
        if starts_with_at(content, 512, h1.as_slice()) {
            return true;
        }
        let h2: Vec<u8> = vec![0xfd, 0xff, 0xff, 0xff, 0x1f];
        assert(h2@ =~= seq![0xfdu8, 0xffu8, 0xffu8, 0xffu8, 0x1fu8]);
        if starts_with_at(content, 512, h2.as_slice()) {
            return true;
        }
        let h3: Vec<u8> = vec![0xfd, 0xff, 0xff, 0xff, 0x22];
        assert(h3@ =~= seq![0xfdu8, 0xffu8, 0xffu8, 0xffu8, 0x22u8]);
        if starts_with_at(content, 512, h3.as_slice()) {
            return true;
        }
        let h4: Vec<u8> = vec![0xfd, 0xff, 0xff, 0xff, 0x23];
        assert(h4@ =~= seq![0xfdu8, 0xffu8, 0xffu8, 0xffu8, 0x23u8]);
        if starts_with_at(content, 512, h4.as_slice()) {
            return true;
        }
        let h5: Vec<u8> = vec![0xfd, 0xff, 0xff, 0xff, 0x28];
        assert(h5@ =~= seq![0xfdu8, 0xffu8, 0xffu8, 0xffu8, 0x28u8]);
        if starts_with_at(content, 512, h5.as_slice()) {
            return true;
        }
        let h6: Vec<u8> = vec![0xfd, 0xff, 0xff, 0xff, 0x29];
        assert(h6@ =~= seq![0xfdu8, 0xffu8, 0xffu8, 0xffu8, 0x29u8]);
        if starts_with_at(content, 512, h6.as_slice()) {
            return true;
        }
    }
    let marker: Vec<u8> = vec![0x57, 0x00, 0x6b, 0x00, 0x73, 0x00, 0x53, 0x00, 0x53, 0x00, 0x57, 0x00, 0x6f, 0x00, 0x72, 0x00, 0x6b, 0x00, 0x42, 0x00, 0x6f, 0x00, 0x6f, 0x00, 0x6b];
    assert(marker@ =~= seq![0x57u8, 0x00u8, 0x6bu8, 0x00u8, 0x73u8, 0x00u8, 0x53u8, 0x00u8, 0x53u8, 0x00u8, 0x57u8, 0x00u8, 0x6fu8, 0x00u8, 0x72u8, 0x00u8, 0x6bu8, 0x00u8, 0x42u8, 0x00u8, 0x6fu8, 0x00u8, 0x6fu8, 0x00u8, 0x6bu8]);
    ole_marker_search(content, marker.as_slice())
}


/// A Microsoft PowerPoint 97-2003 file: a root CLSID, a known sub-header at
/// byte 512 (including the pattern with two zero bytes at 518), or the
/// wide-character document marker in the tail window.
pub open spec fn spec_ppt_matches(c: Seq<u8>) -> bool {
    ||| spec_ole_clsid_matches(c, seq![0x10u8, 0x8du8, 0x81u8, 0x64u8, 0x9bu8, 0x4fu8, 0xcfu8, 0x11u8, 0x86u8, 0xeau8, 0x00u8, 0xaau8, 0x00u8, 0xb9u8, 0x29u8, 0xe8u8])
    ||| spec_ole_clsid_matches(c, seq![0x70u8, 0xaeu8, 0x7bu8, 0xeau8, 0x3bu8, 0xfbu8, 0xcdu8, 0x11u8, 0xa9u8, 0x03u8, 0x00u8, 0xaau8, 0x00u8, 0x51u8, 0x0eu8, 0xa3u8])
    ||| (c.len() >= 520 && (sub_at(c, 512, seq![0xa0u8, 0x46u8, 0x1du8, 0xf0u8]) || sub_at(c, 512, seq![0x00u8, 0x6eu8, 0x1eu8, 0xf0u8]) || sub_at(c, 512, seq![0x0fu8, 0x00u8, 0xe8u8, 0x03u8])))
    ||| (c.len() >= 520 && sub_at(c, 512, seq![0xfdu8, 0xffu8, 0xffu8, 0xffu8]) && c[518] == 0x00
        && c[519] == 0x00)
    ||| (c.len() > 1152 && find_from(spec_ole_marker_window(c), seq![0x50u8, 0x00u8, 0x6fu8, 0x00u8, 0x77u8, 0x00u8, 0x65u8, 0x00u8, 0x72u8, 0x00u8, 0x50u8, 0x00u8, 0x6fu8, 0x00u8, 0x69u8, 0x00u8, 0x6eu8, 0x00u8, 0x74u8, 0x00u8, 0x20u8, 0x44u8, 0x00u8, 0x6fu8, 0x00u8, 0x63u8, 0x00u8, 0x75u8, 0x00u8, 0x6du8, 0x00u8, 0x65u8, 0x00u8, 0x6eu8, 0x00u8, 0x74u8], 0) >= 0)
}

/// True iff `content` matches as described by `spec_ppt_matches`.
pub fn ppt_detect(content: &[u8]) -> (r: bool)
    ensures
        r == spec_ppt_matches(content@),
{
    let c0: Vec<u8> = vec![0x10, 0x8d, 0x81, 0x64, 0x9b, 0x4f, 0xcf, 0x11, 0x86, 0xea, 0x00, 0xaa, 0x00, 0xb9, 0x29, 0xe8];
    assert(c0@ =~= seq![0x10u8, 0x8du8, 0x81u8, 0x64u8, 0x9bu8, 0x4fu8, 0xcfu8, 0x11u8, 0x86u8, 0xeau8, 0x00u8, 0xaau8, 0x00u8, 0xb9u8, 0x29u8, 0xe8u8]);
    if match_ole_clsid(content, c0.as_slice()) {
        return true;
    }
    let c1: Vec<u8> = vec![0x70, 0xae, 0x7b, 0xea, 0x3b, 0xfb, 0xcd, 0x11, 0xa9, 0x03, 0x00, 0xaa, 0x00, 0x51, 0x0e, 0xa3];
    assert(c1@ =~= seq![0x70u8, 0xaeu8, 0x7bu8, 0xeau8, 0x3bu8, 0xfbu8, 0xcdu8, 0x11u8, 0xa9u8, 0x03u8, 0x00u8, 0xaau8, 0x00u8, 0x51u8, 0x0eu8, 0xa3u8]);
    if match_ole_clsid(content, c1.as_slice()) {
        return true;
    }
    if content.len() >= 520 {
        let h0: Vec<u8> = vec![0xa0, 0x46, 0x1d, 0xf0];
        assert(h0@ =~= seq![0xa0u8, 0x46u8, 0x1du8, 0xf0u8]);
        if starts_with_at(content, 512, h0.as_slice()) {
            return true;
        }
        let h1: Vec<u8> = vec![0x00, 0x6e, 0x1e, 0xf0];
        assert(h1@ =~= seq![0x00u8, 0x6eu8, 0x1eu8, 0xf0u8]);
        if starts_with_at(content, 512, h1.as_slice()) {
            return true;
        }
        let h2: Vec<u8> = vec![0x0f, 0x00, 0xe8, 0x03];
        assert(h2@ =~= seq![0x0fu8, 0x00u8, 0xe8u8, 0x03u8]);
        if starts_with_at(content, 512, h2.as_slice()) {
            return true;
        }
        let fd: Vec<u8> = vec![0xfd, 0xff, 0xff, 0xff];
        assert(fd@ =~= seq![0xfdu8, 0xffu8, 0xffu8, 0xffu8]);
        if starts_with_at(content, 512, fd.as_slice()) && content[518] == 0x00 && content[519]
            == 0x00 {
            return true;
        }
    }
    let marker: Vec<u8> = vec![0x50, 0x00, 0x6f, 0x00, 0x77, 0x00, 0x65, 0x00, 0x72, 0x00, 0x50, 0x00, 0x6f, 0x00, 0x69, 0x00, 0x6e, 0x00, 0x74, 0x00, 0x20, 0x44, 0x00, 0x6f, 0x00, 0x63, 0x00, 0x75, 0x00, 0x6d, 0x00, 0x65, 0x00, 0x6e, 0x00, 0x74];
    assert(marker@ =~= seq![0x50u8, 0x00u8, 0x6fu8, 0x00u8, 0x77u8, 0x00u8, 0x65u8, 0x00u8, 0x72u8, 0x00u8, 0x50u8, 0x00u8, 0x6fu8, 0x00u8, 0x69u8, 0x00u8, 0x6eu8, 0x00u8, 0x74u8, 0x00u8, 0x20u8, 0x44u8, 0x00u8, 0x6fu8, 0x00u8, 0x63u8, 0x00u8, 0x75u8, 0x00u8, 0x6du8, 0x00u8, 0x65u8, 0x00u8, 0x6eu8, 0x00u8, 0x74u8]);
    ole_marker_search(content, marker.as_slice())
}


/// An Advanced Authoring Format file: its signature at byte 8 and a known
/// byte count at byte 30.
pub open spec fn spec_aaf_matches(c: Seq<u8>) -> bool {
    &&& c.len() >= 31
    &&& sub_at(c, 8, seq![0x41u8, 0x41u8, 0x46u8, 0x42u8, 0x0du8, 0x00u8, 0x4fu8, 0x4du8])
    &&& (c[30] == 0x09 || c[30] == 0x0c)
}

/// True iff `content` matches as described by `spec_aaf_matches`.
pub fn aaf_detect(content: &[u8]) -> (r: bool)
    ensures
        r == spec_aaf_matches(content@),
{
    if content.len() < 31 {
        return false;
    }
    let sig: Vec<u8> = vec![0x41, 0x41, 0x46, 0x42, 0x0d, 0x00, 0x4f, 0x4d];
    assert(sig@ =~= seq![0x41u8, 0x41u8, 0x46u8, 0x42u8, 0x0du8, 0x00u8, 0x4fu8, 0x4du8]);
    starts_with_at(content, 8, sig.as_slice()) && (content[30] == 0x09 || content[30] == 0x0c)
}


/// The ZIP entry name prefixes that identify the format.
pub open spec fn xlsx_paths() -> Seq<Seq<u8>> {
    seq![seq![0x78u8, 0x6cu8, 0x2fu8, 0x77u8, 0x6fu8, 0x72u8, 0x6bu8, 0x73u8, 0x68u8, 0x65u8, 0x65u8, 0x74u8, 0x73u8, 0x2fu8], seq![0x78u8, 0x6cu8, 0x2fu8, 0x64u8, 0x72u8, 0x61u8, 0x77u8, 0x69u8, 0x6eu8, 0x67u8, 0x73u8, 0x2fu8], seq![0x78u8, 0x6cu8, 0x2fu8, 0x74u8, 0x68u8, 0x65u8, 0x6du8, 0x65u8, 0x2fu8], seq![0x78u8, 0x6cu8, 0x2fu8, 0x5fu8, 0x72u8, 0x65u8, 0x6cu8, 0x73u8, 0x2fu8], seq![0x78u8, 0x6cu8, 0x2fu8, 0x73u8, 0x74u8, 0x79u8, 0x6cu8, 0x65u8, 0x73u8, 0x2eu8, 0x78u8, 0x6du8, 0x6cu8], seq![0x78u8, 0x6cu8, 0x2fu8, 0x77u8, 0x6fu8, 0x72u8, 0x6bu8, 0x62u8, 0x6fu8, 0x6fu8, 0x6bu8, 0x2eu8, 0x78u8, 0x6du8, 0x6cu8], seq![0x78u8, 0x6cu8, 0x2fu8, 0x73u8, 0x68u8, 0x61u8, 0x72u8, 0x65u8, 0x64u8, 0x53u8, 0x74u8, 0x72u8, 0x69u8, 0x6eu8, 0x67u8, 0x73u8, 0x2eu8, 0x78u8, 0x6du8, 0x6cu8]]
}

/// A Microsoft Excel 2007 workbook: a ZIP container holding workbook entries.
pub open spec fn spec_xlsx_matches(c: Seq<u8>) -> bool {
    spec_zip_scan(c, 0, xlsx_paths())
}

/// True iff `content` matches as described by `spec_xlsx_matches`.
pub fn xlsx_detect(content: &[u8]) -> (r: bool)
    ensures
        r == spec_xlsx_matches(content@),
{
    let mut paths: Vec<Vec<u8>> = Vec::new();
    paths.push(vec![0x78, 0x6c, 0x2f, 0x77, 0x6f, 0x72, 0x6b, 0x73, 0x68, 0x65, 0x65, 0x74, 0x73, 0x2f]);  // "xl/worksheets/"
    paths.push(vec![0x78, 0x6c, 0x2f, 0x64, 0x72, 0x61, 0x77, 0x69, 0x6e, 0x67, 0x73, 0x2f]);  // "xl/drawings/"
    paths.push(vec![0x78, 0x6c, 0x2f, 0x74, 0x68, 0x65, 0x6d, 0x65, 0x2f]);  // "xl/theme/"
    paths.push(vec![0x78, 0x6c, 0x2f, 0x5f, 0x72, 0x65, 0x6c, 0x73, 0x2f]);  // "xl/_rels/"
    paths.push(vec![0x78, 0x6c, 0x2f, 0x73, 0x74, 0x79, 0x6c, 0x65, 0x73, 0x2e, 0x78, 0x6d, 0x6c]);  // "xl/styles.xml"
    paths.push(vec![0x78, 0x6c, 0x2f, 0x77, 0x6f, 0x72, 0x6b, 0x62, 0x6f, 0x6f, 0x6b, 0x2e, 0x78, 0x6d, 0x6c]);  // "xl/workbook.xml"
    paths.push(vec![0x78, 0x6c, 0x2f, 0x73, 0x68, 0x61, 0x72, 0x65, 0x64, 0x53, 0x74, 0x72, 0x69, 0x6e, 0x67, 0x73, 0x2e, 0x78, 0x6d, 0x6c]);  // "xl/sharedStrings.xml"
    assert(seq_views(paths@) =~~= xlsx_paths());
    zip_contains(content, &paths)
}


/// The ZIP entry name prefixes that identify the format.
pub open spec fn docx_paths() -> Seq<Seq<u8>> {
    seq![seq![0x77u8, 0x6fu8, 0x72u8, 0x64u8, 0x2fu8, 0x6du8, 0x65u8, 0x64u8, 0x69u8, 0x61u8, 0x2fu8], seq![0x77u8, 0x6fu8, 0x72u8, 0x64u8, 0x2fu8, 0x5fu8, 0x72u8, 0x65u8, 0x6cu8, 0x73u8, 0x2fu8, 0x64u8, 0x6fu8, 0x63u8, 0x75u8, 0x6du8, 0x65u8, 0x6eu8, 0x74u8, 0x2eu8, 0x78u8, 0x6du8, 0x6cu8, 0x2eu8, 0x72u8, 0x65u8, 0x6cu8, 0x73u8], seq![0x77u8, 0x6fu8, 0x72u8, 0x64u8, 0x2fu8, 0x64u8, 0x6fu8, 0x63u8, 0x75u8, 0x6du8, 0x65u8, 0x6eu8, 0x74u8, 0x2eu8, 0x78u8, 0x6du8, 0x6cu8], seq![0x77u8, 0x6fu8, 0x72u8, 0x64u8, 0x2fu8, 0x73u8, 0x74u8, 0x79u8, 0x6cu8, 0x65u8, 0x73u8, 0x2eu8, 0x78u8, 0x6du8, 0x6cu8], seq![0x77u8, 0x6fu8, 0x72u8, 0x64u8, 0x2fu8, 0x66u8, 0x6fu8, 0x6eu8, 0x74u8, 0x54u8, 0x61u8, 0x62u8, 0x6cu8, 0x65u8, 0x2eu8, 0x78u8, 0x6du8, 0x6cu8], seq![0x77u8, 0x6fu8, 0x72u8, 0x64u8, 0x2fu8, 0x73u8, 0x65u8, 0x74u8, 0x74u8, 0x69u8, 0x6eu8, 0x67u8, 0x73u8, 0x2eu8, 0x78u8, 0x6du8, 0x6cu8], seq![0x77u8, 0x6fu8, 0x72u8, 0x64u8, 0x2fu8, 0x6eu8, 0x75u8, 0x6du8, 0x62u8, 0x65u8, 0x72u8, 0x69u8, 0x6eu8, 0x67u8, 0x2eu8, 0x78u8, 0x6du8, 0x6cu8], seq![0x77u8, 0x6fu8, 0x72u8, 0x64u8, 0x2fu8, 0x68u8, 0x65u8, 0x61u8, 0x64u8, 0x65u8, 0x72u8], seq![0x77u8, 0x6fu8, 0x72u8, 0x64u8, 0x2fu8, 0x66u8, 0x6fu8, 0x6fu8, 0x74u8, 0x65u8, 0x72u8]]
}

/// A Microsoft Word 2007 document: a ZIP container holding document entries.
pub open spec fn spec_docx_matches(c: Seq<u8>) -> bool {
    spec_zip_scan(c, 0, docx_paths())
}

/// True iff `content` matches as described by `spec_docx_matches`.
pub fn docx_detect(content: &[u8]) -> (r: bool)
    ensures
        r == spec_docx_matches(content@),
{
    let mut paths: Vec<Vec<u8>> = Vec::new();
    paths.push(vec![0x77, 0x6f, 0x72, 0x64, 0x2f, 0x6d, 0x65, 0x64, 0x69, 0x61, 0x2f]);  // "word/media/"
    paths.push(vec![0x77, 0x6f, 0x72, 0x64, 0x2f, 0x5f, 0x72, 0x65, 0x6c, 0x73, 0x2f, 0x64, 0x6f, 0x63, 0x75, 0x6d, 0x65, 0x6e, 0x74, 0x2e, 0x78, 0x6d, 0x6c, 0x2e, 0x72, 0x65, 0x6c, 0x73]);  // "word/_rels/document.xml.rels"
    paths.push(vec![0x77, 0x6f, 0x72, 0x64, 0x2f, 0x64, 0x6f, 0x63, 0x75, 0x6d, 0x65, 0x6e, 0x74, 0x2e, 0x78, 0x6d, 0x6c]);  // "word/document.xml"
    paths.push(vec![0x77, 0x6f, 0x72, 0x64, 0x2f, 0x73, 0x74, 0x79, 0x6c, 0x65, 0x73, 0x2e, 0x78, 0x6d, 0x6c]);  // "word/styles.xml"
    paths.push(vec![0x77, 0x6f, 0x72, 0x64, 0x2f, 0x66, 0x6f, 0x6e, 0x74, 0x54, 0x61, 0x62, 0x6c, 0x65, 0x2e, 0x78, 0x6d, 0x6c]);  // "word/fontTable.xml"
    paths.push(vec![0x77, 0x6f, 0x72, 0x64, 0x2f, 0x73, 0x65, 0x74, 0x74, 0x69, 0x6e, 0x67, 0x73, 0x2e, 0x78, 0x6d, 0x6c]);  // "word/settings.xml"
    paths.push(vec![0x77, 0x6f, 0x72, 0x64, 0x2f, 0x6e, 0x75, 0x6d, 0x62, 0x65, 0x72, 0x69, 0x6e, 0x67, 0x2e, 0x78, 0x6d, 0x6c]);  // "word/numbering.xml"
    paths.push(vec![0x77, 0x6f, 0x72, 0x64, 0x2f, 0x68, 0x65, 0x61, 0x64, 0x65, 0x72]);  // "word/header"
    paths.push(vec![0x77, 0x6f, 0x72, 0x64, 0x2f, 0x66, 0x6f, 0x6f, 0x74, 0x65, 0x72]);  // "word/footer"
    assert(seq_views(paths@) =~~= docx_paths());
    zip_contains(content, &paths)
}


/// The ZIP entry name prefixes that identify the format.
pub open spec fn pptx_paths() -> Seq<Seq<u8>> {
    seq![seq![0x70u8, 0x70u8, 0x74u8, 0x2fu8, 0x73u8, 0x6cu8, 0x69u8, 0x64u8, 0x65u8, 0x73u8, 0x2fu8], seq![0x70u8, 0x70u8, 0x74u8, 0x2fu8, 0x6du8, 0x65u8, 0x64u8, 0x69u8, 0x61u8, 0x2fu8], seq![0x70u8, 0x70u8, 0x74u8, 0x2fu8, 0x73u8, 0x6cu8, 0x69u8, 0x64u8, 0x65u8, 0x4cu8, 0x61u8, 0x79u8, 0x6fu8, 0x75u8, 0x74u8, 0x73u8, 0x2fu8], seq![0x70u8, 0x70u8, 0x74u8, 0x2fu8, 0x74u8, 0x68u8, 0x65u8, 0x6du8, 0x65u8, 0x2fu8], seq![0x70u8, 0x70u8, 0x74u8, 0x2fu8, 0x73u8, 0x6cu8, 0x69u8, 0x64u8, 0x65u8, 0x4du8, 0x61u8, 0x73u8, 0x74u8, 0x65u8, 0x72u8, 0x73u8, 0x2fu8], seq![0x70u8, 0x70u8, 0x74u8, 0x2fu8, 0x74u8, 0x61u8, 0x67u8, 0x73u8, 0x2fu8], seq![0x70u8, 0x70u8, 0x74u8, 0x2fu8, 0x6eu8, 0x6fu8, 0x74u8, 0x65u8, 0x73u8, 0x4du8, 0x61u8, 0x73u8, 0x74u8, 0x65u8, 0x72u8, 0x73u8, 0x2fu8], seq![0x70u8, 0x70u8, 0x74u8, 0x2fu8, 0x5fu8, 0x72u8, 0x65u8, 0x6cu8, 0x73u8, 0x2fu8], seq![0x70u8, 0x70u8, 0x74u8, 0x2fu8, 0x68u8, 0x61u8, 0x6eu8, 0x64u8, 0x6fu8, 0x75u8, 0x74u8, 0x4du8, 0x61u8, 0x73u8, 0x74u8, 0x65u8, 0x72u8, 0x73u8, 0x2fu8], seq![0x70u8, 0x70u8, 0x74u8, 0x2fu8, 0x6eu8, 0x6fu8, 0x74u8, 0x65u8, 0x73u8, 0x53u8, 0x6cu8, 0x69u8, 0x64u8, 0x65u8, 0x73u8, 0x2fu8], seq![0x70u8, 0x70u8, 0x74u8, 0x2fu8, 0x70u8, 0x72u8, 0x65u8, 0x73u8, 0x65u8, 0x6eu8, 0x74u8, 0x61u8, 0x74u8, 0x69u8, 0x6fu8, 0x6eu8, 0x2eu8, 0x78u8, 0x6du8, 0x6cu8], seq![0x70u8, 0x70u8, 0x74u8, 0x2fu8, 0x74u8, 0x61u8, 0x62u8, 0x6cu8, 0x65u8, 0x53u8, 0x74u8, 0x79u8, 0x6cu8, 0x65u8, 0x73u8, 0x2eu8, 0x78u8, 0x6du8, 0x6cu8], seq![0x70u8, 0x70u8, 0x74u8, 0x2fu8, 0x70u8, 0x72u8, 0x65u8, 0x73u8, 0x50u8, 0x72u8, 0x6fu8, 0x70u8, 0x73u8, 0x2eu8, 0x78u8, 0x6du8, 0x6cu8], seq![0x70u8, 0x70u8, 0x74u8, 0x2fu8, 0x76u8, 0x69u8, 0x65u8, 0x77u8, 0x50u8, 0x72u8, 0x6fu8, 0x70u8, 0x73u8, 0x2eu8, 0x78u8, 0x6du8, 0x6cu8]]
}

/// A Microsoft PowerPoint 2007 presentation: a ZIP container holding presentation entries.
pub open spec fn spec_pptx_matches(c: Seq<u8>) -> bool {
    spec_zip_scan(c, 0, pptx_paths())
}

/// True iff `content` matches as described by `spec_pptx_matches`.
pub fn pptx_detect(content: &[u8]) -> (r: bool)
    ensures
        r == spec_pptx_matches(content@),
{
    let mut paths: Vec<Vec<u8>> = Vec::new();
    paths.push(vec![0x70, 0x70, 0x74, 0x2f, 0x73, 0x6c, 0x69, 0x64, 0x65, 0x73, 0x2f]);  // "ppt/slides/"
    paths.push(vec![0x70, 0x70, 0x74, 0x2f, 0x6d, 0x65, 0x64, 0x69, 0x61, 0x2f]);  // "ppt/media/"
    paths.push(vec![0x70, 0x70, 0x74, 0x2f, 0x73, 0x6c, 0x69, 0x64, 0x65, 0x4c, 0x61, 0x79, 0x6f, 0x75, 0x74, 0x73, 0x2f]);  // "ppt/slideLayouts/"
    paths.push(vec![0x70, 0x70, 0x74, 0x2f, 0x74, 0x68, 0x65, 0x6d, 0x65, 0x2f]);  // "ppt/theme/"
    paths.push(vec![0x70, 0x70, 0x74, 0x2f, 0x73, 0x6c, 0x69, 0x64, 0x65, 0x4d, 0x61, 0x73, 0x74, 0x65, 0x72, 0x73, 0x2f]);  // "ppt/slideMasters/"
    paths.push(vec![0x70, 0x70, 0x74, 0x2f, 0x74, 0x61, 0x67, 0x73, 0x2f]);  // "ppt/tags/"
    paths.push(vec![0x70, 0x70, 0x74, 0x2f, 0x6e, 0x6f, 0x74, 0x65, 0x73, 0x4d, 0x61, 0x73, 0x74, 0x65, 0x72, 0x73, 0x2f]);  // "ppt/notesMasters/"
    paths.push(vec![0x70, 0x70, 0x74, 0x2f, 0x5f, 0x72, 0x65, 0x6c, 0x73, 0x2f]);  // "ppt/_rels/"
    paths.push(vec![0x70, 0x70, 0x74, 0x2f, 0x68, 0x61, 0x6e, 0x64, 0x6f, 0x75, 0x74, 0x4d, 0x61, 0x73, 0x74, 0x65, 0x72, 0x73, 0x2f]);  // "ppt/handoutMasters/"
    paths.push(vec![0x70, 0x70, 0x74, 0x2f, 0x6e, 0x6f, 0x74, 0x65, 0x73, 0x53, 0x6c, 0x69, 0x64, 0x65, 0x73, 0x2f]);  // "ppt/notesSlides/"
    paths.push(vec![0x70, 0x70, 0x74, 0x2f, 0x70, 0x72, 0x65, 0x73, 0x65, 0x6e, 0x74, 0x61, 0x74, 0x69, 0x6f, 0x6e, 0x2e, 0x78, 0x6d, 0x6c]);  // "ppt/presentation.xml"
    paths.push(vec![0x70, 0x70, 0x74, 0x2f, 0x74, 0x61, 0x62, 0x6c, 0x65, 0x53, 0x74, 0x79, 0x6c, 0x65, 0x73, 0x2e, 0x78, 0x6d, 0x6c]);  // "ppt/tableStyles.xml"
    paths.push(vec![0x70, 0x70, 0x74, 0x2f, 0x70, 0x72, 0x65, 0x73, 0x50, 0x72, 0x6f, 0x70, 0x73, 0x2e, 0x78, 0x6d, 0x6c]);  // "ppt/presProps.xml"
    paths.push(vec![0x70, 0x70, 0x74, 0x2f, 0x76, 0x69, 0x65, 0x77, 0x50, 0x72, 0x6f, 0x70, 0x73, 0x2e, 0x78, 0x6d, 0x6c]);  // "ppt/viewProps.xml"
    assert(seq_views(paths@) =~~= pptx_paths());
    zip_contains(content, &paths)
}


/// The ZIP entry name prefixes that identify the format.
pub open spec fn jar_paths() -> Seq<Seq<u8>> {
    seq![seq![0x4du8, 0x45u8, 0x54u8, 0x41u8, 0x2du8, 0x49u8, 0x4eu8, 0x46u8, 0x2fu8, 0x4du8, 0x41u8, 0x4eu8, 0x49u8, 0x46u8, 0x45u8, 0x53u8, 0x54u8, 0x2eu8, 0x4du8, 0x46u8]]
}

/// A Java archive: a ZIP container holding a manifest entry.
pub open spec fn spec_jar_matches(c: Seq<u8>) -> bool {
    spec_zip_scan(c, 0, jar_paths())
}

/// True iff `content` matches as described by `spec_jar_matches`.
pub fn jar_detect(content: &[u8]) -> (r: bool)
    ensures
        r == spec_jar_matches(content@),
{
    let mut paths: Vec<Vec<u8>> = Vec::new();
    paths.push(vec![0x4d, 0x45, 0x54, 0x41, 0x2d, 0x49, 0x4e, 0x46, 0x2f, 0x4d, 0x41, 0x4e, 0x49, 0x46, 0x45, 0x53, 0x54, 0x2e, 0x4d, 0x46]);  // "META-INF/MANIFEST.MF"
    assert(seq_views(paths@) =~~= jar_paths());
    zip_contains(content, &paths)
}


/// Tar checksum correctness: a full 512-byte header whose recorded checksum
/// field, decoded as octal, equals either computed sum (the checksum bytes
/// themselves counted as ASCII spaces) is detected as tar.
pub proof fn lemma_tar_checksum_detects(c: Seq<u8>)
    requires
        c.len() == 512,
        spec_parse_octal(c.subrange(148, 156)) != -1,
        spec_parse_octal(c.subrange(148, 156)) == spec_sum_unsigned(c, 512) || spec_parse_octal(
            c.subrange(148, 156),
        ) == spec_sum_signed(c, 512),
    ensures
        spec_tar_matches(c),
{
    assert(c.take(512) =~= c);
}

/// The OLE offset arithmetic on synthetic headers: with the first directory
/// sector ID zero, the root CLSID is read at byte 592 under the 512-byte
/// sector size, and at byte 4176 when the version field selects 4096-byte
/// sectors.
pub proof fn lemma_ole_clsid_offset_cases(c: Seq<u8>)
    requires
        c.len() >= 512,
        le32(c, 48) == 0,
    ensures
        !(c[26] == 0x04 && c[27] == 0x00) ==> spec_ole_clsid_offset(c) == 592,
        (c[26] == 0x04 && c[27] == 0x00) ==> spec_ole_clsid_offset(c) == 4176,
{
}

} // verus!
