//! Binary executable, font, database and calendar format detectors: Java
//! class files, Mach-O, the ELF kinds, TrueType fonts, dBase, DICOM, DjVu,
//! MARC, Zstandard, and time-zone information files.

use vstd::prelude::*;

use crate::base::spec_offset_matches;
use crate::bytes::{be32, find_from, find_sub, has_prefix, le32, read_be_u32_at, read_le_u32_at, starts_with_at, sub_at};
use vstd::slice::slice_subrange;

verus! {

/// The fat header shared by Java class files and Mach-O universal binaries:
/// eight bytes available and the `0xCAFEBABE` magic in front.
pub open spec fn spec_class_or_mach_ofat(c: Seq<u8>) -> bool {
    c.len() >= 8 && has_prefix(c, seq![0xcau8, 0xfeu8, 0xbau8, 0xbeu8])
}

/// True iff `content` opens with the `0xCAFEBABE` fat magic.
pub fn class_or_mach_ofat(content: &[u8]) -> (r: bool)
    ensures
        r == spec_class_or_mach_ofat(content@),
{
    if content.len() < 8 {
        return false;
    }
    let sig: Vec<u8> = vec![0xca, 0xfe, 0xba, 0xbe];
    assert(sig@ =~= seq![0xcau8, 0xfeu8, 0xbau8, 0xbeu8]);
    starts_with_at(content, 0, sig.as_slice())
}

/// A Java class file: the fat magic with a version byte above 30.
pub open spec fn spec_class_matches(c: Seq<u8>) -> bool {
    spec_class_or_mach_ofat(c) && c[7] > 30
}

/// True iff `content` matches as described by `spec_class_matches`.
pub fn class_detect(content: &[u8]) -> (r: bool)
    ensures
        r == spec_class_matches(content@),
{
    class_or_mach_ofat(content) && content[7] > 30
}

/// A Mach-O binary: the fat magic with a low architecture count, or one of
/// the 32/64-bit magics in either byte order.
pub open spec fn spec_macho_matches(c: Seq<u8>) -> bool {
    (spec_class_or_mach_ofat(c) && c[7] < 20) || (c.len() >= 4 && {
        let be = be32(c, 0);
        let le = le32(c, 0);
        be == 0xfeedface || le == 0xfeedface || be == 0xfeedfacf || le == 0xfeedfacf
    })
}

/// True iff `content` matches as described by `spec_macho_matches`.
pub fn macho_detect(content: &[u8]) -> (r: bool)
    ensures
        r == spec_macho_matches(content@),
{
    if class_or_mach_ofat(content) && content[7] < 20 {
        return true;
    }
    if content.len() < 4 {
        return false;
    }
    let be = read_be_u32_at(content, 0);
    let le = read_le_u32_at(content, 0);
    be == 0xfeedface || le == 0xfeedface || be == 0xfeedfacf || le == 0xfeedfacf
}


/// The ELF type field bytes marking a relocatable object, in either byte order.
pub open spec fn spec_elf_obj_matches(c: Seq<u8>) -> bool {
    c.len() > 17 && ((c[16] == 0x01 && c[17] == 0x00) || (c[16] == 0x00 && c[17] == 0x01))
}

/// True iff `content` matches as described by `spec_elf_obj_matches`.
pub fn elf_obj_detect(content: &[u8]) -> (r: bool)
    ensures
        r == spec_elf_obj_matches(content@),
{
    content.len() > 17 && ((content[16] == 0x01 && content[17] == 0x00) || (content[16] == 0x00
        && content[17] == 0x01))
}


/// The ELF type field bytes marking a executable, in either byte order.
pub open spec fn spec_elf_exe_matches(c: Seq<u8>) -> bool {
    c.len() > 17 && ((c[16] == 0x02 && c[17] == 0x00) || (c[16] == 0x00 && c[17] == 0x02))
}

/// True iff `content` matches as described by `spec_elf_exe_matches`.
pub fn elf_exe_detect(content: &[u8]) -> (r: bool)
    ensures
        r == spec_elf_exe_matches(content@),
{
    content.len() > 17 && ((content[16] == 0x02 && content[17] == 0x00) || (content[16] == 0x00
        && content[17] == 0x02))
}


/// The ELF type field bytes marking a shared library, in either byte order.
pub open spec fn spec_elf_lib_matches(c: Seq<u8>) -> bool {
    c.len() > 17 && ((c[16] == 0x03 && c[17] == 0x00) || (c[16] == 0x00 && c[17] == 0x03))
}

/// True iff `content` matches as described by `spec_elf_lib_matches`.
pub fn elf_lib_detect(content: &[u8]) -> (r: bool)
    ensures
        r == spec_elf_lib_matches(content@),
{
    content.len() > 17 && ((content[16] == 0x03 && content[17] == 0x00) || (content[16] == 0x00
        && content[17] == 0x03))
}


/// The ELF type field bytes marking a core dump, in either byte order.
pub open spec fn spec_elf_dump_matches(c: Seq<u8>) -> bool {
    c.len() > 17 && ((c[16] == 0x04 && c[17] == 0x00) || (c[16] == 0x00 && c[17] == 0x04))
}

/// True iff `content` matches as described by `spec_elf_dump_matches`.
pub fn elf_dump_detect(content: &[u8]) -> (r: bool)
    ensures
        r == spec_elf_dump_matches(content@),
{
    content.len() > 17 && ((content[16] == 0x04 && content[17] == 0x00) || (content[16] == 0x00
        && content[17] == 0x04))
}


/// A TrueType font: the version prefix, unless the buffer is really a
/// Microsoft Access database carrying its marker at byte 4.
pub open spec fn spec_ttf_matches(c: Seq<u8>) -> bool {
    &&& has_prefix(c, seq![0x00u8, 0x01u8, 0x00u8, 0x00u8])
    &&& !spec_offset_matches(c, 4, seq![0x53u8, 0x74u8, 0x61u8, 0x6eu8, 0x64u8, 0x61u8, 0x72u8, 0x64u8, 0x20u8, 0x41u8, 0x43u8, 0x45u8, 0x20u8, 0x44u8, 0x42u8])  // "Standard ACE DB"
    &&& !spec_offset_matches(c, 4, seq![0x53u8, 0x74u8, 0x61u8, 0x6eu8, 0x64u8, 0x61u8, 0x72u8, 0x64u8, 0x20u8, 0x4au8, 0x65u8, 0x74u8, 0x20u8, 0x44u8, 0x42u8])  // "Standard Jet DB"
}

/// True iff `content` matches as described by `spec_ttf_matches`.
pub fn ttf_detect(content: &[u8]) -> (r: bool)
    ensures
        r == spec_ttf_matches(content@),
{
    let sig: Vec<u8> = vec![0x00, 0x01, 0x00, 0x00];
    assert(sig@ =~= seq![0x00u8, 0x01u8, 0x00u8, 0x00u8]);
    if !starts_with_at(content, 0, sig.as_slice()) {
        return false;
    }
    let ace: Vec<u8> = vec![0x53, 0x74, 0x61, 0x6e, 0x64, 0x61, 0x72, 0x64, 0x20, 0x41, 0x43, 0x45, 0x20, 0x44, 0x42];  // "Standard ACE DB"
    assert(ace@ =~= seq![0x53u8, 0x74u8, 0x61u8, 0x6eu8, 0x64u8, 0x61u8, 0x72u8, 0x64u8, 0x20u8, 0x41u8, 0x43u8, 0x45u8, 0x20u8, 0x44u8, 0x42u8]);  // "Standard ACE DB"
    let jet: Vec<u8> = vec![0x53, 0x74, 0x61, 0x6e, 0x64, 0x61, 0x72, 0x64, 0x20, 0x4a, 0x65, 0x74, 0x20, 0x44, 0x42];  // "Standard Jet DB"
    assert(jet@ =~= seq![0x53u8, 0x74u8, 0x61u8, 0x6eu8, 0x64u8, 0x61u8, 0x72u8, 0x64u8, 0x20u8, 0x4au8, 0x65u8, 0x74u8, 0x20u8, 0x44u8, 0x42u8]);  // "Standard Jet DB"
    !crate::base::offset_detect(4, ace.as_slice(), content) && !crate::base::offset_detect(
        4,
        jet.as_slice(),
        content,
    )
}


/// A TrueType Collection font: the `ttcf` tag with a known version word.
pub open spec fn spec_ttc_matches(c: Seq<u8>) -> bool {
    &&& c.len() > 7
    &&& has_prefix(c, seq![0x74u8, 0x74u8, 0x63u8, 0x66u8])  // "ttcf"
    &&& (sub_at(c, 4, seq![0x00u8, 0x01u8, 0x00u8, 0x00u8]) || sub_at(
        c,
        4,
        seq![0x00u8, 0x02u8, 0x00u8, 0x00u8],
    ))
}

/// True iff `content` matches as described by `spec_ttc_matches`.
pub fn ttc_detect(content: &[u8]) -> (r: bool)
    ensures
        r == spec_ttc_matches(content@),
{
    if content.len() <= 7 {
        return false;
    }
    let tag: Vec<u8> = vec![0x74, 0x74, 0x63, 0x66];  // "ttcf"
    assert(tag@ =~= seq![0x74u8, 0x74u8, 0x63u8, 0x66u8]);  // "ttcf"
    let v1: Vec<u8> = vec![0x00, 0x01, 0x00, 0x00];
    assert(v1@ =~= seq![0x00u8, 0x01u8, 0x00u8, 0x00u8]);
    let v2: Vec<u8> = vec![0x00, 0x02, 0x00, 0x00];
    assert(v2@ =~= seq![0x00u8, 0x02u8, 0x00u8, 0x00u8]);
    starts_with_at(content, 0, tag.as_slice()) && (starts_with_at(content, 4, v1.as_slice())
        || starts_with_at(content, 4, v2.as_slice()))
}

/// An Embedded OpenType font: the `LP` tag at byte 34 with a known version
/// triple at byte 8.
pub open spec fn spec_eot_matches(c: Seq<u8>) -> bool {
    &&& c.len() > 35
    &&& sub_at(c, 34, seq![0x4cu8, 0x50u8])
    &&& (sub_at(c, 8, seq![0x02u8, 0x00u8, 0x01u8]) || sub_at(c, 8, seq![0x01u8, 0x00u8, 0x00u8])
        || sub_at(c, 8, seq![0x02u8, 0x00u8, 0x02u8]))
}

/// True iff `content` matches as described by `spec_eot_matches`.
pub fn eot_detect(content: &[u8]) -> (r: bool)
    ensures
        r == spec_eot_matches(content@),
{
    if content.len() <= 35 {
        return false;
    }
    let lp: Vec<u8> = vec![0x4c, 0x50];
    assert(lp@ =~= seq![0x4cu8, 0x50u8]);
    let a: Vec<u8> = vec![0x02, 0x00, 0x01];
    assert(a@ =~= seq![0x02u8, 0x00u8, 0x01u8]);
    let b: Vec<u8> = vec![0x01, 0x00, 0x00];
    assert(b@ =~= seq![0x01u8, 0x00u8, 0x00u8]);
    let d: Vec<u8> = vec![0x02, 0x00, 0x02];
    assert(d@ =~= seq![0x02u8, 0x00u8, 0x02u8]);
    starts_with_at(content, 34, lp.as_slice()) && (starts_with_at(content, 8, a.as_slice())
        || starts_with_at(content, 8, b.as_slice()) || starts_with_at(content, 8, d.as_slice()))
}


/// A dBase file: a plausible update date, zeroed reserved bytes, a valid
/// production index flag, and a known table type byte in front.
pub open spec fn spec_dbf_matches(c: Seq<u8>) -> bool {
    &&& c.len() >= 68
    &&& 0 < c[2] < 13
    &&& 0 < c[3] < 32
    &&& c[12] == 0x00
    &&& c[13] == 0x00
    &&& c[30] == 0x00
    &&& c[31] == 0x00
    &&& c[28] <= 0x01
    &&& (c[0] == 0x02 || c[0] == 0x03 || c[0] == 0x04 || c[0] == 0x05 || c[0] == 0x30 || c[0] == 0x31 || c[0] == 0x32 || c[0] == 0x42 || c[0] == 0x62 || c[0] == 0x7b || c[0] == 0x82 || c[0] == 0x83 || c[0] == 0x87 || c[0] == 0x8a || c[0] == 0x8b || c[0] == 0x8e || c[0] == 0xb3 || c[0] == 0xcb || c[0] == 0xe5 || c[0] == 0xf5 || c[0] == 0xf4 || c[0] == 0xfb)
}

/// True iff `content` matches as described by `spec_dbf_matches`.
pub fn dbf_detect(content: &[u8]) -> (r: bool)
    ensures
        r == spec_dbf_matches(content@),
{
    if content.len() < 68 {
        return false;
    }
    if !(0 < content[2] && content[2] < 13 && 0 < content[3] && content[3] < 32) {
        return false;
    }
    if content[12] != 0x00 || content[13] != 0x00 || content[30] != 0x00 || content[31] != 0x00 {
        return false;
    }
    if content[28] > 0x01 {
        return false;
    }
    content[0] == 0x02 || content[0] == 0x03 || content[0] == 0x04 || content[0] == 0x05 || content[0] == 0x30 || content[0] == 0x31 || content[0] == 0x32 || content[0] == 0x42 || content[0] == 0x62 || content[0] == 0x7b || content[0] == 0x82 || content[0] == 0x83 || content[0] == 0x87 || content[0] == 0x8a || content[0] == 0x8b || content[0] == 0x8e || content[0] == 0xb3 || content[0] == 0xcb || content[0] == 0xe5 || content[0] == 0xf5 || content[0] == 0xf4 || content[0] == 0xfb
}

/// A DICOM medical file: the `DICM` tag at byte 128.
pub open spec fn spec_dcm_matches(c: Seq<u8>) -> bool {
    c.len() > 132 && sub_at(c, 128, seq![0x44u8, 0x49u8, 0x43u8, 0x4du8])  // "DICM"
}

/// True iff `content` matches as described by `spec_dcm_matches`.
pub fn dcm_detect(content: &[u8]) -> (r: bool)
    ensures
        r == spec_dcm_matches(content@),
{
    if content.len() <= 132 {
        return false;
    }
    let tag: Vec<u8> = vec![0x44, 0x49, 0x43, 0x4d];  // "DICM"
    assert(tag@ =~= seq![0x44u8, 0x49u8, 0x43u8, 0x4du8]);  // "DICM"
    starts_with_at(content, 128, tag.as_slice())
}


/// A DjVu file: the `AT&TFORM` container whose remainder is exactly one of
/// the four chunk tags.
pub open spec fn spec_djvu_matches(c: Seq<u8>) -> bool {
    &&& c.len() >= 12
    &&& has_prefix(c, seq![0x41u8, 0x54u8, 0x26u8, 0x54u8, 0x46u8, 0x4fu8, 0x52u8, 0x4du8])  // "AT&TFORM"
    &&& (c.skip(12) == seq![0x44u8, 0x4au8, 0x56u8, 0x4du8] || c.skip(12) == seq![0x44u8, 0x4au8, 0x56u8, 0x55u8] || c.skip(12)  // "DJVM", "DJVU"
        == seq![0x44u8, 0x4au8, 0x56u8, 0x49u8] || c.skip(12) == seq![0x54u8, 0x48u8, 0x55u8, 0x4du8])  // "DJVI", "THUM"
}

/// True iff `content` matches as described by `spec_djvu_matches`.
pub fn djvu_detect(content: &[u8]) -> (r: bool)
    ensures
        r == spec_djvu_matches(content@),
{
    if content.len() < 12 {
        return false;
    }
    let sig: Vec<u8> = vec![0x41, 0x54, 0x26, 0x54, 0x46, 0x4f, 0x52, 0x4d];  // "AT&TFORM"
    assert(sig@ =~= seq![0x41u8, 0x54u8, 0x26u8, 0x54u8, 0x46u8, 0x4fu8, 0x52u8, 0x4du8]);  // "AT&TFORM"
    if !starts_with_at(content, 0, sig.as_slice()) {
        return false;
    }
    let rest = slice_subrange(content, 12, content.len());
    proof {
        assert(rest@ =~= content@.skip(12));
    }
    let m: Vec<u8> = vec![0x44, 0x4a, 0x56, 0x4d];  // "DJVM"
    assert(m@ =~= seq![0x44u8, 0x4au8, 0x56u8, 0x4du8]);  // "DJVM"
    let u: Vec<u8> = vec![0x44, 0x4a, 0x56, 0x55];  // "DJVU"
    assert(u@ =~= seq![0x44u8, 0x4au8, 0x56u8, 0x55u8]);  // "DJVU"
    let i: Vec<u8> = vec![0x44, 0x4a, 0x56, 0x49];  // "DJVI"
    assert(i@ =~= seq![0x44u8, 0x4au8, 0x56u8, 0x49u8]);  // "DJVI"
    let t: Vec<u8> = vec![0x54, 0x48, 0x55, 0x4d];  // "THUM"
    assert(t@ =~= seq![0x54u8, 0x48u8, 0x55u8, 0x4du8]);  // "THUM"
    crate::base::bytes_eq(rest, m.as_slice()) || crate::base::bytes_eq(rest, u.as_slice())
        || crate::base::bytes_eq(rest, i.as_slice()) || crate::base::bytes_eq(rest, t.as_slice())
}

/// A MARC21 cataloging record: the `4500` leader tail at byte 20, the
/// five-digit record length opening the leader, and a field terminator
/// within the first 2048 bytes.
pub open spec fn spec_marc_matches(c: Seq<u8>) -> bool {
    &&& c.len() >= 24
    &&& sub_at(c, 20, seq![0x34u8, 0x35u8, 0x30u8, 0x30u8])  // "4500"
    &&& (forall|i: int| 0 <= i < 5 ==> 0x30 <= #[trigger] c[i] <= 0x39)
    &&& find_from(c.take(if c.len() < 2048 { c.len() as int } else { 2048 }), seq![0x1eu8], 0)
        >= 0
}

/// True iff `content` matches as described by `spec_marc_matches`.
pub fn marc_detect(content: &[u8]) -> (r: bool)
    ensures
        r == spec_marc_matches(content@),
{
    if content.len() < 24 {
        return false;
    }
    let tail: Vec<u8> = vec![0x34, 0x35, 0x30, 0x30];  // "4500"
    assert(tail@ =~= seq![0x34u8, 0x35u8, 0x30u8, 0x30u8]);  // "4500"
    if !starts_with_at(content, 20, tail.as_slice()) {
        return false;
    }
    let mut i: usize = 0;
    while i < 5
        invariant
            content@.len() >= 24,
            i <= 5,
            forall|j: int| 0 <= j < i ==> 0x30 <= #[trigger] content@[j] <= 0x39,
        decreases 5 - i,
    {
        if !(content[i] >= 0x30 && content[i] <= 0x39) {
            return false;
        }
        i += 1;
    }
    let bound = if content.len() < 2048 {
        content.len()
    } else {
        2048
    };
    let head = slice_subrange(content, 0, bound);
    proof {
        assert(head@ =~= content@.take(bound as int));
    }
    let term: Vec<u8> = vec![0x1e];
    assert(term@ =~= seq![0x1eu8]);
    match find_sub(head, term.as_slice()) {
        Some(_) => true,
        None => false,
    }
}

/// A Zstandard frame: a known first byte followed by the frame magic tail.
pub open spec fn spec_zstd_matches(c: Seq<u8>) -> bool {
    &&& c.len() >= 4
    &&& ((0x22 <= c[0] && c[0] <= 0x28) || c[0] == 0x1e)
    &&& sub_at(c, 1, seq![0xb5u8, 0x2fu8, 0xfdu8])
}

/// True iff `content` matches as described by `spec_zstd_matches`.
pub fn zstd_detect(content: &[u8]) -> (r: bool)
    ensures
        r == spec_zstd_matches(content@),
{
    if content.len() < 4 {
        return false;
    }
    let tailsig: Vec<u8> = vec![0xb5, 0x2f, 0xfd];
    assert(tailsig@ =~= seq![0xb5u8, 0x2fu8, 0xfdu8]);
    ((0x22 <= content[0] && content[0] <= 0x28) || content[0] == 0x1e) && starts_with_at(
        content,
        1,
        tailsig.as_slice(),
    )
}

/// A Time Zone Information Format file: the `TZif` magic, a non-zero type
/// count word at byte 36, and a known version byte.
pub open spec fn spec_tzif_matches(c: Seq<u8>) -> bool {
    &&& c.len() >= 44
    &&& has_prefix(c, seq![0x54u8, 0x5au8, 0x69u8, 0x66u8])  // "TZif"
    &&& be32(c, 36) != 0
    &&& (c[4] == 0x00 || c[4] == 0x32 || c[4] == 0x33)
}

/// True iff `content` matches as described by `spec_tzif_matches`.
pub fn tzif_detect(content: &[u8]) -> (r: bool)
    ensures
        r == spec_tzif_matches(content@),
{
    if content.len() < 44 {
        return false;
    }
    let magic: Vec<u8> = vec![0x54, 0x5a, 0x69, 0x66];  // "TZif"
    assert(magic@ =~= seq![0x54u8, 0x5au8, 0x69u8, 0x66u8]);  // "TZif"
    if !starts_with_at(content, 0, magic.as_slice()) {
        return false;
    }
    if read_be_u32_at(content, 36) == 0 {
        return false;
    }
    content[4] == 0x00 || content[4] == 0x32 || content[4] == 0x33
}

} // verus!
