//! Audio and video container detectors: MP3, RIFF families, Ogg streams,
//! MPEG, the EBML/Matroska probe behind WebM and MKV, and the shapefile
//! check.

use vstd::prelude::*;

use crate::bytes::{be16, be32, find_from, find_sub, has_prefix, le32, read_be_u32_at, read_be_u16_at, read_le_u32_at, starts_with_at, sub_at};
use vstd::slice::slice_subrange;

verus! {

/// An MP3 file: an ID3v2 tag, or an MPEG ADTS layer-III frame header.
pub open spec fn spec_mp3_matches(c: Seq<u8>) -> bool {
    c.len() >= 3 && (has_prefix(c, seq![0x49u8, 0x44u8, 0x33u8]) || {
        let v = (be16(c, 0) as u16) & 0xfffe;
        v == 0xfffa || v == 0xfff2 || v == 0xffe2
    })
}

/// True iff `content` matches as described by `spec_mp3_matches`.
pub fn mp3_detect(content: &[u8]) -> (r: bool)
    ensures
        r == spec_mp3_matches(content@),
{
    if content.len() < 3 {
        return false;
    }
    let id3: Vec<u8> = vec![0x49, 0x44, 0x33];  // "ID3"
    assert(id3@ =~= seq![0x49u8, 0x44u8, 0x33u8]);  // "ID3"
    if starts_with_at(content, 0, id3.as_slice()) {
        return true;
    }
    let v = read_be_u16_at(content, 0);
    proof {
        assert(v == be16(content@, 0) as u16);
    }
    let m = v & 0xfffe;
    m == 0xfffa || m == 0xfff2 || m == 0xffe2
}


/// A Waveform Audio File Format file: a RIFF container with the WAVE form type.
pub open spec fn spec_wav_matches(c: Seq<u8>) -> bool {
    c.len() >= 12 && (sub_at(c, 0, seq![0x52u8, 0x49u8, 0x46u8, 0x46u8]) && sub_at(c, 8, seq![0x57u8, 0x41u8, 0x56u8, 0x45u8]))  // "RIFF", "WAVE"
}

/// True iff `content` matches as described by `spec_wav_matches`.
pub fn wav_detect(content: &[u8]) -> (r: bool)
    ensures
        r == spec_wav_matches(content@),
{
    if !(content.len() >= 12) {
        return false;
    }
    let s0: Vec<u8> = vec![0x52, 0x49, 0x46, 0x46];  // "RIFF"
    assert(s0@ =~= seq![0x52u8, 0x49u8, 0x46u8, 0x46u8]);  // "RIFF"
    let s1: Vec<u8> = vec![0x57, 0x41, 0x56, 0x45];  // "WAVE"
    assert(s1@ =~= seq![0x57u8, 0x41u8, 0x56u8, 0x45u8]);  // "WAVE"
    starts_with_at(content, 0, s0.as_slice()) && starts_with_at(content, 8, s1.as_slice())
}


/// An Audio Interchange File Format file: a FORM container with the AIFF form type.
pub open spec fn spec_aiff_matches(c: Seq<u8>) -> bool {
    c.len() >= 12 && (sub_at(c, 0, seq![0x46u8, 0x4fu8, 0x52u8, 0x4du8]) && sub_at(c, 8, seq![0x41u8, 0x49u8, 0x46u8, 0x46u8]))  // "FORM", "AIFF"
}

/// True iff `content` matches as described by `spec_aiff_matches`.
pub fn aiff_detect(content: &[u8]) -> (r: bool)
    ensures
        r == spec_aiff_matches(content@),
{
    if !(content.len() >= 12) {
        return false;
    }
    let s0: Vec<u8> = vec![0x46, 0x4f, 0x52, 0x4d];  // "FORM"
    assert(s0@ =~= seq![0x46u8, 0x4fu8, 0x52u8, 0x4du8]);  // "FORM"
    let s1: Vec<u8> = vec![0x41, 0x49, 0x46, 0x46];  // "AIFF"
    assert(s1@ =~= seq![0x41u8, 0x49u8, 0x46u8, 0x46u8]);  // "AIFF"
    starts_with_at(content, 0, s0.as_slice()) && starts_with_at(content, 8, s1.as_slice())
}


/// A Qualcomm Pure Voice file: a RIFF container with the QLCM form type.
pub open spec fn spec_qcp_matches(c: Seq<u8>) -> bool {
    c.len() >= 12 && (sub_at(c, 0, seq![0x52u8, 0x49u8, 0x46u8, 0x46u8]) && sub_at(c, 8, seq![0x51u8, 0x4cu8, 0x43u8, 0x4du8]))  // "RIFF", "QLCM"
}

/// True iff `content` matches as described by `spec_qcp_matches`.
pub fn qcp_detect(content: &[u8]) -> (r: bool)
    ensures
        r == spec_qcp_matches(content@),
{
    if !(content.len() >= 12) {
        return false;
    }
    let s0: Vec<u8> = vec![0x52, 0x49, 0x46, 0x46];  // "RIFF"
    assert(s0@ =~= seq![0x52u8, 0x49u8, 0x46u8, 0x46u8]);  // "RIFF"
    let s1: Vec<u8> = vec![0x51, 0x4c, 0x43, 0x4d];  // "QLCM"
    assert(s1@ =~= seq![0x51u8, 0x4cu8, 0x43u8, 0x4du8]);  // "QLCM"
    starts_with_at(content, 0, s0.as_slice()) && starts_with_at(content, 8, s1.as_slice())
}


/// An audio Ogg stream: a known audio codec header at byte 28.
pub open spec fn spec_ogg_audio_matches(c: Seq<u8>) -> bool {
    c.len() >= 37 && (sub_at(c, 28, seq![0x7fu8, 0x46u8, 0x4cu8, 0x41u8, 0x43u8]) || sub_at(c, 28, seq![0x01u8, 0x76u8, 0x6fu8, 0x72u8, 0x62u8, 0x69u8, 0x73u8]) || sub_at(c, 28, seq![0x4fu8, 0x70u8, 0x75u8, 0x73u8, 0x48u8, 0x65u8, 0x61u8, 0x64u8]) || sub_at(c, 28, seq![0x53u8, 0x70u8, 0x65u8, 0x65u8, 0x78u8, 0x20u8, 0x20u8, 0x20u8]))  // "OpusHead", "Speex   "
}

/// True iff `content` matches as described by `spec_ogg_audio_matches`.
pub fn ogg_audio_detect(content: &[u8]) -> (r: bool)
    ensures
        r == spec_ogg_audio_matches(content@),
{
    if !(content.len() >= 37) {
        return false;
    }
    let s0: Vec<u8> = vec![0x7f, 0x46, 0x4c, 0x41, 0x43];
    assert(s0@ =~= seq![0x7fu8, 0x46u8, 0x4cu8, 0x41u8, 0x43u8]);
    let s1: Vec<u8> = vec![0x01, 0x76, 0x6f, 0x72, 0x62, 0x69, 0x73];
    assert(s1@ =~= seq![0x01u8, 0x76u8, 0x6fu8, 0x72u8, 0x62u8, 0x69u8, 0x73u8]);
    let s2: Vec<u8> = vec![0x4f, 0x70, 0x75, 0x73, 0x48, 0x65, 0x61, 0x64];  // "OpusHead"
    assert(s2@ =~= seq![0x4fu8, 0x70u8, 0x75u8, 0x73u8, 0x48u8, 0x65u8, 0x61u8, 0x64u8]);  // "OpusHead"
    let s3: Vec<u8> = vec![0x53, 0x70, 0x65, 0x65, 0x78, 0x20, 0x20, 0x20];  // "Speex   "
    assert(s3@ =~= seq![0x53u8, 0x70u8, 0x65u8, 0x65u8, 0x78u8, 0x20u8, 0x20u8, 0x20u8]);  // "Speex   "
    starts_with_at(content, 28, s0.as_slice()) || starts_with_at(content, 28, s1.as_slice()) || starts_with_at(content, 28, s2.as_slice()) || starts_with_at(content, 28, s3.as_slice())
}


/// A video Ogg stream: a known video codec header at byte 28.
pub open spec fn spec_ogg_video_matches(c: Seq<u8>) -> bool {
    c.len() >= 37 && (sub_at(c, 28, seq![0x80u8, 0x74u8, 0x68u8, 0x65u8, 0x6fu8, 0x72u8, 0x61u8]) || sub_at(c, 28, seq![0x66u8, 0x69u8, 0x73u8, 0x68u8, 0x65u8, 0x61u8, 0x64u8, 0x00u8]) || sub_at(c, 28, seq![0x01u8, 0x76u8, 0x69u8, 0x64u8, 0x65u8, 0x6fu8, 0x00u8, 0x00u8, 0x00u8]))
}

/// True iff `content` matches as described by `spec_ogg_video_matches`.
pub fn ogg_video_detect(content: &[u8]) -> (r: bool)
    ensures
        r == spec_ogg_video_matches(content@),
{
    if !(content.len() >= 37) {
        return false;
    }
    let s0: Vec<u8> = vec![0x80, 0x74, 0x68, 0x65, 0x6f, 0x72, 0x61];
    assert(s0@ =~= seq![0x80u8, 0x74u8, 0x68u8, 0x65u8, 0x6fu8, 0x72u8, 0x61u8]);
    let s1: Vec<u8> = vec![0x66, 0x69, 0x73, 0x68, 0x65, 0x61, 0x64, 0x00];
    assert(s1@ =~= seq![0x66u8, 0x69u8, 0x73u8, 0x68u8, 0x65u8, 0x61u8, 0x64u8, 0x00u8]);
    let s2: Vec<u8> = vec![0x01, 0x76, 0x69, 0x64, 0x65, 0x6f, 0x00, 0x00, 0x00];
    assert(s2@ =~= seq![0x01u8, 0x76u8, 0x69u8, 0x64u8, 0x65u8, 0x6fu8, 0x00u8, 0x00u8, 0x00u8]);
    starts_with_at(content, 28, s0.as_slice()) || starts_with_at(content, 28, s1.as_slice()) || starts_with_at(content, 28, s2.as_slice())
}


/// An Audio Video Interleaved file: a RIFF container with the AVI LIST form.
pub open spec fn spec_avi_matches(c: Seq<u8>) -> bool {
    c.len() > 16 && (sub_at(c, 0, seq![0x52u8, 0x49u8, 0x46u8, 0x46u8]) && sub_at(c, 8, seq![0x41u8, 0x56u8, 0x49u8, 0x20u8, 0x4cu8, 0x49u8, 0x53u8, 0x54u8]))  // "RIFF", "AVI LIST"
}

/// True iff `content` matches as described by `spec_avi_matches`.
pub fn avi_detect(content: &[u8]) -> (r: bool)
    ensures
        r == spec_avi_matches(content@),
{
    if !(content.len() > 16) {
        return false;
    }
    let s0: Vec<u8> = vec![0x52, 0x49, 0x46, 0x46];  // "RIFF"
    assert(s0@ =~= seq![0x52u8, 0x49u8, 0x46u8, 0x46u8]);  // "RIFF"
    let s1: Vec<u8> = vec![0x41, 0x56, 0x49, 0x20, 0x4c, 0x49, 0x53, 0x54];  // "AVI LIST"
    assert(s1@ =~= seq![0x41u8, 0x56u8, 0x49u8, 0x20u8, 0x4cu8, 0x49u8, 0x53u8, 0x54u8]);  // "AVI LIST"
    starts_with_at(content, 0, s0.as_slice()) && starts_with_at(content, 8, s1.as_slice())
}


/// A Moving Picture Experts Group stream: a start code followed by a system
/// or video stream ID byte.
pub open spec fn spec_mpeg_matches(c: Seq<u8>) -> bool {
    c.len() > 3 && has_prefix(c, seq![0x00u8, 0x00u8, 0x01u8]) && 0xb0 <= c[3] && c[3] <= 0xbf
}

/// True iff `content` matches as described by `spec_mpeg_matches`.
pub fn mpeg_detect(content: &[u8]) -> (r: bool)
    ensures
        r == spec_mpeg_matches(content@),
{
    if content.len() <= 3 {
        return false;
    }
    let sig: Vec<u8> = vec![0x00, 0x00, 0x01];
    assert(sig@ =~= seq![0x00u8, 0x00u8, 0x01u8]);
    starts_with_at(content, 0, sig.as_slice()) && content[3] >= 0xb0 && content[3] <= 0xbf
}

/// One step of the EBML variable-length-integer width count: test the bit
/// under `mask`, moving down from the most significant bit.
pub open spec fn spec_vint_step(v: usize, mask: usize, num: usize) -> usize
    decreases 8 - num,
    when 1 <= num <= 8
{
    if num < 8 && v & mask == 0 {
        spec_vint_step(v, (mask / 2) as usize, (num + 1) as usize)
    } else {
        num
    }
}

/// The width in bytes of an EBML variable-length integer whose first byte is
/// `v`: one more than the number of leading zero bits, capped at eight.
pub open spec fn spec_vint_width(v: usize) -> usize {
    spec_vint_step(v, 128, 1)
}

/// Counts the width of an EBML variable-length integer from its first byte.
pub fn vint_width(v: usize) -> (r: usize)
    ensures
        r == spec_vint_width(v),
        1 <= r <= 8,
{
    let mut mask: usize = 128;
    let mut num: usize = 1;
    while num < 8 && v & mask == 0
        invariant
            1 <= num <= 8,
            spec_vint_step(v, 128, 1) == spec_vint_step(v, mask as usize, num as usize),
        decreases 8 - num,
    {
        mask = mask / 2;
        num += 1;
    }
    num
}

/// The EBML DocType element ID `\x42\x82`.
pub open spec fn doctype_id() -> Seq<u8> {
    seq![0x42u8, 0x82u8]
}

/// The Matroska DocType probe: within the first 4096 bytes the DocType
/// element ID is found past the start; one length byte follows it, whose
/// vint width says how many bytes later the doctype string begins; that
/// string must start with `ft`.
pub open spec fn spec_file_type_name_present(c: Seq<u8>, ft: Seq<u8>) -> bool {
    let bound = if c.len() < 4096 { c.len() as int } else { 4096 };
    let i = find_from(c.take(bound), doctype_id(), 0);
    &&& i > 0
    &&& c.len() > i + 2
    &&& {
        let n = spec_vint_width(c[i + 2] as usize);
        c.len() > i + 2 + n && sub_at(c, i + 2 + n, ft)
    }
}

/// True iff the Matroska DocType probe finds `fl_type` as the doctype.
pub fn is_file_type_name_present(content: &[u8], fl_type: &[u8]) -> (r: bool)
    ensures
        r == spec_file_type_name_present(content@, fl_type@),
{
    let bound = if content.len() < 4096 {
        content.len()
    } else {
        4096
    };
    let head = slice_subrange(content, 0, bound);
    proof {
        assert(head@ =~= content@.take(bound as int));
    }
    let id: Vec<u8> = vec![0x42, 0x82];
    assert(id@ =~= doctype_id());
    let i = match find_sub(head, id.as_slice()) {
        Some(i) => i,
        None => {
            return false;
        },
    };
    proof {
        crate::bytes::lemma_find_from_bounds(head@, doctype_id(), 0);
    }
    if i == 0 || content.len() <= i + 2 {
        return false;
    }
    let n = vint_width(content[i + 2] as usize);
    if content.len() <= i + 2 + n {
        return false;
    }
    starts_with_at(content, i + 2 + n, fl_type)
}

/// The EBML master-element signature that opens a Matroska container.
pub open spec fn ebml_sig() -> Seq<u8> {
    seq![0x1au8, 0x45u8, 0xdfu8, 0xa3u8]
}

/// A Matroska container whose DocType probe reports `ft`.
pub open spec fn spec_matroska_matches(c: Seq<u8>, ft: Seq<u8>) -> bool {
    has_prefix(c, ebml_sig()) && spec_file_type_name_present(c, ft)
}

/// True iff `content` is a Matroska container with doctype `fl_type`.
pub fn is_matroska_file_type_matched(content: &[u8], fl_type: &[u8]) -> (r: bool)
    ensures
        r == spec_matroska_matches(content@, fl_type@),
{
    let sig: Vec<u8> = vec![0x1a, 0x45, 0xdf, 0xa3];
    assert(sig@ =~= ebml_sig());
    if starts_with_at(content, 0, sig.as_slice()) {
        return is_file_type_name_present(content, fl_type);
    }
    false
}

/// A WebM file: a Matroska container with the `webm` doctype.
pub open spec fn spec_webm_matches(c: Seq<u8>) -> bool {
    spec_matroska_matches(c, seq![0x77u8, 0x65u8, 0x62u8, 0x6du8])  // "webm"
}

/// True iff `content` matches as described by `spec_webm_matches`.
pub fn webm_detect(content: &[u8]) -> (r: bool)
    ensures
        r == spec_webm_matches(content@),
{
    let ft: Vec<u8> = vec![0x77, 0x65, 0x62, 0x6d];  // "webm"
    assert(ft@ =~= seq![0x77u8, 0x65u8, 0x62u8, 0x6du8]);  // "webm"
    is_matroska_file_type_matched(content, ft.as_slice())
}

/// A Matroska video file: a Matroska container with the `matroska` doctype.
pub open spec fn spec_mkv_matches(c: Seq<u8>) -> bool {
    spec_matroska_matches(c, seq![0x6du8, 0x61u8, 0x74u8, 0x72u8, 0x6fu8, 0x73u8, 0x6bu8, 0x61u8])  // "matroska"
}

/// True iff `content` matches as described by `spec_mkv_matches`.
pub fn mkv_detect(content: &[u8]) -> (r: bool)
    ensures
        r == spec_mkv_matches(content@),
{
    let ft: Vec<u8> = vec![0x6d, 0x61, 0x74, 0x72, 0x6f, 0x73, 0x6b, 0x61];  // "matroska"
    assert(ft@ =~= seq![0x6du8, 0x61u8, 0x74u8, 0x72u8, 0x6fu8, 0x73u8, 0x6bu8, 0x61u8]);  // "matroska"
    is_matroska_file_type_matched(content, ft.as_slice())
}

/// A shapefile: six fixed big-endian header words, the little-endian version
/// 1000, and a known shape type code at byte 108.
pub open spec fn spec_shp_matches(c: Seq<u8>) -> bool {
    &&& c.len() >= 112
    &&& be32(c, 0) == 9994
    &&& be32(c, 4) == 0
    &&& be32(c, 8) == 0
    &&& be32(c, 12) == 0
    &&& be32(c, 16) == 0
    &&& be32(c, 20) == 0
    &&& le32(c, 28) == 1000
    &&& {
        let st = le32(c, 108);
        ||| st == 0
        ||| st == 1
        ||| st == 3
        ||| st == 5
        ||| st == 8
        ||| st == 11
        ||| st == 13
        ||| st == 15
        ||| st == 18
        ||| st == 21
        ||| st == 23
        ||| st == 25
        ||| st == 28
        ||| st == 31
    }
}

/// True iff `content` matches as described by `spec_shp_matches`.
pub fn shp_detect(content: &[u8]) -> (r: bool)
    ensures
        r == spec_shp_matches(content@),
{
    if content.len() < 112 {
        return false;
    }
    if !(read_be_u32_at(content, 0) == 9994 && read_be_u32_at(content, 4) == 0 && read_be_u32_at(
        content,
        8,
    ) == 0 && read_be_u32_at(content, 12) == 0 && read_be_u32_at(content, 16) == 0
        && read_be_u32_at(content, 20) == 0 && read_le_u32_at(content, 28) == 1000) {
        return false;
    }
    let st = read_le_u32_at(content, 108);
    st == 0 || st == 1 || st == 3 || st == 5 || st == 8 || st == 11 || st == 13 || st == 15 || st
        == 18 || st == 21 || st == 23 || st == 25 || st == 28 || st == 31
}

} // verus!
