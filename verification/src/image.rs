//! Image format detectors that need more than a plain prefix: JPEG 2000
//! boxes, WebP, CAD drawings, and JPEG XL.

use vstd::prelude::*;

use crate::bytes::{has_prefix, starts_with_at, sub_at};
use vstd::slice::slice_subrange;

verus! {

/// A JPEG 2000 box: the `jP` signature box at byte 4 and the given brand at
/// byte 20.
pub open spec fn spec_jpeg2k_matches(sig: Seq<u8>, c: Seq<u8>) -> bool {
    &&& c.len() >= 24
    &&& (sub_at(c, 4, seq![0x6au8, 0x50u8, 0x20u8, 0x20u8]) || sub_at(
        c,
        4,
        seq![0x6au8, 0x50u8, 0x32u8, 0x20u8],
    ))
    &&& sub_at(c, 20, sig)
}

/// True iff `content` is a JPEG 2000 container with brand `sig` at byte 20.
pub fn jpeg2k_detect(sig: &[u8], content: &[u8]) -> (r: bool)
    ensures
        r == spec_jpeg2k_matches(sig@, content@),
{
    if content.len() < 24 {
        return false;
    }
    let a: Vec<u8> = vec![0x6a, 0x50, 0x20, 0x20];  // "jP  "
    assert(a@ =~= seq![0x6au8, 0x50u8, 0x20u8, 0x20u8]);  // "jP  "
    let b: Vec<u8> = vec![0x6a, 0x50, 0x32, 0x20];  // "jP2 "
    assert(b@ =~= seq![0x6au8, 0x50u8, 0x32u8, 0x20u8]);  // "jP2 "
    if !(starts_with_at(content, 4, a.as_slice()) || starts_with_at(content, 4, b.as_slice())) {
        return false;
    }
    starts_with_at(content, 20, sig)
}

/// A WebP image: a RIFF container with the WEBP form type.
pub open spec fn spec_webp_matches(c: Seq<u8>) -> bool {
    &&& c.len() > 12
    &&& sub_at(c, 0, seq![0x52u8, 0x49u8, 0x46u8, 0x46u8])  // "RIFF"
    &&& sub_at(c, 8, seq![0x57u8, 0x45u8, 0x42u8, 0x50u8])  // "WEBP"
}

/// True iff `content` matches as described by `spec_webp_matches`.
pub fn webp_detect(content: &[u8]) -> (r: bool)
    ensures
        r == spec_webp_matches(content@),
{
    if content.len() <= 12 {
        return false;
    }
    let riff: Vec<u8> = vec![0x52, 0x49, 0x46, 0x46];  // "RIFF"
    assert(riff@ =~= seq![0x52u8, 0x49u8, 0x46u8, 0x46u8]);  // "RIFF"
    let webp: Vec<u8> = vec![0x57, 0x45, 0x42, 0x50];  // "WEBP"
    assert(webp@ =~= seq![0x57u8, 0x45u8, 0x42u8, 0x50u8]);  // "WEBP"
    starts_with_at(content, 0, riff.as_slice()) && starts_with_at(content, 8, webp.as_slice())
}

/// A CAD drawing: the `AC` tag followed by one of the known version strings.
pub open spec fn spec_dwg_matches(c: Seq<u8>) -> bool {
    &&& c.len() >= 6
    &&& c[0] == 0x41
    &&& c[1] == 0x43
    &&& (sub_at(c, 2, seq![0x31u8, 0x2eu8, 0x34u8, 0x30u8]) || sub_at(c, 2, seq![0x31u8, 0x2eu8, 0x35u8, 0x30u8]) || sub_at(c, 2, seq![0x32u8, 0x2eu8, 0x31u8, 0x30u8]) || sub_at(c, 2, seq![0x31u8, 0x30u8, 0x30u8, 0x32u8]) || sub_at(c, 2, seq![0x31u8, 0x30u8, 0x30u8, 0x33u8]) || sub_at(c, 2, seq![0x31u8, 0x30u8, 0x30u8, 0x34u8]) || sub_at(c, 2, seq![0x31u8, 0x30u8, 0x30u8, 0x36u8]) || sub_at(c, 2, seq![0x31u8, 0x30u8, 0x30u8, 0x39u8]) || sub_at(c, 2, seq![0x31u8, 0x30u8, 0x31u8, 0x32u8]) || sub_at(c, 2, seq![0x31u8, 0x30u8, 0x31u8, 0x34u8]) || sub_at(c, 2, seq![0x31u8, 0x30u8, 0x31u8, 0x35u8]) || sub_at(c, 2, seq![0x31u8, 0x30u8, 0x31u8, 0x38u8]) || sub_at(c, 2, seq![0x31u8, 0x30u8, 0x32u8, 0x31u8]) || sub_at(c, 2, seq![0x31u8, 0x30u8, 0x32u8, 0x34u8]) || sub_at(c, 2, seq![0x31u8, 0x30u8, 0x33u8, 0x32u8]))  // "1.40", "1.50", "2.10", "1002", "1003", "1004", "1006", "1009", "1012", "1014", "1015", "1018", "1021", "1024", "1032"
}

/// True iff `content` matches as described by `spec_dwg_matches`.
pub fn dwg_detect(content: &[u8]) -> (r: bool)
    ensures
        r == spec_dwg_matches(content@),
{
    if content.len() < 6 || content[0] != 0x41 || content[1] != 0x43 {
        return false;
    }
    let v0: Vec<u8> = vec![0x31, 0x2e, 0x34, 0x30];  // "1.40"
    assert(v0@ =~= seq![0x31u8, 0x2eu8, 0x34u8, 0x30u8]);  // "1.40"
    let v1: Vec<u8> = vec![0x31, 0x2e, 0x35, 0x30];  // "1.50"
    assert(v1@ =~= seq![0x31u8, 0x2eu8, 0x35u8, 0x30u8]);  // "1.50"
    let v2: Vec<u8> = vec![0x32, 0x2e, 0x31, 0x30];  // "2.10"
    assert(v2@ =~= seq![0x32u8, 0x2eu8, 0x31u8, 0x30u8]);  // "2.10"
    let v3: Vec<u8> = vec![0x31, 0x30, 0x30, 0x32];  // "1002"
    assert(v3@ =~= seq![0x31u8, 0x30u8, 0x30u8, 0x32u8]);  // "1002"
    let v4: Vec<u8> = vec![0x31, 0x30, 0x30, 0x33];  // "1003"
    assert(v4@ =~= seq![0x31u8, 0x30u8, 0x30u8, 0x33u8]);  // "1003"
    let v5: Vec<u8> = vec![0x31, 0x30, 0x30, 0x34];  // "1004"
    assert(v5@ =~= seq![0x31u8, 0x30u8, 0x30u8, 0x34u8]);  // "1004"
    let v6: Vec<u8> = vec![0x31, 0x30, 0x30, 0x36];  // "1006"
    assert(v6@ =~= seq![0x31u8, 0x30u8, 0x30u8, 0x36u8]);  // "1006"
    let v7: Vec<u8> = vec![0x31, 0x30, 0x30, 0x39];  // "1009"
    assert(v7@ =~= seq![0x31u8, 0x30u8, 0x30u8, 0x39u8]);  // "1009"
    let v8: Vec<u8> = vec![0x31, 0x30, 0x31, 0x32];  // "1012"
    assert(v8@ =~= seq![0x31u8, 0x30u8, 0x31u8, 0x32u8]);  // "1012"
    let v9: Vec<u8> = vec![0x31, 0x30, 0x31, 0x34];  // "1014"
    assert(v9@ =~= seq![0x31u8, 0x30u8, 0x31u8, 0x34u8]);  // "1014"
    let v10: Vec<u8> = vec![0x31, 0x30, 0x31, 0x35];  // "1015"
    assert(v10@ =~= seq![0x31u8, 0x30u8, 0x31u8, 0x35u8]);  // "1015"
    let v11: Vec<u8> = vec![0x31, 0x30, 0x31, 0x38];  // "1018"
    assert(v11@ =~= seq![0x31u8, 0x30u8, 0x31u8, 0x38u8]);  // "1018"
    let v12: Vec<u8> = vec![0x31, 0x30, 0x32, 0x31];  // "1021"
    assert(v12@ =~= seq![0x31u8, 0x30u8, 0x32u8, 0x31u8]);  // "1021"
    let v13: Vec<u8> = vec![0x31, 0x30, 0x32, 0x34];  // "1024"
    assert(v13@ =~= seq![0x31u8, 0x30u8, 0x32u8, 0x34u8]);  // "1024"
    let v14: Vec<u8> = vec![0x31, 0x30, 0x33, 0x32];  // "1032"
    assert(v14@ =~= seq![0x31u8, 0x30u8, 0x33u8, 0x32u8]);  // "1032"
    starts_with_at(content, 2, v0.as_slice())
        || starts_with_at(content, 2, v1.as_slice())
        || starts_with_at(content, 2, v2.as_slice())
        || starts_with_at(content, 2, v3.as_slice())
        || starts_with_at(content, 2, v4.as_slice())
        || starts_with_at(content, 2, v5.as_slice())
        || starts_with_at(content, 2, v6.as_slice())
        || starts_with_at(content, 2, v7.as_slice())
        || starts_with_at(content, 2, v8.as_slice())
        || starts_with_at(content, 2, v9.as_slice())
        || starts_with_at(content, 2, v10.as_slice())
        || starts_with_at(content, 2, v11.as_slice())
        || starts_with_at(content, 2, v12.as_slice())
        || starts_with_at(content, 2, v13.as_slice())
        || starts_with_at(content, 2, v14.as_slice())
}

/// A JPEG XL image: the bare codestream marker or the container signature.
pub open spec fn spec_jxl_matches(c: Seq<u8>) -> bool {
    has_prefix(c, seq![0xffu8, 0x0au8]) || has_prefix(c, seq![0x00u8, 0x00u8, 0x00u8, 0x0cu8, 0x4au8, 0x58u8, 0x4cu8, 0x20u8, 0x0du8, 0x0au8, 0x87u8, 0x0au8])
}

/// True iff `content` matches as described by `spec_jxl_matches`.
pub fn jxl_detect(content: &[u8]) -> (r: bool)
    ensures
        r == spec_jxl_matches(content@),
{
    let short: Vec<u8> = vec![0xff, 0x0a];
    assert(short@ =~= seq![0xffu8, 0x0au8]);
    let long: Vec<u8> = vec![0x00, 0x00, 0x00, 0x0c, 0x4a, 0x58, 0x4c, 0x20, 0x0d, 0x0a, 0x87, 0x0a];
    assert(long@ =~= seq![0x00u8, 0x00u8, 0x00u8, 0x0cu8, 0x4au8, 0x58u8, 0x4cu8, 0x20u8, 0x0du8, 0x0au8, 0x87u8, 0x0au8]);
    starts_with_at(content, 0, short.as_slice()) || starts_with_at(content, 0, long.as_slice())
}

} // verus!
