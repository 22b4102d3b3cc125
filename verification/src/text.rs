//! Text-family detectors: plain text and byte-order marks, PHP sources,
//! JSON documents (checked with a real parser), the GeoJSON and HAR key
//! heuristics, SVG, and PKCS#7 signatures.

use vstd::prelude::*;

use crate::base::{
    seq_views, spec_any_ci_prefix, spec_any_shebang, trimmed_left, ci_prefix_detect,
    shebang_detect, trim_left_ws,
};
use crate::bytes::{find_from, find_sub, has_prefix, starts_with_at, sub_at};
use vstd::slice::slice_subrange;

verus! {

/// The byte-order marks recognised in front of text, with the encoding each
/// one names; the list is ordered, and the first matching mark decides.
pub open spec fn spec_bom(c: Seq<u8>) -> Option<Seq<char>> {
    if has_prefix(c, seq![0xefu8, 0xbbu8, 0xbfu8]) {
        Some("UTF-8"@)
    } else if has_prefix(c, seq![0xfeu8, 0xffu8]) {
        Some("UTF-16BE"@)
    } else if has_prefix(c, seq![0xffu8, 0xfeu8]) {
        Some("UTF-16LE"@)
    } else if has_prefix(c, seq![0x00u8, 0x00u8, 0xfeu8, 0xffu8]) {
        Some("UTF-32BE"@)
    } else if has_prefix(c, seq![0xffu8, 0xfeu8, 0x00u8, 0x00u8]) {
        Some("UTF-32LE"@)
    } else {
        None
    }
}

/// Names the text encoding whose byte-order mark opens `content`, if any.
pub fn from_boom(content: &[u8]) -> (r: Option<&'static str>)
    ensures
        match r {
            Some(s) => spec_bom(content@) == Some(s@),
            None => spec_bom(content@) is None,
        },
{
    let b3: Vec<u8> = vec![0xef, 0xbb, 0xbf];
    assert(b3@ =~= seq![0xefu8, 0xbbu8, 0xbfu8]);
    if starts_with_at(content, 0, b3.as_slice()) {
        return Some("UTF-8");
    }
    let b16be: Vec<u8> = vec![0xfe, 0xff];
    assert(b16be@ =~= seq![0xfeu8, 0xffu8]);
    if starts_with_at(content, 0, b16be.as_slice()) {
        return Some("UTF-16BE");
    }
    let b16le: Vec<u8> = vec![0xff, 0xfe];
    assert(b16le@ =~= seq![0xffu8, 0xfeu8]);
    if starts_with_at(content, 0, b16le.as_slice()) {
        let b32le: Vec<u8> = vec![0xff, 0xfe, 0x00, 0x00];
        assert(b32le@ =~= seq![0xffu8, 0xfeu8, 0x00u8, 0x00u8]);
        return Some("UTF-16LE");
    }
    let b32be: Vec<u8> = vec![0x00, 0x00, 0xfe, 0xff];
    assert(b32be@ =~= seq![0x00u8, 0x00u8, 0xfeu8, 0xffu8]);
    if starts_with_at(content, 0, b32be.as_slice()) {
        return Some("UTF-32BE");
    }
    let b32le: Vec<u8> = vec![0xff, 0xfe, 0x00, 0x00];
    assert(b32le@ =~= seq![0xffu8, 0xfeu8, 0x00u8, 0x00u8]);
    if starts_with_at(content, 0, b32le.as_slice()) {
        return Some("UTF-32LE");
    }
    None
}

/// A binary data byte, whose presence keeps a buffer from counting as text.
pub open spec fn is_binary_byte(b: u8) -> bool {
    b <= 0x08 || b == 0x0b || (0x0e <= b && b <= 0x1a) || (0x1c <= b && b <= 0x1f)
}

/// Plain text: a recognised byte-order mark, or no binary data byte anywhere
/// in the sampled buffer.
pub open spec fn spec_text_matches(c: Seq<u8>) -> bool {
    spec_bom(c) is Some || (forall|i: int| 0 <= i < c.len() ==> !is_binary_byte(#[trigger] c[i]))
}

/// True iff `content` matches as described by `spec_text_matches`.
pub fn text_detect(content: &[u8]) -> (r: bool)
    ensures
        r == spec_text_matches(content@),
{
    match from_boom(content) {
        Some(_) => {
            return true;
        },
        None => {},
    }
    let mut i: usize = 0;
    while i < content.len()
        invariant
            spec_bom(content@) is None,
            i <= content@.len(),
            forall|j: int| 0 <= j < i ==> !is_binary_byte(#[trigger] content@[j]),
        decreases content@.len() - i,
    {
        let b = content[i];
        if b <= 0x08 || b == 0x0b || (0x0e <= b && b <= 0x1a) || (0x1c <= b && b <= 0x1f) {
            return false;
        }
        i += 1;
    }
    true
}

/// The shebang interpreters and the case-folded openings that mark a PHP
/// source file.
pub open spec fn php_shebangs() -> Seq<Seq<u8>> {
    seq![seq![0x2fu8, 0x75u8, 0x73u8, 0x72u8, 0x2fu8, 0x6cu8, 0x6fu8, 0x63u8, 0x61u8, 0x6cu8, 0x2fu8, 0x62u8, 0x69u8, 0x6eu8, 0x2fu8, 0x70u8, 0x68u8, 0x70u8], seq![0x2fu8, 0x75u8, 0x73u8, 0x72u8, 0x2fu8, 0x62u8, 0x69u8, 0x6eu8, 0x2fu8, 0x70u8, 0x68u8, 0x70u8], seq![0x2fu8, 0x75u8, 0x73u8, 0x72u8, 0x2fu8, 0x62u8, 0x69u8, 0x6eu8, 0x2fu8, 0x65u8, 0x6eu8, 0x76u8, 0x20u8, 0x70u8, 0x68u8, 0x70u8]]
}

/// The script openings that mark a PHP source file.
pub open spec fn php_openings() -> Seq<Seq<u8>> {
    seq![seq![0x3cu8, 0x3fu8, 0x50u8, 0x48u8, 0x50u8], seq![0x3cu8, 0x3fu8, 0x0au8], seq![0x3cu8, 0x3fu8, 0x0du8], seq![0x3cu8, 0x3fu8, 0x20u8]]
}

/// A PHP source: a PHP interpreter shebang line, or a PHP opening tag.
pub open spec fn spec_php_matches(c: Seq<u8>) -> bool {
    spec_any_shebang(php_shebangs(), c) || spec_any_ci_prefix(php_openings(), c)
}

/// True iff `content` matches as described by `spec_php_matches`.
pub fn php_detect(content: &[u8]) -> (r: bool)
    ensures
        r == spec_php_matches(content@),
{
    let mut sb: Vec<Vec<u8>> = Vec::new();
    sb.push(vec![0x2f, 0x75, 0x73, 0x72, 0x2f, 0x6c, 0x6f, 0x63, 0x61, 0x6c, 0x2f, 0x62, 0x69, 0x6e, 0x2f, 0x70, 0x68, 0x70]);  // "/usr/local/bin/php"
    sb.push(vec![0x2f, 0x75, 0x73, 0x72, 0x2f, 0x62, 0x69, 0x6e, 0x2f, 0x70, 0x68, 0x70]);  // "/usr/bin/php"
    sb.push(vec![0x2f, 0x75, 0x73, 0x72, 0x2f, 0x62, 0x69, 0x6e, 0x2f, 0x65, 0x6e, 0x76, 0x20, 0x70, 0x68, 0x70]);  // "/usr/bin/env php"
    assert(seq_views(sb@) =~~= php_shebangs());
    if shebang_detect(&sb, content) {
        return true;
    }
    let mut ci: Vec<Vec<u8>> = Vec::new();
    ci.push(vec![0x3c, 0x3f, 0x50, 0x48, 0x50]);  // "<?PHP"
    ci.push(vec![0x3c, 0x3f, 0x0a]);
    ci.push(vec![0x3c, 0x3f, 0x0d]);
    ci.push(vec![0x3c, 0x3f, 0x20]);  // "<? "
    assert(seq_views(ci@) =~~= php_openings());
    ci_prefix_detect(&ci, content)
}

/// Whether serde_json parses the bytes as a JSON document; the result is a
/// function of the bytes alone.
pub uninterp spec fn json_parses(s: Seq<u8>) -> bool;

/// Relies on serde_json::from_slice::<Value>: success depends only on the
/// bytes given, so the call's outcome is named by `json_parses`.
#[verifier::external_body]
fn json_is_valid(b: &[u8]) -> (r: bool)
    ensures
        r == json_parses(b@),
{
    serde_json::from_slice::<serde_json::Value>(b).is_ok()
}

/// A JSON document: after leading whitespace, at least two bytes starting
/// with an object or array opener, and the whole trimmed buffer parses.
pub open spec fn spec_json_matches(c: Seq<u8>) -> bool {
    let t = trimmed_left(c);
    t.len() >= 2 && (t[0] == 0x5b || t[0] == 0x7b) && json_parses(t)
}

/// True iff `content` matches as described by `spec_json_matches`.
pub fn json_detect(content: &[u8]) -> (r: bool)
    ensures
        r == spec_json_matches(content@),
{
    let t = trim_left_ws(content);
    if t.len() < 2 || (t[0] != 0x5b && t[0] != 0x7b) {
        return false;
    }
    json_is_valid(t)
}

/// The GeoJSON geometry type literals accepted after the `"type"` key.
pub open spec fn spec_geojson_value_ok(v: Seq<u8>) -> bool {
    has_prefix(v, seq![0x22u8, 0x46u8, 0x65u8, 0x61u8, 0x74u8, 0x75u8, 0x72u8, 0x65u8, 0x22u8]) || has_prefix(v, seq![0x22u8, 0x46u8, 0x65u8, 0x61u8, 0x74u8, 0x75u8, 0x72u8, 0x65u8, 0x43u8, 0x6fu8, 0x6cu8, 0x6cu8, 0x65u8, 0x63u8, 0x74u8, 0x69u8, 0x6fu8, 0x6eu8, 0x22u8]) || has_prefix(v, seq![0x22u8, 0x50u8, 0x6fu8, 0x69u8, 0x6eu8, 0x74u8, 0x22u8]) || has_prefix(v, seq![0x22u8, 0x4cu8, 0x69u8, 0x6eu8, 0x65u8, 0x53u8, 0x74u8, 0x72u8, 0x69u8, 0x6eu8, 0x67u8, 0x22u8]) || has_prefix(v, seq![0x22u8, 0x50u8, 0x6fu8, 0x6cu8, 0x79u8, 0x67u8, 0x6fu8, 0x6eu8, 0x22u8]) || has_prefix(v, seq![0x22u8, 0x4du8, 0x75u8, 0x6cu8, 0x74u8, 0x69u8, 0x50u8, 0x6fu8, 0x69u8, 0x6eu8, 0x74u8, 0x22u8]) || has_prefix(v, seq![0x22u8, 0x4du8, 0x75u8, 0x6cu8, 0x74u8, 0x69u8, 0x4cu8, 0x69u8, 0x6eu8, 0x65u8, 0x53u8, 0x74u8, 0x72u8, 0x69u8, 0x6eu8, 0x67u8, 0x22u8]) || has_prefix(v, seq![0x22u8, 0x4du8, 0x75u8, 0x6cu8, 0x74u8, 0x69u8, 0x50u8, 0x6fu8, 0x6cu8, 0x79u8, 0x67u8, 0x6fu8, 0x6eu8, 0x22u8]) || has_prefix(v, seq![0x22u8, 0x47u8, 0x65u8, 0x6fu8, 0x6du8, 0x65u8, 0x74u8, 0x72u8, 0x79u8, 0x43u8, 0x6fu8, 0x6cu8, 0x6cu8, 0x65u8, 0x63u8, 0x74u8, 0x69u8, 0x6fu8, 0x6eu8, 0x22u8])
}

/// A GeoJSON document, by a key-substring heuristic: the trimmed buffer is
/// an object, the first occurrence of `"type"` is followed (after optional
/// whitespace) by a colon and one of the geometry type literals.
pub open spec fn spec_geojson_matches(c: Seq<u8>) -> bool {
    let t = trimmed_left(c);
    t.len() > 0 && t[0] == 0x7b && {
        let si = find_from(t, seq![0x22u8, 0x74u8, 0x79u8, 0x70u8, 0x65u8, 0x22u8], 0);
        &&& si >= 0
        &&& si + 6 != t.len()
        &&& {
            let after = trimmed_left(t.skip(si + 6));
            after.len() > 0 && after[0] == 0x3a && spec_geojson_value_ok(
                trimmed_left(after.skip(1)),
            )
        }
    }
}

/// True iff `content` matches as described by `spec_geojson_matches`.
pub fn geojson_detect(content: &[u8]) -> (r: bool)
    ensures
        r == spec_geojson_matches(content@),
{
    let t = trim_left_ws(content);
    if t.len() == 0 || t[0] != 0x7b {
        return false;
    }
    let key: Vec<u8> = vec![0x22, 0x74, 0x79, 0x70, 0x65, 0x22];
    assert(key@ =~= seq![0x22u8, 0x74u8, 0x79u8, 0x70u8, 0x65u8, 0x22u8]);
    let si = match find_sub(t, key.as_slice()) {
        Some(si) => si,
        None => {
            return false;
        },
    };
    proof {
        crate::bytes::lemma_find_from_bounds(t@, key@, 0);
    }
    let n = t.len();
    if si + 6 == n {
        return false;
    }
    let after = trim_left_ws(slice_subrange(t, si + 6, t.len()));
    if after.len() == 0 || after[0] != 0x3a {
        return false;
    }
    let val = trim_left_ws(slice_subrange(after, 1, after.len()));
    let g0: Vec<u8> = vec![0x22, 0x46, 0x65, 0x61, 0x74, 0x75, 0x72, 0x65, 0x22];
    assert(g0@ =~= seq![0x22u8, 0x46u8, 0x65u8, 0x61u8, 0x74u8, 0x75u8, 0x72u8, 0x65u8, 0x22u8]);
    let g1: Vec<u8> = vec![0x22, 0x46, 0x65, 0x61, 0x74, 0x75, 0x72, 0x65, 0x43, 0x6f, 0x6c, 0x6c, 0x65, 0x63, 0x74, 0x69, 0x6f, 0x6e, 0x22];
    assert(g1@ =~= seq![0x22u8, 0x46u8, 0x65u8, 0x61u8, 0x74u8, 0x75u8, 0x72u8, 0x65u8, 0x43u8, 0x6fu8, 0x6cu8, 0x6cu8, 0x65u8, 0x63u8, 0x74u8, 0x69u8, 0x6fu8, 0x6eu8, 0x22u8]);
    let g2: Vec<u8> = vec![0x22, 0x50, 0x6f, 0x69, 0x6e, 0x74, 0x22];
    assert(g2@ =~= seq![0x22u8, 0x50u8, 0x6fu8, 0x69u8, 0x6eu8, 0x74u8, 0x22u8]);
    let g3: Vec<u8> = vec![0x22, 0x4c, 0x69, 0x6e, 0x65, 0x53, 0x74, 0x72, 0x69, 0x6e, 0x67, 0x22];
    assert(g3@ =~= seq![0x22u8, 0x4cu8, 0x69u8, 0x6eu8, 0x65u8, 0x53u8, 0x74u8, 0x72u8, 0x69u8, 0x6eu8, 0x67u8, 0x22u8]);
    let g4: Vec<u8> = vec![0x22, 0x50, 0x6f, 0x6c, 0x79, 0x67, 0x6f, 0x6e, 0x22];
    assert(g4@ =~= seq![0x22u8, 0x50u8, 0x6fu8, 0x6cu8, 0x79u8, 0x67u8, 0x6fu8, 0x6eu8, 0x22u8]);
    let g5: Vec<u8> = vec![0x22, 0x4d, 0x75, 0x6c, 0x74, 0x69, 0x50, 0x6f, 0x69, 0x6e, 0x74, 0x22];
    assert(g5@ =~= seq![0x22u8, 0x4du8, 0x75u8, 0x6cu8, 0x74u8, 0x69u8, 0x50u8, 0x6fu8, 0x69u8, 0x6eu8, 0x74u8, 0x22u8]);
    let g6: Vec<u8> = vec![0x22, 0x4d, 0x75, 0x6c, 0x74, 0x69, 0x4c, 0x69, 0x6e, 0x65, 0x53, 0x74, 0x72, 0x69, 0x6e, 0x67, 0x22];
    assert(g6@ =~= seq![0x22u8, 0x4du8, 0x75u8, 0x6cu8, 0x74u8, 0x69u8, 0x4cu8, 0x69u8, 0x6eu8, 0x65u8, 0x53u8, 0x74u8, 0x72u8, 0x69u8, 0x6eu8, 0x67u8, 0x22u8]);
    let g7: Vec<u8> = vec![0x22, 0x4d, 0x75, 0x6c, 0x74, 0x69, 0x50, 0x6f, 0x6c, 0x79, 0x67, 0x6f, 0x6e, 0x22];
    assert(g7@ =~= seq![0x22u8, 0x4du8, 0x75u8, 0x6cu8, 0x74u8, 0x69u8, 0x50u8, 0x6fu8, 0x6cu8, 0x79u8, 0x67u8, 0x6fu8, 0x6eu8, 0x22u8]);
    let g8: Vec<u8> = vec![0x22, 0x47, 0x65, 0x6f, 0x6d, 0x65, 0x74, 0x72, 0x79, 0x43, 0x6f, 0x6c, 0x6c, 0x65, 0x63, 0x74, 0x69, 0x6f, 0x6e, 0x22];
    assert(g8@ =~= seq![0x22u8, 0x47u8, 0x65u8, 0x6fu8, 0x6du8, 0x65u8, 0x74u8, 0x72u8, 0x79u8, 0x43u8, 0x6fu8, 0x6cu8, 0x6cu8, 0x65u8, 0x63u8, 0x74u8, 0x69u8, 0x6fu8, 0x6eu8, 0x22u8]);
    starts_with_at(val, 0, g0.as_slice())
        || starts_with_at(val, 0, g1.as_slice())
        || starts_with_at(val, 0, g2.as_slice())
        || starts_with_at(val, 0, g3.as_slice())
        || starts_with_at(val, 0, g4.as_slice())
        || starts_with_at(val, 0, g5.as_slice())
        || starts_with_at(val, 0, g6.as_slice())
        || starts_with_at(val, 0, g7.as_slice())
        || starts_with_at(val, 0, g8.as_slice())
}

/// A HAR archive, by a key-substring heuristic: the first occurrence of
/// `"log"` is followed (after optional whitespace) by a colon, and one of
/// the `"version"`, `"creator"` or `"entries"` keys occurs somewhere after.
pub open spec fn spec_har_matches(c: Seq<u8>) -> bool {
    let si = find_from(c, seq![0x22u8, 0x6cu8, 0x6fu8, 0x67u8, 0x22u8], 0);
    &&& si >= 0
    &&& si + 5 != c.len()
    &&& {
        let rest = trimmed_left(c.skip(si + 5));
        rest.len() > 0 && rest[0] == 0x3a && {
            let rest2 = trimmed_left(rest.skip(1));
            find_from(rest2, seq![0x22u8, 0x76u8, 0x65u8, 0x72u8, 0x73u8, 0x69u8, 0x6fu8, 0x6eu8, 0x22u8], 0) >= 0 || find_from(rest2, seq![0x22u8, 0x63u8, 0x72u8, 0x65u8, 0x61u8, 0x74u8, 0x6fu8, 0x72u8, 0x22u8], 0) >= 0 || find_from(rest2, seq![0x22u8, 0x65u8, 0x6eu8, 0x74u8, 0x72u8, 0x69u8, 0x65u8, 0x73u8, 0x22u8], 0) >= 0
        }
    }
}

/// True iff `content` matches as described by `spec_har_matches`.
pub fn har_detect(content: &[u8]) -> (r: bool)
    ensures
        r == spec_har_matches(content@),
{
    let key: Vec<u8> = vec![0x22, 0x6c, 0x6f, 0x67, 0x22];
    assert(key@ =~= seq![0x22u8, 0x6cu8, 0x6fu8, 0x67u8, 0x22u8]);
    let si = match find_sub(content, key.as_slice()) {
        Some(si) => si,
        None => {
            return false;
        },
    };
    proof {
        crate::bytes::lemma_find_from_bounds(content@, key@, 0);
    }
    let n = content.len();
    if si + 5 == n {
        return false;
    }
    let rest = trim_left_ws(slice_subrange(content, si + 5, content.len()));
    if rest.len() == 0 || rest[0] != 0x3a {
        return false;
    }
    let rest2 = trim_left_ws(slice_subrange(rest, 1, rest.len()));
    let k0: Vec<u8> = vec![0x22, 0x76, 0x65, 0x72, 0x73, 0x69, 0x6f, 0x6e, 0x22];
    assert(k0@ =~= seq![0x22u8, 0x76u8, 0x65u8, 0x72u8, 0x73u8, 0x69u8, 0x6fu8, 0x6eu8, 0x22u8]);
    let f0 = match find_sub(rest2, k0.as_slice()) {
        Some(_) => true,
        None => false,
    };
    let k1: Vec<u8> = vec![0x22, 0x63, 0x72, 0x65, 0x61, 0x74, 0x6f, 0x72, 0x22];
    assert(k1@ =~= seq![0x22u8, 0x63u8, 0x72u8, 0x65u8, 0x61u8, 0x74u8, 0x6fu8, 0x72u8, 0x22u8]);
    let f1 = match find_sub(rest2, k1.as_slice()) {
        Some(_) => true,
        None => false,
    };
    let k2: Vec<u8> = vec![0x22, 0x65, 0x6e, 0x74, 0x72, 0x69, 0x65, 0x73, 0x22];
    assert(k2@ =~= seq![0x22u8, 0x65u8, 0x6eu8, 0x74u8, 0x72u8, 0x69u8, 0x65u8, 0x73u8, 0x22u8]);
    let f2 = match find_sub(rest2, k2.as_slice()) {
        Some(_) => true,
        None => false,
    };
    f0 || f1 || f2
}

/// An SVG image: the `<svg` tag occurring anywhere in the sampled buffer.
pub open spec fn spec_svg_matches(c: Seq<u8>) -> bool {
    find_from(c, seq![0x3cu8, 0x73u8, 0x76u8, 0x67u8], 0) >= 0
}

/// True iff `content` matches as described by `spec_svg_matches`.
pub fn svg_detect(content: &[u8]) -> (r: bool)
    ensures
        r == spec_svg_matches(content@),
{
    let tag: Vec<u8> = vec![0x3c, 0x73, 0x76, 0x67];  // "<svg"
    assert(tag@ =~= seq![0x3cu8, 0x73u8, 0x76u8, 0x67u8]);  // "<svg"
    match find_sub(content, tag.as_slice()) {
        Some(_) => true,
        None => false,
    }
}

/// A PKCS#7 signature: the PEM header, or a DER header byte pair followed at
/// the matching offset by the signedData object identifier.
pub open spec fn spec_p7s_matches(c: Seq<u8>) -> bool {
    if has_prefix(c, seq![0x2du8, 0x2du8, 0x2du8, 0x2du8, 0x2du8, 0x42u8, 0x45u8, 0x47u8, 0x49u8, 0x4eu8, 0x20u8, 0x50u8, 0x4bu8, 0x43u8, 0x53u8, 0x37u8]) {
        true
    } else {
        c.len() >= 20 && ((has_prefix(c, seq![0x30u8, 0x80u8]) && sub_at(c, 2, seq![0x06u8, 0x09u8, 0x2au8, 0x86u8, 0x48u8, 0x86u8, 0xf7u8, 0x0du8, 0x01u8, 0x07u8])) || (has_prefix(c, seq![0x30u8, 0x81u8]) && sub_at(c, 3, seq![0x06u8, 0x09u8, 0x2au8, 0x86u8, 0x48u8, 0x86u8, 0xf7u8, 0x0du8, 0x01u8, 0x07u8])) || (has_prefix(c, seq![0x30u8, 0x82u8]) && sub_at(c, 4, seq![0x06u8, 0x09u8, 0x2au8, 0x86u8, 0x48u8, 0x86u8, 0xf7u8, 0x0du8, 0x01u8, 0x07u8])) || (has_prefix(c, seq![0x30u8, 0x83u8]) && sub_at(c, 5, seq![0x06u8, 0x09u8, 0x2au8, 0x86u8, 0x48u8, 0x86u8, 0xf7u8, 0x0du8, 0x01u8, 0x07u8])) || (has_prefix(c, seq![0x30u8, 0x84u8]) && sub_at(c, 6, seq![0x06u8, 0x09u8, 0x2au8, 0x86u8, 0x48u8, 0x86u8, 0xf7u8, 0x0du8, 0x01u8, 0x07u8])))
    }
}

/// True iff `content` matches as described by `spec_p7s_matches`.
pub fn p7s_detect(content: &[u8]) -> (r: bool)
    ensures
        r == spec_p7s_matches(content@),
{
    let pem: Vec<u8> = vec![0x2d, 0x2d, 0x2d, 0x2d, 0x2d, 0x42, 0x45, 0x47, 0x49, 0x4e, 0x20, 0x50, 0x4b, 0x43, 0x53, 0x37];  // "-----BEGIN PKCS7"
    assert(pem@ =~= seq![0x2du8, 0x2du8, 0x2du8, 0x2du8, 0x2du8, 0x42u8, 0x45u8, 0x47u8, 0x49u8, 0x4eu8, 0x20u8, 0x50u8, 0x4bu8, 0x43u8, 0x53u8, 0x37u8]);  // "-----BEGIN PKCS7"
    if starts_with_at(content, 0, pem.as_slice()) {
        return true;
    }
    if content.len() < 20 {
        return false;
    }
    let sd: Vec<u8> = vec![0x06, 0x09, 0x2a, 0x86, 0x48, 0x86, 0xf7, 0x0d, 0x01, 0x07];
    assert(sd@ =~= seq![0x06u8, 0x09u8, 0x2au8, 0x86u8, 0x48u8, 0x86u8, 0xf7u8, 0x0du8, 0x01u8, 0x07u8]);
    let h0: Vec<u8> = vec![0x30, 0x80];
    assert(h0@ =~= seq![0x30u8, 0x80u8]);
    let h1: Vec<u8> = vec![0x30, 0x81];
    assert(h1@ =~= seq![0x30u8, 0x81u8]);
    let h2: Vec<u8> = vec![0x30, 0x82];
    assert(h2@ =~= seq![0x30u8, 0x82u8]);
    let h3: Vec<u8> = vec![0x30, 0x83];
    assert(h3@ =~= seq![0x30u8, 0x83u8]);
    let h4: Vec<u8> = vec![0x30, 0x84];
    assert(h4@ =~= seq![0x30u8, 0x84u8]);
    (starts_with_at(content, 0, h0.as_slice()) && starts_with_at(content, 2, sd.as_slice()))
        || (starts_with_at(content, 0, h1.as_slice()) && starts_with_at(content, 3, sd.as_slice()))
        || (starts_with_at(content, 0, h2.as_slice()) && starts_with_at(content, 4, sd.as_slice()))
        || (starts_with_at(content, 0, h3.as_slice()) && starts_with_at(content, 5, sd.as_slice()))
        || (starts_with_at(content, 0, h4.as_slice()) && starts_with_at(content, 6, sd.as_slice()))
}

} // verus!
