//! The QuickTime atom reader: a `ftyp` box with the QuickTime brand, a
//! generic top-level atom name, or the `wide` atom.

use vstd::prelude::*;

use crate::bytes::{has_prefix, starts_with_at, sub_at};

verus! {

/// A QuickTime file: a `ftyp` box with the `qt  ` or `moov` brand, whose
/// size field must start with a zero byte (guarding against plain text
/// holding the tag), one of the basic atom names at byte 4 terminated by a
/// NUL, or a leading `wide` atom.
pub open spec fn spec_quicktime_matches(c: Seq<u8>) -> bool {
    c.len() >= 12 && (if sub_at(c, 4, seq![0x66u8, 0x74u8, 0x79u8, 0x70u8, 0x71u8, 0x74u8, 0x20u8, 0x20u8]) || sub_at(c, 4, seq![0x66u8, 0x74u8, 0x79u8, 0x70u8, 0x6du8, 0x6fu8, 0x6fu8, 0x76u8]) {
        c[0] == 0x00
    } else {
        (sub_at(c, 4, seq![0x6du8, 0x6fu8, 0x6fu8, 0x76u8, 0x00u8]) || sub_at(c, 4, seq![0x6du8, 0x64u8, 0x61u8, 0x74u8, 0x00u8]) || sub_at(c, 4, seq![0x66u8, 0x72u8, 0x65u8, 0x65u8, 0x00u8]) || sub_at(c, 4, seq![0x73u8, 0x6bu8, 0x69u8, 0x70u8, 0x00u8]) || sub_at(c, 4, seq![0x70u8, 0x6eu8, 0x6fu8, 0x74u8, 0x00u8])) || has_prefix(c, seq![0x00u8, 0x00u8, 0x00u8, 0x08u8, 0x77u8, 0x69u8, 0x64u8, 0x65u8])
    })
}

/// True iff `content` matches as described by `spec_quicktime_matches`.
pub fn quicktime_detect(content: &[u8]) -> (r: bool)
    ensures
        r == spec_quicktime_matches(content@),
{
    if content.len() < 12 {
        return false;
    }
    let qt: Vec<u8> = vec![0x66, 0x74, 0x79, 0x70, 0x71, 0x74, 0x20, 0x20];  // "ftypqt  "
    assert(qt@ =~= seq![0x66u8, 0x74u8, 0x79u8, 0x70u8, 0x71u8, 0x74u8, 0x20u8, 0x20u8]);  // "ftypqt  "
    let mv: Vec<u8> = vec![0x66, 0x74, 0x79, 0x70, 0x6d, 0x6f, 0x6f, 0x76];  // "ftypmoov"
    assert(mv@ =~= seq![0x66u8, 0x74u8, 0x79u8, 0x70u8, 0x6du8, 0x6fu8, 0x6fu8, 0x76u8]);  // "ftypmoov"
    if starts_with_at(content, 4, qt.as_slice()) || starts_with_at(content, 4, mv.as_slice()) {
        return content[0] == 0x00;
    }
    let a0: Vec<u8> = vec![0x6d, 0x6f, 0x6f, 0x76, 0x00];
    assert(a0@ =~= seq![0x6du8, 0x6fu8, 0x6fu8, 0x76u8, 0x00u8]);
    let a1: Vec<u8> = vec![0x6d, 0x64, 0x61, 0x74, 0x00];
    assert(a1@ =~= seq![0x6du8, 0x64u8, 0x61u8, 0x74u8, 0x00u8]);
    let a2: Vec<u8> = vec![0x66, 0x72, 0x65, 0x65, 0x00];
    assert(a2@ =~= seq![0x66u8, 0x72u8, 0x65u8, 0x65u8, 0x00u8]);
    let a3: Vec<u8> = vec![0x73, 0x6b, 0x69, 0x70, 0x00];
    assert(a3@ =~= seq![0x73u8, 0x6bu8, 0x69u8, 0x70u8, 0x00u8]);
    let a4: Vec<u8> = vec![0x70, 0x6e, 0x6f, 0x74, 0x00];
    assert(a4@ =~= seq![0x70u8, 0x6eu8, 0x6fu8, 0x74u8, 0x00u8]);
    if starts_with_at(content, 4, a0.as_slice()) || starts_with_at(content, 4, a1.as_slice()) || starts_with_at(content, 4, a2.as_slice()) || starts_with_at(content, 4, a3.as_slice()) || starts_with_at(content, 4, a4.as_slice()) {
        return true;
    }
    let w: Vec<u8> = vec![0x00, 0x00, 0x00, 0x08, 0x77, 0x69, 0x64, 0x65];
    assert(w@ =~= seq![0x00u8, 0x00u8, 0x00u8, 0x08u8, 0x77u8, 0x69u8, 0x64u8, 0x65u8]);
    starts_with_at(content, 0, w.as_slice())
}

} // verus!
