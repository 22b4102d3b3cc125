//! Classification of opaque byte buffers into file-format (MIME) labels.
//!
//! The library matches a byte slice against a catalog of binary and text
//! signatures, arranged as a tree of formats from generic to specific, and
//! returns the most specific matching entry.

use vstd::prelude::*;

pub mod archive;
pub mod audio;
pub mod base;
pub mod binary;
pub mod bytes;
pub mod detector;
pub mod ftyp;
pub mod image;
pub mod mime;
pub mod text;
pub mod tree;

verus! {

} // verus!
