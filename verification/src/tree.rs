//! The classification catalog: one root entry for the generic binary
//! stream, whose descendants encode the known format hierarchy.  Child
//! order is significant: among siblings the first matching entry wins, so
//! more specific signatures stand before the generic ones they refine.
//! Each entry's label, aliases, extension, matcher and children are pinned
//! by a spec predicate of its own, and `root` guarantees the whole catalog
//! through `spec_catalog`.

use vstd::prelude::*;

use crate::base::seq_views;
use crate::detector::Detector;
use crate::mime::Mime;
use vstd::string::StringExecFns;

verus! {

/// The catalog entry for `image/x-xpixmap` (.xpm).
pub open spec fn xpm_entry(m: Mime) -> bool {
    &&& m.mime@ == "image/x-xpixmap"@
    &&& m.extension@ == ".xpm"@
    &&& m.aliases@.len() == 0
    &&& (m.detector matches Detector::Prefix(sigs) && seq_views(sigs@) == seq![seq![0x2fu8, 0x2au8, 0x20u8, 0x58u8, 0x50u8, 0x4du8, 0x20u8, 0x2au8, 0x2fu8]])  // "/* XPM */"
    &&& m.children@.len() == 0
}

/// The catalog entry for `application/x-7z-compressed` (.7z).
pub open spec fn seven_z_entry(m: Mime) -> bool {
    &&& m.mime@ == "application/x-7z-compressed"@
    &&& m.extension@ == ".7z"@
    &&& m.aliases@.len() == 0
    &&& (m.detector matches Detector::Prefix(sigs) && seq_views(sigs@) == seq![seq![0x37u8, 0x7au8, 0xbcu8, 0xafu8, 0x27u8, 0x1cu8]])
    &&& m.children@.len() == 0
}

/// The catalog entry for `application/vnd.openxmlformats-officedocument.spreadsheetml.sheet` (.xlsx).
pub open spec fn xlsx_entry(m: Mime) -> bool {
    &&& m.mime@ == "application/vnd.openxmlformats-officedocument.spreadsheetml.sheet"@
    &&& m.extension@ == ".xlsx"@
    &&& m.aliases@.len() == 0
    &&& m.detector is Xlsx
    &&& m.children@.len() == 0
}

/// The catalog entry for `application/vnd.openxmlformats-officedocument.wordprocessingml.document` (.docx).
pub open spec fn docx_entry(m: Mime) -> bool {
    &&& m.mime@ == "application/vnd.openxmlformats-officedocument.wordprocessingml.document"@
    &&& m.extension@ == ".docx"@
    &&& m.aliases@.len() == 0
    &&& m.detector is Docx
    &&& m.children@.len() == 0
}

/// The catalog entry for `application/vnd.openxmlformats-officedocument.presentationml.presentation` (.pptx).
pub open spec fn pptx_entry(m: Mime) -> bool {
    &&& m.mime@ == "application/vnd.openxmlformats-officedocument.presentationml.presentation"@
    &&& m.extension@ == ".pptx"@
    &&& m.aliases@.len() == 0
    &&& m.detector is Pptx
    &&& m.children@.len() == 0
}

/// The catalog entry for `application/epub+zip` (.epub).
pub open spec fn epub_entry(m: Mime) -> bool {
    &&& m.mime@ == "application/epub+zip"@
    &&& m.extension@ == ".epub"@
    &&& m.aliases@.len() == 0
    &&& (m.detector matches Detector::Offset(off, sig) && off == 30 && sig@ == seq![0x6du8, 0x69u8, 0x6du8, 0x65u8, 0x74u8, 0x79u8, 0x70u8, 0x65u8, 0x61u8, 0x70u8, 0x70u8, 0x6cu8, 0x69u8, 0x63u8, 0x61u8, 0x74u8, 0x69u8, 0x6fu8, 0x6eu8, 0x2fu8, 0x65u8, 0x70u8, 0x75u8, 0x62u8, 0x2bu8, 0x7au8, 0x69u8, 0x70u8])  // "mimetypeapplication/epub+zip"
    &&& m.children@.len() == 0
}

/// The catalog entry for `application/jar` (.jar).
pub open spec fn jar_entry(m: Mime) -> bool {
    &&& m.mime@ == "application/jar"@
    &&& m.extension@ == ".jar"@
    &&& m.aliases@.len() == 0
    &&& m.detector is Jar
    &&& m.children@.len() == 0
}

/// The catalog entry for `application/vnd.oasis.opendocument.text-template` (.ott).
pub open spec fn ott_entry(m: Mime) -> bool {
    &&& m.mime@ == "application/vnd.oasis.opendocument.text-template"@
    &&& m.extension@ == ".ott"@
    &&& m.aliases@.len() == 1
    &&& m.aliases@[0]@ == "application/x-vnd.oasis.opendocument.text-template"@
    &&& (m.detector matches Detector::Offset(off, sig) && off == 30 && sig@ == seq![0x6du8, 0x69u8, 0x6du8, 0x65u8, 0x74u8, 0x79u8, 0x70u8, 0x65u8, 0x61u8, 0x70u8, 0x70u8, 0x6cu8, 0x69u8, 0x63u8, 0x61u8, 0x74u8, 0x69u8, 0x6fu8, 0x6eu8, 0x2fu8, 0x76u8, 0x6eu8, 0x64u8, 0x2eu8, 0x6fu8, 0x61u8, 0x73u8, 0x69u8, 0x73u8, 0x2eu8, 0x6fu8, 0x70u8, 0x65u8, 0x6eu8, 0x64u8, 0x6fu8, 0x63u8, 0x75u8, 0x6du8, 0x65u8, 0x6eu8, 0x74u8, 0x2eu8, 0x74u8, 0x65u8, 0x78u8, 0x74u8, 0x2du8, 0x74u8, 0x65u8, 0x6du8, 0x70u8, 0x6cu8, 0x61u8, 0x74u8, 0x65u8])  // "mimetypeapplication/vnd.oasis.opendocument.text-template"
    &&& m.children@.len() == 0
}

/// The catalog entry for `application/vnd.oasis.opendocument.text` (.odt).
pub open spec fn odt_entry(m: Mime) -> bool {
    &&& m.mime@ == "application/vnd.oasis.opendocument.text"@
    &&& m.extension@ == ".odt"@
    &&& m.aliases@.len() == 1
    &&& m.aliases@[0]@ == "application/x-vnd.oasis.opendocument.text"@
    &&& (m.detector matches Detector::Offset(off, sig) && off == 30 && sig@ == seq![0x6du8, 0x69u8, 0x6du8, 0x65u8, 0x74u8, 0x79u8, 0x70u8, 0x65u8, 0x61u8, 0x70u8, 0x70u8, 0x6cu8, 0x69u8, 0x63u8, 0x61u8, 0x74u8, 0x69u8, 0x6fu8, 0x6eu8, 0x2fu8, 0x76u8, 0x6eu8, 0x64u8, 0x2eu8, 0x6fu8, 0x61u8, 0x73u8, 0x69u8, 0x73u8, 0x2eu8, 0x6fu8, 0x70u8, 0x65u8, 0x6eu8, 0x64u8, 0x6fu8, 0x63u8, 0x75u8, 0x6du8, 0x65u8, 0x6eu8, 0x74u8, 0x2eu8, 0x74u8, 0x65u8, 0x78u8, 0x74u8])  // "mimetypeapplication/vnd.oasis.opendocument.text"
    &&& m.children@.len() == 1
    &&& ott_entry(m.children@[0])
}

/// The catalog entry for `application/vnd.oasis.opendocument.spreadsheet-template` (.ots).
pub open spec fn ots_entry(m: Mime) -> bool {
    &&& m.mime@ == "application/vnd.oasis.opendocument.spreadsheet-template"@
    &&& m.extension@ == ".ots"@
    &&& m.aliases@.len() == 1
    &&& m.aliases@[0]@ == "application/x-vnd.oasis.opendocument.spreadsheet-template"@
    &&& (m.detector matches Detector::Offset(off, sig) && off == 30 && sig@ == seq![0x6du8, 0x69u8, 0x6du8, 0x65u8, 0x74u8, 0x79u8, 0x70u8, 0x65u8, 0x61u8, 0x70u8, 0x70u8, 0x6cu8, 0x69u8, 0x63u8, 0x61u8, 0x74u8, 0x69u8, 0x6fu8, 0x6eu8, 0x2fu8, 0x76u8, 0x6eu8, 0x64u8, 0x2eu8, 0x6fu8, 0x61u8, 0x73u8, 0x69u8, 0x73u8, 0x2eu8, 0x6fu8, 0x70u8, 0x65u8, 0x6eu8, 0x64u8, 0x6fu8, 0x63u8, 0x75u8, 0x6du8, 0x65u8, 0x6eu8, 0x74u8, 0x2eu8, 0x73u8, 0x70u8, 0x72u8, 0x65u8, 0x61u8, 0x64u8, 0x73u8, 0x68u8, 0x65u8, 0x65u8, 0x74u8, 0x2du8, 0x74u8, 0x65u8, 0x6du8, 0x70u8, 0x6cu8, 0x61u8, 0x74u8, 0x65u8])  // "mimetypeapplication/vnd.oasis.opendocument.spreadsheet-template"
    &&& m.children@.len() == 0
}

/// The catalog entry for `application/vnd.oasis.opendocument.spreadsheet` (.ods).
pub open spec fn ods_entry(m: Mime) -> bool {
    &&& m.mime@ == "application/vnd.oasis.opendocument.spreadsheet"@
    &&& m.extension@ == ".ods"@
    &&& m.aliases@.len() == 1
    &&& m.aliases@[0]@ == "application/x-vnd.oasis.opendocument.spreadsheet"@
    &&& (m.detector matches Detector::Offset(off, sig) && off == 30 && sig@ == seq![0x6du8, 0x69u8, 0x6du8, 0x65u8, 0x74u8, 0x79u8, 0x70u8, 0x65u8, 0x61u8, 0x70u8, 0x70u8, 0x6cu8, 0x69u8, 0x63u8, 0x61u8, 0x74u8, 0x69u8, 0x6fu8, 0x6eu8, 0x2fu8, 0x76u8, 0x6eu8, 0x64u8, 0x2eu8, 0x6fu8, 0x61u8, 0x73u8, 0x69u8, 0x73u8, 0x2eu8, 0x6fu8, 0x70u8, 0x65u8, 0x6eu8, 0x64u8, 0x6fu8, 0x63u8, 0x75u8, 0x6du8, 0x65u8, 0x6eu8, 0x74u8, 0x2eu8, 0x73u8, 0x70u8, 0x72u8, 0x65u8, 0x61u8, 0x64u8, 0x73u8, 0x68u8, 0x65u8, 0x65u8, 0x74u8])  // "mimetypeapplication/vnd.oasis.opendocument.spreadsheet"
    &&& m.children@.len() == 1
    &&& ots_entry(m.children@[0])
}

/// The catalog entry for `application/vnd.oasis.opendocument.presentation-template` (.otp).
pub open spec fn otp_entry(m: Mime) -> bool {
    &&& m.mime@ == "application/vnd.oasis.opendocument.presentation-template"@
    &&& m.extension@ == ".otp"@
    &&& m.aliases@.len() == 1
    &&& m.aliases@[0]@ == "application/x-vnd.oasis.opendocument.presentation-template"@
    &&& (m.detector matches Detector::Offset(off, sig) && off == 30 && sig@ == seq![0x6du8, 0x69u8, 0x6du8, 0x65u8, 0x74u8, 0x79u8, 0x70u8, 0x65u8, 0x61u8, 0x70u8, 0x70u8, 0x6cu8, 0x69u8, 0x63u8, 0x61u8, 0x74u8, 0x69u8, 0x6fu8, 0x6eu8, 0x2fu8, 0x76u8, 0x6eu8, 0x64u8, 0x2eu8, 0x6fu8, 0x61u8, 0x73u8, 0x69u8, 0x73u8, 0x2eu8, 0x6fu8, 0x70u8, 0x65u8, 0x6eu8, 0x64u8, 0x6fu8, 0x63u8, 0x75u8, 0x6du8, 0x65u8, 0x6eu8, 0x74u8, 0x2eu8, 0x70u8, 0x72u8, 0x65u8, 0x73u8, 0x65u8, 0x6eu8, 0x74u8, 0x61u8, 0x74u8, 0x69u8, 0x6fu8, 0x6eu8, 0x2du8, 0x74u8, 0x65u8, 0x6du8, 0x70u8, 0x6cu8, 0x61u8, 0x74u8, 0x65u8])  // "mimetypeapplication/vnd.oasis.opendocument.presentation-template"
    &&& m.children@.len() == 0
}

/// The catalog entry for `application/vnd.oasis.opendocument.presentation` (.odp).
pub open spec fn odp_entry(m: Mime) -> bool {
    &&& m.mime@ == "application/vnd.oasis.opendocument.presentation"@
    &&& m.extension@ == ".odp"@
    &&& m.aliases@.len() == 1
    &&& m.aliases@[0]@ == "application/x-vnd.oasis.opendocument.presentation"@
    &&& (m.detector matches Detector::Offset(off, sig) && off == 30 && sig@ == seq![0x6du8, 0x69u8, 0x6du8, 0x65u8, 0x74u8, 0x79u8, 0x70u8, 0x65u8, 0x61u8, 0x70u8, 0x70u8, 0x6cu8, 0x69u8, 0x63u8, 0x61u8, 0x74u8, 0x69u8, 0x6fu8, 0x6eu8, 0x2fu8, 0x76u8, 0x6eu8, 0x64u8, 0x2eu8, 0x6fu8, 0x61u8, 0x73u8, 0x69u8, 0x73u8, 0x2eu8, 0x6fu8, 0x70u8, 0x65u8, 0x6eu8, 0x64u8, 0x6fu8, 0x63u8, 0x75u8, 0x6du8, 0x65u8, 0x6eu8, 0x74u8, 0x2eu8, 0x70u8, 0x72u8, 0x65u8, 0x73u8, 0x65u8, 0x6eu8, 0x74u8, 0x61u8, 0x74u8, 0x69u8, 0x6fu8, 0x6eu8])  // "mimetypeapplication/vnd.oasis.opendocument.presentation"
    &&& m.children@.len() == 1
    &&& otp_entry(m.children@[0])
}

/// The catalog entry for `application/vnd.oasis.opendocument.graphics-template` (.otg).
pub open spec fn otg_entry(m: Mime) -> bool {
    &&& m.mime@ == "application/vnd.oasis.opendocument.graphics-template"@
    &&& m.extension@ == ".otg"@
    &&& m.aliases@.len() == 1
    &&& m.aliases@[0]@ == "application/x-vnd.oasis.opendocument.graphics-template"@
    &&& (m.detector matches Detector::Offset(off, sig) && off == 30 && sig@ == seq![0x6du8, 0x69u8, 0x6du8, 0x65u8, 0x74u8, 0x79u8, 0x70u8, 0x65u8, 0x61u8, 0x70u8, 0x70u8, 0x6cu8, 0x69u8, 0x63u8, 0x61u8, 0x74u8, 0x69u8, 0x6fu8, 0x6eu8, 0x2fu8, 0x76u8, 0x6eu8, 0x64u8, 0x2eu8, 0x6fu8, 0x61u8, 0x73u8, 0x69u8, 0x73u8, 0x2eu8, 0x6fu8, 0x70u8, 0x65u8, 0x6eu8, 0x64u8, 0x6fu8, 0x63u8, 0x75u8, 0x6du8, 0x65u8, 0x6eu8, 0x74u8, 0x2eu8, 0x67u8, 0x72u8, 0x61u8, 0x70u8, 0x68u8, 0x69u8, 0x63u8, 0x73u8, 0x2du8, 0x74u8, 0x65u8, 0x6du8, 0x70u8, 0x6cu8, 0x61u8, 0x74u8, 0x65u8])  // "mimetypeapplication/vnd.oasis.opendocument.graphics-template"
    &&& m.children@.len() == 0
}

/// The catalog entry for `application/vnd.oasis.opendocument.graphics` (.odg).
pub open spec fn odg_entry(m: Mime) -> bool {
    &&& m.mime@ == "application/vnd.oasis.opendocument.graphics"@
    &&& m.extension@ == ".odg"@
    &&& m.aliases@.len() == 1
    &&& m.aliases@[0]@ == "application/x-vnd.oasis.opendocument.graphics"@
    &&& (m.detector matches Detector::Offset(off, sig) && off == 30 && sig@ == seq![0x6du8, 0x69u8, 0x6du8, 0x65u8, 0x74u8, 0x79u8, 0x70u8, 0x65u8, 0x61u8, 0x70u8, 0x70u8, 0x6cu8, 0x69u8, 0x63u8, 0x61u8, 0x74u8, 0x69u8, 0x6fu8, 0x6eu8, 0x2fu8, 0x76u8, 0x6eu8, 0x64u8, 0x2eu8, 0x6fu8, 0x61u8, 0x73u8, 0x69u8, 0x73u8, 0x2eu8, 0x6fu8, 0x70u8, 0x65u8, 0x6eu8, 0x64u8, 0x6fu8, 0x63u8, 0x75u8, 0x6du8, 0x65u8, 0x6eu8, 0x74u8, 0x2eu8, 0x67u8, 0x72u8, 0x61u8, 0x70u8, 0x68u8, 0x69u8, 0x63u8, 0x73u8])  // "mimetypeapplication/vnd.oasis.opendocument.graphics"
    &&& m.children@.len() == 1
    &&& otg_entry(m.children@[0])
}

/// The catalog entry for `application/vnd.oasis.opendocument.formula` (.odf).
pub open spec fn odf_entry(m: Mime) -> bool {
    &&& m.mime@ == "application/vnd.oasis.opendocument.formula"@
    &&& m.extension@ == ".odf"@
    &&& m.aliases@.len() == 1
    &&& m.aliases@[0]@ == "application/x-vnd.oasis.opendocument.formula"@
    &&& (m.detector matches Detector::Offset(off, sig) && off == 30 && sig@ == seq![0x6du8, 0x69u8, 0x6du8, 0x65u8, 0x74u8, 0x79u8, 0x70u8, 0x65u8, 0x61u8, 0x70u8, 0x70u8, 0x6cu8, 0x69u8, 0x63u8, 0x61u8, 0x74u8, 0x69u8, 0x6fu8, 0x6eu8, 0x2fu8, 0x76u8, 0x6eu8, 0x64u8, 0x2eu8, 0x6fu8, 0x61u8, 0x73u8, 0x69u8, 0x73u8, 0x2eu8, 0x6fu8, 0x70u8, 0x65u8, 0x6eu8, 0x64u8, 0x6fu8, 0x63u8, 0x75u8, 0x6du8, 0x65u8, 0x6eu8, 0x74u8, 0x2eu8, 0x66u8, 0x6fu8, 0x72u8, 0x6du8, 0x75u8, 0x6cu8, 0x61u8])  // "mimetypeapplication/vnd.oasis.opendocument.formula"
    &&& m.children@.len() == 0
}

/// The catalog entry for `application/vnd.oasis.opendocument.chart` (.odc).
pub open spec fn odc_entry(m: Mime) -> bool {
    &&& m.mime@ == "application/vnd.oasis.opendocument.chart"@
    &&& m.extension@ == ".odc"@
    &&& m.aliases@.len() == 1
    &&& m.aliases@[0]@ == "application/x-vnd.oasis.opendocument.chart"@
    &&& (m.detector matches Detector::Offset(off, sig) && off == 30 && sig@ == seq![0x6du8, 0x69u8, 0x6du8, 0x65u8, 0x74u8, 0x79u8, 0x70u8, 0x65u8, 0x61u8, 0x70u8, 0x70u8, 0x6cu8, 0x69u8, 0x63u8, 0x61u8, 0x74u8, 0x69u8, 0x6fu8, 0x6eu8, 0x2fu8, 0x76u8, 0x6eu8, 0x64u8, 0x2eu8, 0x6fu8, 0x61u8, 0x73u8, 0x69u8, 0x73u8, 0x2eu8, 0x6fu8, 0x70u8, 0x65u8, 0x6eu8, 0x64u8, 0x6fu8, 0x63u8, 0x75u8, 0x6du8, 0x65u8, 0x6eu8, 0x74u8, 0x2eu8, 0x63u8, 0x68u8, 0x61u8, 0x72u8, 0x74u8])  // "mimetypeapplication/vnd.oasis.opendocument.chart"
    &&& m.children@.len() == 0
}

/// The catalog entry for `application/vnd.sun.xml.calc` (.sxc).
pub open spec fn sxc_entry(m: Mime) -> bool {
    &&& m.mime@ == "application/vnd.sun.xml.calc"@
    &&& m.extension@ == ".sxc"@
    &&& m.aliases@.len() == 1
    &&& m.aliases@[0]@ == "application/x-vnd.sun.xml.calc"@
    &&& (m.detector matches Detector::Offset(off, sig) && off == 30 && sig@ == seq![0x6du8, 0x69u8, 0x6du8, 0x65u8, 0x74u8, 0x79u8, 0x70u8, 0x65u8, 0x61u8, 0x70u8, 0x70u8, 0x6cu8, 0x69u8, 0x63u8, 0x61u8, 0x74u8, 0x69u8, 0x6fu8, 0x6eu8, 0x2fu8, 0x76u8, 0x6eu8, 0x64u8, 0x2eu8, 0x73u8, 0x75u8, 0x6eu8, 0x2eu8, 0x78u8, 0x6du8, 0x6cu8, 0x2eu8, 0x63u8, 0x61u8, 0x6cu8, 0x63u8])  // "mimetypeapplication/vnd.sun.xml.calc"
    &&& m.children@.len() == 0
}

/// The catalog entry for `application/zip` (.zip).
pub open spec fn zip_entry(m: Mime) -> bool {
    &&& m.mime@ == "application/zip"@
    &&& m.extension@ == ".zip"@
    &&& m.aliases@.len() == 0
    &&& m.detector is Zip
    &&& m.children@.len() == 12
    &&& xlsx_entry(m.children@[0])
    &&& docx_entry(m.children@[1])
    &&& pptx_entry(m.children@[2])
    &&& epub_entry(m.children@[3])
    &&& jar_entry(m.children@[4])
    &&& odt_entry(m.children@[5])
    &&& ods_entry(m.children@[6])
    &&& odp_entry(m.children@[7])
    &&& odg_entry(m.children@[8])
    &&& odf_entry(m.children@[9])
    &&& odc_entry(m.children@[10])
    &&& sxc_entry(m.children@[11])
}

/// The catalog entry for `application/pdf` (.pdf).
pub open spec fn pdf_entry(m: Mime) -> bool {
    &&& m.mime@ == "application/pdf"@
    &&& m.extension@ == ".pdf"@
    &&& m.aliases@.len() == 1
    &&& m.aliases@[0]@ == "application/x-pdf"@
    &&& (m.detector matches Detector::Prefix(sigs) && seq_views(sigs@) == seq![seq![0x25u8, 0x50u8, 0x44u8, 0x46u8, 0x2du8], seq![0x0au8, 0x25u8, 0x50u8, 0x44u8, 0x46u8, 0x2du8], seq![0xefu8, 0xbbu8, 0xbfu8, 0x25u8, 0x50u8, 0x44u8, 0x46u8, 0x2du8]])  // "%PDF-"
    &&& m.children@.len() == 0
}

/// The catalog entry for `application/vnd.fdf` (.fdf).
pub open spec fn fdf_entry(m: Mime) -> bool {
    &&& m.mime@ == "application/vnd.fdf"@
    &&& m.extension@ == ".fdf"@
    &&& m.aliases@.len() == 0
    &&& (m.detector matches Detector::Prefix(sigs) && seq_views(sigs@) == seq![seq![0x25u8, 0x46u8, 0x44u8, 0x46u8]])  // "%FDF"
    &&& m.children@.len() == 0
}

/// The catalog entry for `application/x-ms-installer` (.msi).
pub open spec fn msi_entry(m: Mime) -> bool {
    &&& m.mime@ == "application/x-ms-installer"@
    &&& m.extension@ == ".msi"@
    &&& m.aliases@.len() == 2
    &&& m.aliases@[0]@ == "application/x-windows-installer"@
    &&& m.aliases@[1]@ == "application/x-msi"@
    &&& m.detector is Msi
    &&& m.children@.len() == 0
}

/// The catalog entry for `application/octet-stream` (.aaf).
pub open spec fn aaf_entry(m: Mime) -> bool {
    &&& m.mime@ == "application/octet-stream"@
    &&& m.extension@ == ".aaf"@
    &&& m.aliases@.len() == 0
    &&& m.detector is Aaf
    &&& m.children@.len() == 0
}

/// The catalog entry for `application/vnd.ms-outlook` (.msg).
pub open spec fn msg_entry(m: Mime) -> bool {
    &&& m.mime@ == "application/vnd.ms-outlook"@
    &&& m.extension@ == ".msg"@
    &&& m.aliases@.len() == 0
    &&& m.detector is Msg
    &&& m.children@.len() == 0
}

/// The catalog entry for `application/vnd.ms-excel` (.xls).
pub open spec fn xls_entry(m: Mime) -> bool {
    &&& m.mime@ == "application/vnd.ms-excel"@
    &&& m.extension@ == ".xls"@
    &&& m.aliases@.len() == 1
    &&& m.aliases@[0]@ == "application/msexcel"@
    &&& m.detector is Xls
    &&& m.children@.len() == 0
}

/// The catalog entry for `application/vnd.ms-publisher` (.pub).
pub open spec fn publisher_entry(m: Mime) -> bool {
    &&& m.mime@ == "application/vnd.ms-publisher"@
    &&& m.extension@ == ".pub"@
    &&& m.aliases@.len() == 0
    &&& m.detector is Publisher
    &&& m.children@.len() == 0
}

/// The catalog entry for `application/vnd.ms-powerpoint` (.ppt).
pub open spec fn ppt_entry(m: Mime) -> bool {
    &&& m.mime@ == "application/vnd.ms-powerpoint"@
    &&& m.extension@ == ".ppt"@
    &&& m.aliases@.len() == 1
    &&& m.aliases@[0]@ == "application/mspowerpoint"@
    &&& m.detector is Ppt
    &&& m.children@.len() == 0
}

/// The catalog entry for `application/msword` (.doc).
pub open spec fn doc_entry(m: Mime) -> bool {
    &&& m.mime@ == "application/msword"@
    &&& m.extension@ == ".doc"@
    &&& m.aliases@.len() == 1
    &&& m.aliases@[0]@ == "application/vnd.ms-word"@
    &&& m.detector is Doc
    &&& m.children@.len() == 0
}

/// The catalog entry for `application/x-ole-storage` (no extension).
pub open spec fn ole_entry(m: Mime) -> bool {
    &&& m.mime@ == "application/x-ole-storage"@
    &&& m.extension@ == ""@
    &&& m.aliases@.len() == 0
    &&& (m.detector matches Detector::Prefix(sigs) && seq_views(sigs@) == seq![seq![0xd0u8, 0xcfu8, 0x11u8, 0xe0u8, 0xa1u8, 0xb1u8, 0x1au8, 0xe1u8]])
    &&& m.children@.len() == 7
    &&& msi_entry(m.children@[0])
    &&& aaf_entry(m.children@[1])
    &&& msg_entry(m.children@[2])
    &&& xls_entry(m.children@[3])
    &&& publisher_entry(m.children@[4])
    &&& ppt_entry(m.children@[5])
    &&& doc_entry(m.children@[6])
}

/// The catalog entry for `application/postscript` (.ps).
pub open spec fn ps_entry(m: Mime) -> bool {
    &&& m.mime@ == "application/postscript"@
    &&& m.extension@ == ".ps"@
    &&& m.aliases@.len() == 0
    &&& (m.detector matches Detector::Prefix(sigs) && seq_views(sigs@) == seq![seq![0x25u8, 0x21u8, 0x50u8, 0x53u8, 0x2du8, 0x41u8, 0x64u8, 0x6fu8, 0x62u8, 0x65u8, 0x2du8]])  // "%!PS-Adobe-"
    &&& m.children@.len() == 0
}

/// The catalog entry for `image/vnd.adobe.photoshop` (.psd).
pub open spec fn psd_entry(m: Mime) -> bool {
    &&& m.mime@ == "image/vnd.adobe.photoshop"@
    &&& m.extension@ == ".psd"@
    &&& m.aliases@.len() == 2
    &&& m.aliases@[0]@ == "image/x-psd"@
    &&& m.aliases@[1]@ == "application/photoshop"@
    &&& (m.detector matches Detector::Prefix(sigs) && seq_views(sigs@) == seq![seq![0x38u8, 0x42u8, 0x50u8, 0x53u8]])  // "8BPS"
    &&& m.children@.len() == 0
}

/// The catalog entry for `application/pkcs7-signature` (.p7s).
pub open spec fn p7s_entry(m: Mime) -> bool {
    &&& m.mime@ == "application/pkcs7-signature"@
    &&& m.extension@ == ".p7s"@
    &&& m.aliases@.len() == 0
    &&& m.detector is P7s
    &&& m.children@.len() == 0
}

/// The catalog entry for `audio/ogg` (.ogg).
pub open spec fn ogg_audio_entry(m: Mime) -> bool {
    &&& m.mime@ == "audio/ogg"@
    &&& m.extension@ == ".ogg"@
    &&& m.aliases@.len() == 0
    &&& m.detector is OggAudio
    &&& m.children@.len() == 0
}

/// The catalog entry for `video/ogg` (.ogv).
pub open spec fn ogg_video_entry(m: Mime) -> bool {
    &&& m.mime@ == "video/ogg"@
    &&& m.extension@ == ".ogv"@
    &&& m.aliases@.len() == 0
    &&& m.detector is OggVideo
    &&& m.children@.len() == 0
}

/// The catalog entry for `application/ogg` (.ogg).
pub open spec fn ogg_entry(m: Mime) -> bool {
    &&& m.mime@ == "application/ogg"@
    &&& m.extension@ == ".ogg"@
    &&& m.aliases@.len() == 1
    &&& m.aliases@[0]@ == "application/x-ogg"@
    &&& (m.detector matches Detector::Prefix(sigs) && seq_views(sigs@) == seq![seq![0x4fu8, 0x67u8, 0x67u8, 0x53u8, 0x00u8]])
    &&& m.children@.len() == 2
    &&& ogg_audio_entry(m.children@[0])
    &&& ogg_video_entry(m.children@[1])
}

/// The catalog entry for `image/vnd.mozilla.apng` (.apng).
pub open spec fn apng_entry(m: Mime) -> bool {
    &&& m.mime@ == "image/vnd.mozilla.apng"@
    &&& m.extension@ == ".apng"@
    &&& m.aliases@.len() == 0
    &&& (m.detector matches Detector::Offset(off, sig) && off == 37 && sig@ == seq![0x61u8, 0x63u8, 0x54u8, 0x4cu8])  // "acTL"
    &&& m.children@.len() == 0
}

/// The catalog entry for `image/png` (.png).
pub open spec fn png_entry(m: Mime) -> bool {
    &&& m.mime@ == "image/png"@
    &&& m.extension@ == ".png"@
    &&& m.aliases@.len() == 0
    &&& (m.detector matches Detector::Prefix(sigs) && seq_views(sigs@) == seq![seq![0x89u8, 0x50u8, 0x4eu8, 0x47u8, 0x0du8, 0x0au8, 0x1au8, 0x0au8]])
    &&& m.children@.len() == 1
    &&& apng_entry(m.children@[0])
}

/// The catalog entry for `image/jpeg` (.jpg).
pub open spec fn jpg_entry(m: Mime) -> bool {
    &&& m.mime@ == "image/jpeg"@
    &&& m.extension@ == ".jpg"@
    &&& m.aliases@.len() == 0
    &&& (m.detector matches Detector::Prefix(sigs) && seq_views(sigs@) == seq![seq![0xffu8, 0xd8u8, 0xffu8]])
    &&& m.children@.len() == 0
}

/// The catalog entry for `image/jxl` (.jxl).
pub open spec fn jxl_entry(m: Mime) -> bool {
    &&& m.mime@ == "image/jxl"@
    &&& m.extension@ == ".jxl"@
    &&& m.aliases@.len() == 0
    &&& m.detector is Jxl
    &&& m.children@.len() == 0
}

/// The catalog entry for `image/jp2` (.jp2).
pub open spec fn jp2_entry(m: Mime) -> bool {
    &&& m.mime@ == "image/jp2"@
    &&& m.extension@ == ".jp2"@
    &&& m.aliases@.len() == 0
    &&& (m.detector matches Detector::Jpeg2k(sig) && sig@ == seq![0x6au8, 0x70u8, 0x32u8, 0x20u8])  // "jp2 "
    &&& m.children@.len() == 0
}

/// The catalog entry for `image/jpx` (.jpf).
pub open spec fn jpx_entry(m: Mime) -> bool {
    &&& m.mime@ == "image/jpx"@
    &&& m.extension@ == ".jpf"@
    &&& m.aliases@.len() == 0
    &&& (m.detector matches Detector::Jpeg2k(sig) && sig@ == seq![0x6au8, 0x70u8, 0x78u8, 0x20u8])  // "jpx "
    &&& m.children@.len() == 0
}

/// The catalog entry for `image/jpm` (.jpm).
pub open spec fn jpm_entry(m: Mime) -> bool {
    &&& m.mime@ == "image/jpm"@
    &&& m.extension@ == ".jpm"@
    &&& m.aliases@.len() == 0
    &&& (m.detector matches Detector::Jpeg2k(sig) && sig@ == seq![0x6au8, 0x70u8, 0x6du8, 0x20u8])  // "jpm "
    &&& m.children@.len() == 0
}

/// The catalog entry for `image/jxs` (.jxs).
pub open spec fn jxs_entry(m: Mime) -> bool {
    &&& m.mime@ == "image/jxs"@
    &&& m.extension@ == ".jxs"@
    &&& m.aliases@.len() == 0
    &&& (m.detector matches Detector::Prefix(sigs) && seq_views(sigs@) == seq![seq![0x00u8, 0x00u8, 0x00u8, 0x0cu8, 0x4au8, 0x58u8, 0x53u8, 0x20u8, 0x0du8, 0x0au8, 0x87u8, 0x0au8]])
    &&& m.children@.len() == 0
}

/// The catalog entry for `image/gif` (.gif).
pub open spec fn gif_entry(m: Mime) -> bool {
    &&& m.mime@ == "image/gif"@
    &&& m.extension@ == ".gif"@
    &&& m.aliases@.len() == 0
    &&& (m.detector matches Detector::Prefix(sigs) && seq_views(sigs@) == seq![seq![0x47u8, 0x49u8, 0x46u8, 0x38u8, 0x37u8, 0x61u8], seq![0x47u8, 0x49u8, 0x46u8, 0x38u8, 0x39u8, 0x61u8]])  // "GIF87a", "GIF89a"
    &&& m.children@.len() == 0
}

/// The catalog entry for `image/webp` (.webp).
pub open spec fn webp_entry(m: Mime) -> bool {
    &&& m.mime@ == "image/webp"@
    &&& m.extension@ == ".webp"@
    &&& m.aliases@.len() == 0
    &&& m.detector is Webp
    &&& m.children@.len() == 0
}

/// The catalog entry for `application/vnd.microsoft.portable-executable` (.exe).
pub open spec fn exe_entry(m: Mime) -> bool {
    &&& m.mime@ == "application/vnd.microsoft.portable-executable"@
    &&& m.extension@ == ".exe"@
    &&& m.aliases@.len() == 0
    &&& (m.detector matches Detector::Prefix(sigs) && seq_views(sigs@) == seq![seq![0x4du8, 0x5au8]])
    &&& m.children@.len() == 0
}

/// The catalog entry for `application/x-object` (no extension).
pub open spec fn elf_obj_entry(m: Mime) -> bool {
    &&& m.mime@ == "application/x-object"@
    &&& m.extension@ == ""@
    &&& m.aliases@.len() == 0
    &&& m.detector is ElfObj
    &&& m.children@.len() == 0
}

/// The catalog entry for `application/x-executable` (no extension).
pub open spec fn elf_exe_entry(m: Mime) -> bool {
    &&& m.mime@ == "application/x-executable"@
    &&& m.extension@ == ""@
    &&& m.aliases@.len() == 0
    &&& m.detector is ElfExe
    &&& m.children@.len() == 0
}

/// The catalog entry for `application/x-sharedlib` (.so).
pub open spec fn elf_lib_entry(m: Mime) -> bool {
    &&& m.mime@ == "application/x-sharedlib"@
    &&& m.extension@ == ".so"@
    &&& m.aliases@.len() == 0
    &&& m.detector is ElfLib
    &&& m.children@.len() == 0
}

/// The catalog entry for `application/x-coredump` (no extension).
pub open spec fn elf_dump_entry(m: Mime) -> bool {
    &&& m.mime@ == "application/x-coredump"@
    &&& m.extension@ == ""@
    &&& m.aliases@.len() == 0
    &&& m.detector is ElfDump
    &&& m.children@.len() == 0
}

/// The catalog entry for `application/x-elf` (.elf).
pub open spec fn elf_entry(m: Mime) -> bool {
    &&& m.mime@ == "application/x-elf"@
    &&& m.extension@ == ".elf"@
    &&& m.aliases@.len() == 0
    &&& (m.detector matches Detector::Prefix(sigs) && seq_views(sigs@) == seq![seq![0x7fu8, 0x45u8, 0x4cu8, 0x46u8]])
    &&& m.children@.len() == 4
    &&& elf_obj_entry(m.children@[0])
    &&& elf_exe_entry(m.children@[1])
    &&& elf_lib_entry(m.children@[2])
    &&& elf_dump_entry(m.children@[3])
}

/// The catalog entry for `application/vnd.debian.binary-package` (.deb).
pub open spec fn deb_entry(m: Mime) -> bool {
    &&& m.mime@ == "application/vnd.debian.binary-package"@
    &&& m.extension@ == ".deb"@
    &&& m.aliases@.len() == 0
    &&& (m.detector matches Detector::Offset(off, sig) && off == 8 && sig@ == seq![0x64u8, 0x65u8, 0x62u8, 0x69u8, 0x61u8, 0x6eu8, 0x2du8, 0x62u8, 0x69u8, 0x6eu8, 0x61u8, 0x72u8, 0x79u8])  // "debian-binary"
    &&& m.children@.len() == 0
}

/// The catalog entry for `application/x-archive` (.a).
pub open spec fn ar_entry(m: Mime) -> bool {
    &&& m.mime@ == "application/x-archive"@
    &&& m.extension@ == ".a"@
    &&& m.aliases@.len() == 0
    &&& (m.detector matches Detector::Prefix(sigs) && seq_views(sigs@) == seq![seq![0x21u8, 0x3cu8, 0x61u8, 0x72u8, 0x63u8, 0x68u8, 0x3eu8]])  // "!<arch>"
    &&& m.children@.len() == 1
    &&& deb_entry(m.children@[0])
}

/// The catalog entry for `application/x-tar` (.tar).
pub open spec fn tar_entry(m: Mime) -> bool {
    &&& m.mime@ == "application/x-tar"@
    &&& m.extension@ == ".tar"@
    &&& m.aliases@.len() == 0
    &&& m.detector is Tar
    &&& m.children@.len() == 0
}

/// The catalog entry for `application/x-xar` (.xar).
pub open spec fn xar_entry(m: Mime) -> bool {
    &&& m.mime@ == "application/x-xar"@
    &&& m.extension@ == ".xar"@
    &&& m.aliases@.len() == 0
    &&& (m.detector matches Detector::Prefix(sigs) && seq_views(sigs@) == seq![seq![0x78u8, 0x61u8, 0x72u8, 0x21u8]])  // "xar!"
    &&& m.children@.len() == 0
}

/// The catalog entry for `application/x-bzip2` (.bz2).
pub open spec fn bz2_entry(m: Mime) -> bool {
    &&& m.mime@ == "application/x-bzip2"@
    &&& m.extension@ == ".bz2"@
    &&& m.aliases@.len() == 0
    &&& (m.detector matches Detector::Prefix(sigs) && seq_views(sigs@) == seq![seq![0x42u8, 0x5au8, 0x68u8]])  // "BZh"
    &&& m.children@.len() == 0
}

/// The catalog entry for `application/fits` (.fits).
pub open spec fn fits_entry(m: Mime) -> bool {
    &&& m.mime@ == "application/fits"@
    &&& m.extension@ == ".fits"@
    &&& m.aliases@.len() == 0
    &&& (m.detector matches Detector::Prefix(sigs) && seq_views(sigs@) == seq![seq![0x53u8, 0x49u8, 0x4du8, 0x50u8, 0x4cu8, 0x45u8, 0x20u8, 0x20u8, 0x3du8, 0x20u8, 0x20u8, 0x20u8, 0x20u8, 0x20u8, 0x20u8, 0x20u8, 0x20u8, 0x20u8, 0x20u8, 0x20u8, 0x20u8, 0x20u8, 0x20u8, 0x20u8, 0x20u8, 0x20u8, 0x20u8, 0x20u8, 0x20u8, 0x54u8]])  // "SIMPLE  =                    T"
    &&& m.children@.len() == 0
}

/// The catalog entry for `image/tiff` (.tiff).
pub open spec fn tiff_entry(m: Mime) -> bool {
    &&& m.mime@ == "image/tiff"@
    &&& m.extension@ == ".tiff"@
    &&& m.aliases@.len() == 0
    &&& (m.detector matches Detector::Prefix(sigs) && seq_views(sigs@) == seq![seq![0x49u8, 0x49u8, 0x2au8, 0x00u8], seq![0x4du8, 0x4du8, 0x00u8, 0x2au8]])
    &&& m.children@.len() == 0
}

/// The catalog entry for `image/bmp` (.bmp).
pub open spec fn bmp_entry(m: Mime) -> bool {
    &&& m.mime@ == "image/bmp"@
    &&& m.extension@ == ".bmp"@
    &&& m.aliases@.len() == 2
    &&& m.aliases@[0]@ == "image/x-bmp"@
    &&& m.aliases@[1]@ == "image/x-ms-bmp"@
    &&& (m.detector matches Detector::Prefix(sigs) && seq_views(sigs@) == seq![seq![0x42u8, 0x4du8]])
    &&& m.children@.len() == 0
}

/// The catalog entry for `image/x-icon` (.ico).
pub open spec fn ico_entry(m: Mime) -> bool {
    &&& m.mime@ == "image/x-icon"@
    &&& m.extension@ == ".ico"@
    &&& m.aliases@.len() == 0
    &&& (m.detector matches Detector::Prefix(sigs) && seq_views(sigs@) == seq![seq![0x00u8, 0x00u8, 0x01u8, 0x00u8], seq![0x00u8, 0x00u8, 0x02u8, 0x00u8]])
    &&& m.children@.len() == 0
}

/// The catalog entry for `audio/mpeg` (.mp3).
pub open spec fn mp3_entry(m: Mime) -> bool {
    &&& m.mime@ == "audio/mpeg"@
    &&& m.extension@ == ".mp3"@
    &&& m.aliases@.len() == 2
    &&& m.aliases@[0]@ == "audio/x-mpeg"@
    &&& m.aliases@[1]@ == "audio/mp3"@
    &&& m.detector is Mp3
    &&& m.children@.len() == 0
}

/// The catalog entry for `audio/flac` (.flac).
pub open spec fn flac_entry(m: Mime) -> bool {
    &&& m.mime@ == "audio/flac"@
    &&& m.extension@ == ".flac"@
    &&& m.aliases@.len() == 0
    &&& (m.detector matches Detector::Prefix(sigs) && seq_views(sigs@) == seq![seq![0x66u8, 0x4cu8, 0x61u8, 0x43u8, 0x00u8, 0x00u8, 0x00u8, 0x22u8]])
    &&& m.children@.len() == 0
}

/// The catalog entry for `audio/midi` (.midi).
pub open spec fn midi_entry(m: Mime) -> bool {
    &&& m.mime@ == "audio/midi"@
    &&& m.extension@ == ".midi"@
    &&& m.aliases@.len() == 0
    &&& (m.detector matches Detector::Prefix(sigs) && seq_views(sigs@) == seq![seq![0x4du8, 0x54u8, 0x68u8, 0x64u8]])  // "MThd"
    &&& m.children@.len() == 0
}

/// The catalog entry for `audio/ape` (.ape).
pub open spec fn ape_entry(m: Mime) -> bool {
    &&& m.mime@ == "audio/ape"@
    &&& m.extension@ == ".ape"@
    &&& m.aliases@.len() == 0
    &&& (m.detector matches Detector::Prefix(sigs) && seq_views(sigs@) == seq![seq![0x4du8, 0x41u8, 0x43u8, 0x20u8, 0x96u8, 0x0fu8, 0x00u8, 0x00u8, 0x34u8, 0x00u8, 0x00u8, 0x00u8, 0x18u8, 0x00u8, 0x00u8, 0x00u8, 0x90u8, 0xe3u8]])
    &&& m.children@.len() == 0
}

/// The catalog entry for `audio/musepack` (.mpc).
pub open spec fn musepack_entry(m: Mime) -> bool {
    &&& m.mime@ == "audio/musepack"@
    &&& m.extension@ == ".mpc"@
    &&& m.aliases@.len() == 0
    &&& (m.detector matches Detector::Prefix(sigs) && seq_views(sigs@) == seq![seq![0x4du8, 0x50u8, 0x43u8, 0x4bu8]])  // "MPCK"
    &&& m.children@.len() == 0
}

/// The catalog entry for `audio/amr` (.amr).
pub open spec fn amr_entry(m: Mime) -> bool {
    &&& m.mime@ == "audio/amr"@
    &&& m.extension@ == ".amr"@
    &&& m.aliases@.len() == 1
    &&& m.aliases@[0]@ == "audio/amr-nb"@
    &&& (m.detector matches Detector::Prefix(sigs) && seq_views(sigs@) == seq![seq![0x23u8, 0x21u8, 0x41u8, 0x4du8, 0x52u8]])  // "#!AMR"
    &&& m.children@.len() == 0
}

/// The catalog entry for `audio/wav` (.wav).
pub open spec fn wav_entry(m: Mime) -> bool {
    &&& m.mime@ == "audio/wav"@
    &&& m.extension@ == ".wav"@
    &&& m.aliases@.len() == 3
    &&& m.aliases@[0]@ == "audio/x-wav"@
    &&& m.aliases@[1]@ == "audio/vnd.wave"@
    &&& m.aliases@[2]@ == "audio/wave"@
    &&& m.detector is Wav
    &&& m.children@.len() == 0
}

/// The catalog entry for `audio/aiff` (.aiff).
pub open spec fn aiff_entry(m: Mime) -> bool {
    &&& m.mime@ == "audio/aiff"@
    &&& m.extension@ == ".aiff"@
    &&& m.aliases@.len() == 1
    &&& m.aliases@[0]@ == "audio/x-aiff"@
    &&& m.detector is Aiff
    &&& m.children@.len() == 0
}

/// The catalog entry for `audio/basic` (.au).
pub open spec fn au_entry(m: Mime) -> bool {
    &&& m.mime@ == "audio/basic"@
    &&& m.extension@ == ".au"@
    &&& m.aliases@.len() == 0
    &&& (m.detector matches Detector::Prefix(sigs) && seq_views(sigs@) == seq![seq![0x2eu8, 0x73u8, 0x6eu8, 0x64u8]])  // ".snd"
    &&& m.children@.len() == 0
}

/// The catalog entry for `video/mpeg` (.mpeg).
pub open spec fn mpeg_entry(m: Mime) -> bool {
    &&& m.mime@ == "video/mpeg"@
    &&& m.extension@ == ".mpeg"@
    &&& m.aliases@.len() == 0
    &&& m.detector is Mpeg
    &&& m.children@.len() == 0
}

/// The catalog entry for `video/quicktime` (.mov).
pub open spec fn quicktime_entry(m: Mime) -> bool {
    &&& m.mime@ == "video/quicktime"@
    &&& m.extension@ == ".mov"@
    &&& m.aliases@.len() == 0
    &&& m.detector is QuickTime
    &&& m.children@.len() == 0
}

/// The catalog entry for `video/quicktime` (.mqv).
pub open spec fn mqv_entry(m: Mime) -> bool {
    &&& m.mime@ == "video/quicktime"@
    &&& m.extension@ == ".mqv"@
    &&& m.aliases@.len() == 0
    &&& (m.detector matches Detector::Ftyp(sigs) && seq_views(sigs@) == seq![seq![0x6du8, 0x71u8, 0x74u8, 0x20u8]])  // "mqt "
    &&& m.children@.len() == 0
}

/// The catalog entry for `video/mp4` (.mp4).
pub open spec fn mp4_entry(m: Mime) -> bool {
    &&& m.mime@ == "video/mp4"@
    &&& m.extension@ == ".mp4"@
    &&& m.aliases@.len() == 0
    &&& (m.detector matches Detector::Ftyp(sigs) && seq_views(sigs@) == seq![seq![0x61u8, 0x76u8, 0x63u8, 0x31u8], seq![0x64u8, 0x61u8, 0x73u8, 0x68u8], seq![0x69u8, 0x73u8, 0x6fu8, 0x32u8], seq![0x69u8, 0x73u8, 0x6fu8, 0x33u8], seq![0x69u8, 0x73u8, 0x6fu8, 0x34u8], seq![0x69u8, 0x73u8, 0x6fu8, 0x35u8], seq![0x69u8, 0x73u8, 0x6fu8, 0x36u8], seq![0x69u8, 0x73u8, 0x6fu8, 0x6du8], seq![0x6du8, 0x6du8, 0x70u8, 0x34u8], seq![0x6du8, 0x70u8, 0x34u8, 0x31u8], seq![0x6du8, 0x70u8, 0x34u8, 0x32u8], seq![0x6du8, 0x70u8, 0x34u8, 0x76u8], seq![0x6du8, 0x70u8, 0x37u8, 0x31u8], seq![0x4du8, 0x53u8, 0x4eu8, 0x56u8], seq![0x4eu8, 0x44u8, 0x41u8, 0x53u8], seq![0x4eu8, 0x44u8, 0x53u8, 0x43u8], seq![0x4eu8, 0x53u8, 0x44u8, 0x43u8], seq![0x4eu8, 0x53u8, 0x44u8, 0x48u8], seq![0x4eu8, 0x44u8, 0x53u8, 0x4du8], seq![0x4eu8, 0x44u8, 0x53u8, 0x50u8], seq![0x4eu8, 0x44u8, 0x53u8, 0x53u8], seq![0x4eu8, 0x44u8, 0x58u8, 0x43u8], seq![0x4eu8, 0x44u8, 0x58u8, 0x48u8], seq![0x4eu8, 0x44u8, 0x58u8, 0x4du8], seq![0x4eu8, 0x44u8, 0x58u8, 0x50u8], seq![0x4eu8, 0x44u8, 0x58u8, 0x53u8], seq![0x46u8, 0x34u8, 0x56u8, 0x20u8], seq![0x46u8, 0x34u8, 0x50u8, 0x20u8]])  // "avc1", "dash", "iso2", "iso3", "iso4", "iso5", "iso6", "isom", "mmp4", "mp41", "mp42", "mp4v", "mp71", "MSNV", "NDAS", "NDSC", "NSDC", "NSDH", "NDSM", "NDSP", "NDSS", "NDXC", "NDXH", "NDXM", "NDXP", "NDXS", "F4V ", "F4P "
    &&& m.children@.len() == 0
}

/// The catalog entry for `video/webm` (.webm).
pub open spec fn webm_entry(m: Mime) -> bool {
    &&& m.mime@ == "video/webm"@
    &&& m.extension@ == ".webm"@
    &&& m.aliases@.len() == 1
    &&& m.aliases@[0]@ == "audio/webm"@
    &&& m.detector is WebM
    &&& m.children@.len() == 0
}

/// The catalog entry for `video/3gpp` (.3gp).
pub open spec fn three_gp_entry(m: Mime) -> bool {
    &&& m.mime@ == "video/3gpp"@
    &&& m.extension@ == ".3gp"@
    &&& m.aliases@.len() == 2
    &&& m.aliases@[0]@ == "video/3gp"@
    &&& m.aliases@[1]@ == "audio/3gpp"@
    &&& (m.detector matches Detector::Ftyp(sigs) && seq_views(sigs@) == seq![seq![0x33u8, 0x67u8, 0x70u8, 0x31u8], seq![0x33u8, 0x67u8, 0x70u8, 0x32u8], seq![0x33u8, 0x67u8, 0x70u8, 0x33u8], seq![0x33u8, 0x67u8, 0x70u8, 0x34u8], seq![0x33u8, 0x67u8, 0x70u8, 0x35u8], seq![0x33u8, 0x67u8, 0x70u8, 0x36u8], seq![0x33u8, 0x67u8, 0x70u8, 0x37u8], seq![0x33u8, 0x67u8, 0x73u8, 0x37u8], seq![0x33u8, 0x67u8, 0x65u8, 0x36u8], seq![0x33u8, 0x67u8, 0x65u8, 0x37u8], seq![0x33u8, 0x67u8, 0x67u8, 0x36u8]])  // "3gp1", "3gp2", "3gp3", "3gp4", "3gp5", "3gp6", "3gp7", "3gs7", "3ge6", "3ge7", "3gg6"
    &&& m.children@.len() == 0
}

/// The catalog entry for `video/3gpp2` (.3g2).
pub open spec fn three_g2_entry(m: Mime) -> bool {
    &&& m.mime@ == "video/3gpp2"@
    &&& m.extension@ == ".3g2"@
    &&& m.aliases@.len() == 2
    &&& m.aliases@[0]@ == "video/3g2"@
    &&& m.aliases@[1]@ == "audio/3gpp2"@
    &&& (m.detector matches Detector::Ftyp(sigs) && seq_views(sigs@) == seq![seq![0x33u8, 0x67u8, 0x32u8, 0x34u8], seq![0x33u8, 0x67u8, 0x32u8, 0x35u8], seq![0x33u8, 0x67u8, 0x32u8, 0x36u8], seq![0x33u8, 0x67u8, 0x32u8, 0x61u8], seq![0x33u8, 0x67u8, 0x32u8, 0x62u8], seq![0x33u8, 0x67u8, 0x32u8, 0x63u8], seq![0x4bu8, 0x44u8, 0x44u8, 0x49u8]])  // "3g24", "3g25", "3g26", "3g2a", "3g2b", "3g2c", "KDDI"
    &&& m.children@.len() == 0
}

/// The catalog entry for `video/x-msvideo` (.avi).
pub open spec fn avi_entry(m: Mime) -> bool {
    &&& m.mime@ == "video/x-msvideo"@
    &&& m.extension@ == ".avi"@
    &&& m.aliases@.len() == 2
    &&& m.aliases@[0]@ == "video/avi"@
    &&& m.aliases@[1]@ == "video/msvideo"@
    &&& m.detector is Avi
    &&& m.children@.len() == 0
}

/// The catalog entry for `video/x-flv` (.flv).
pub open spec fn flv_entry(m: Mime) -> bool {
    &&& m.mime@ == "video/x-flv"@
    &&& m.extension@ == ".flv"@
    &&& m.aliases@.len() == 0
    &&& (m.detector matches Detector::Prefix(sigs) && seq_views(sigs@) == seq![seq![0x46u8, 0x4cu8, 0x56u8, 0x01u8]])
    &&& m.children@.len() == 0
}

/// The catalog entry for `video/x-matroska` (.mkv).
pub open spec fn mkv_entry(m: Mime) -> bool {
    &&& m.mime@ == "video/x-matroska"@
    &&& m.extension@ == ".mkv"@
    &&& m.aliases@.len() == 0
    &&& m.detector is Mkv
    &&& m.children@.len() == 0
}

/// The catalog entry for `video/x-ms-asf` (.asf).
pub open spec fn asf_entry(m: Mime) -> bool {
    &&& m.mime@ == "video/x-ms-asf"@
    &&& m.extension@ == ".asf"@
    &&& m.aliases@.len() == 2
    &&& m.aliases@[0]@ == "video/asf"@
    &&& m.aliases@[1]@ == "video/x-ms-wmv"@
    &&& (m.detector matches Detector::Prefix(sigs) && seq_views(sigs@) == seq![seq![0x30u8, 0x26u8, 0xb2u8, 0x75u8, 0x8eu8, 0x66u8, 0xcfu8, 0x11u8, 0xa6u8, 0xd9u8, 0x00u8, 0xaau8, 0x00u8, 0x62u8, 0xceu8, 0x6cu8]])
    &&& m.children@.len() == 0
}

/// The catalog entry for `audio/aac` (.aac).
pub open spec fn aac_entry(m: Mime) -> bool {
    &&& m.mime@ == "audio/aac"@
    &&& m.extension@ == ".aac"@
    &&& m.aliases@.len() == 0
    &&& (m.detector matches Detector::Prefix(sigs) && seq_views(sigs@) == seq![seq![0xffu8, 0xf1u8], seq![0xffu8, 0xf9u8]])
    &&& m.children@.len() == 0
}

/// The catalog entry for `audio/x-unknown` (.voc).
pub open spec fn voc_entry(m: Mime) -> bool {
    &&& m.mime@ == "audio/x-unknown"@
    &&& m.extension@ == ".voc"@
    &&& m.aliases@.len() == 0
    &&& (m.detector matches Detector::Prefix(sigs) && seq_views(sigs@) == seq![seq![0x43u8, 0x72u8, 0x65u8, 0x61u8, 0x74u8, 0x69u8, 0x76u8, 0x65u8, 0x20u8, 0x56u8, 0x6fu8, 0x69u8, 0x63u8, 0x65u8, 0x20u8, 0x46u8, 0x69u8, 0x6cu8, 0x65u8]])  // "Creative Voice File"
    &&& m.children@.len() == 0
}

/// The catalog entry for `audio/mp4` (.mp4).
pub open spec fn amp4_entry(m: Mime) -> bool {
    &&& m.mime@ == "audio/mp4"@
    &&& m.extension@ == ".mp4"@
    &&& m.aliases@.len() == 2
    &&& m.aliases@[0]@ == "audio/x-m4a"@
    &&& m.aliases@[1]@ == "audio/x-mp4a"@
    &&& (m.detector matches Detector::Ftyp(sigs) && seq_views(sigs@) == seq![seq![0x46u8, 0x34u8, 0x41u8, 0x20u8], seq![0x46u8, 0x34u8, 0x42u8, 0x20u8], seq![0x4du8, 0x34u8, 0x42u8, 0x20u8], seq![0x4du8, 0x34u8, 0x50u8, 0x20u8], seq![0x4du8, 0x53u8, 0x4eu8, 0x56u8], seq![0x4eu8, 0x44u8, 0x41u8, 0x53u8]])  // "F4A ", "F4B ", "M4B ", "M4P ", "MSNV", "NDAS"
    &&& m.children@.len() == 0
}

/// The catalog entry for `audio/x-m4a` (.m4a).
pub open spec fn m4a_entry(m: Mime) -> bool {
    &&& m.mime@ == "audio/x-m4a"@
    &&& m.extension@ == ".m4a"@
    &&& m.aliases@.len() == 0
    &&& (m.detector matches Detector::Ftyp(sigs) && seq_views(sigs@) == seq![seq![0x4du8, 0x34u8, 0x41u8, 0x20u8]])  // "M4A "
    &&& m.children@.len() == 0
}

/// The catalog entry for `application/vnd.apple.mpegurl` (.m3u).
pub open spec fn m3u_entry(m: Mime) -> bool {
    &&& m.mime@ == "application/vnd.apple.mpegurl"@
    &&& m.extension@ == ".m3u"@
    &&& m.aliases@.len() == 1
    &&& m.aliases@[0]@ == "audio/mpegurl"@
    &&& (m.detector matches Detector::Prefix(sigs) && seq_views(sigs@) == seq![seq![0x23u8, 0x45u8, 0x58u8, 0x54u8, 0x4du8, 0x33u8, 0x55u8]])  // "#EXTM3U"
    &&& m.children@.len() == 0
}

/// The catalog entry for `video/x-m4v` (.m4v).
pub open spec fn m4v_entry(m: Mime) -> bool {
    &&& m.mime@ == "video/x-m4v"@
    &&& m.extension@ == ".m4v"@
    &&& m.aliases@.len() == 0
    &&& (m.detector matches Detector::Ftyp(sigs) && seq_views(sigs@) == seq![seq![0x4du8, 0x34u8, 0x56u8, 0x20u8], seq![0x4du8, 0x34u8, 0x56u8, 0x48u8], seq![0x4du8, 0x34u8, 0x56u8, 0x50u8]])  // "M4V ", "M4VH", "M4VP"
    &&& m.children@.len() == 0
}

/// The catalog entry for `application/vnd.rn-realmedia-vbr` (.rmvb).
pub open spec fn rmvb_entry(m: Mime) -> bool {
    &&& m.mime@ == "application/vnd.rn-realmedia-vbr"@
    &&& m.extension@ == ".rmvb"@
    &&& m.aliases@.len() == 0
    &&& (m.detector matches Detector::Prefix(sigs) && seq_views(sigs@) == seq![seq![0x2eu8, 0x52u8, 0x4du8, 0x46u8]])  // ".RMF"
    &&& m.children@.len() == 0
}

/// The catalog entry for `application/gzip` (.gz).
pub open spec fn gzip_entry(m: Mime) -> bool {
    &&& m.mime@ == "application/gzip"@
    &&& m.extension@ == ".gz"@
    &&& m.aliases@.len() == 6
    &&& m.aliases@[0]@ == "application/x-gzip"@
    &&& m.aliases@[1]@ == "application/x-gunzip"@
    &&& m.aliases@[2]@ == "application/gzipped"@
    &&& m.aliases@[3]@ == "application/gzip-compressed"@
    &&& m.aliases@[4]@ == "application/x-gzip-compressed"@
    &&& m.aliases@[5]@ == "gzip/document"@
    &&& (m.detector matches Detector::Prefix(sigs) && seq_views(sigs@) == seq![seq![0x1fu8, 0x8bu8]])
    &&& m.children@.len() == 0
}

/// The catalog entry for `application/x-java-applet` (.class).
pub open spec fn class_entry(m: Mime) -> bool {
    &&& m.mime@ == "application/x-java-applet"@
    &&& m.extension@ == ".class"@
    &&& m.aliases@.len() == 0
    &&& m.detector is Class
    &&& m.children@.len() == 0
}

/// The catalog entry for `application/x-shockwave-flash` (.swf).
pub open spec fn swf_entry(m: Mime) -> bool {
    &&& m.mime@ == "application/x-shockwave-flash"@
    &&& m.extension@ == ".swf"@
    &&& m.aliases@.len() == 0
    &&& (m.detector matches Detector::Prefix(sigs) && seq_views(sigs@) == seq![seq![0x43u8, 0x57u8, 0x53u8], seq![0x46u8, 0x57u8, 0x53u8], seq![0x5au8, 0x57u8, 0x53u8]])  // "CWS", "FWS", "ZWS"
    &&& m.children@.len() == 0
}

/// The catalog entry for `application/x-chrome-extension` (.crx).
pub open spec fn crx_entry(m: Mime) -> bool {
    &&& m.mime@ == "application/x-chrome-extension"@
    &&& m.extension@ == ".crx"@
    &&& m.aliases@.len() == 0
    &&& m.detector is Crx
    &&& m.children@.len() == 0
}

/// The catalog entry for `font/ttf` (.ttf).
pub open spec fn ttf_entry(m: Mime) -> bool {
    &&& m.mime@ == "font/ttf"@
    &&& m.extension@ == ".ttf"@
    &&& m.aliases@.len() == 3
    &&& m.aliases@[0]@ == "font/sfnt"@
    &&& m.aliases@[1]@ == "application/x-font-ttf"@
    &&& m.aliases@[2]@ == "application/font-sfnt"@
    &&& m.detector is Ttf
    &&& m.children@.len() == 0
}

/// The catalog entry for `font/woff` (.woff).
pub open spec fn woff_entry(m: Mime) -> bool {
    &&& m.mime@ == "font/woff"@
    &&& m.extension@ == ".woff"@
    &&& m.aliases@.len() == 0
    &&& (m.detector matches Detector::Prefix(sigs) && seq_views(sigs@) == seq![seq![0x77u8, 0x4fu8, 0x46u8, 0x46u8]])  // "wOFF"
    &&& m.children@.len() == 0
}

/// The catalog entry for `font/woff2` (.woff2).
pub open spec fn woff2_entry(m: Mime) -> bool {
    &&& m.mime@ == "font/woff2"@
    &&& m.extension@ == ".woff2"@
    &&& m.aliases@.len() == 0
    &&& (m.detector matches Detector::Prefix(sigs) && seq_views(sigs@) == seq![seq![0x77u8, 0x4fu8, 0x46u8, 0x32u8]])  // "wOF2"
    &&& m.children@.len() == 0
}

/// The catalog entry for `font/otf` (.otf).
pub open spec fn otf_entry(m: Mime) -> bool {
    &&& m.mime@ == "font/otf"@
    &&& m.extension@ == ".otf"@
    &&& m.aliases@.len() == 0
    &&& (m.detector matches Detector::Prefix(sigs) && seq_views(sigs@) == seq![seq![0x4fu8, 0x54u8, 0x54u8, 0x4fu8, 0x00u8]])
    &&& m.children@.len() == 0
}

/// The catalog entry for `font/collection` (.ttc).
pub open spec fn ttc_entry(m: Mime) -> bool {
    &&& m.mime@ == "font/collection"@
    &&& m.extension@ == ".ttc"@
    &&& m.aliases@.len() == 0
    &&& m.detector is Ttc
    &&& m.children@.len() == 0
}

/// The catalog entry for `application/vnd.ms-fontobject` (.eot).
pub open spec fn eot_entry(m: Mime) -> bool {
    &&& m.mime@ == "application/vnd.ms-fontobject"@
    &&& m.extension@ == ".eot"@
    &&& m.aliases@.len() == 0
    &&& m.detector is Eot
    &&& m.children@.len() == 0
}

/// The catalog entry for `application/wasm` (.wasm).
pub open spec fn wasm_entry(m: Mime) -> bool {
    &&& m.mime@ == "application/wasm"@
    &&& m.extension@ == ".wasm"@
    &&& m.aliases@.len() == 0
    &&& (m.detector matches Detector::Prefix(sigs) && seq_views(sigs@) == seq![seq![0x00u8, 0x61u8, 0x73u8, 0x6du8]])
    &&& m.children@.len() == 0
}

/// The catalog entry for `application/vnd.shp` (.shp).
pub open spec fn shp_entry(m: Mime) -> bool {
    &&& m.mime@ == "application/vnd.shp"@
    &&& m.extension@ == ".shp"@
    &&& m.aliases@.len() == 0
    &&& m.detector is Shp
    &&& m.children@.len() == 0
}

/// The catalog entry for `application/vnd.shx` (.shx).
pub open spec fn shx_entry(m: Mime) -> bool {
    &&& m.mime@ == "application/vnd.shx"@
    &&& m.extension@ == ".shx"@
    &&& m.aliases@.len() == 0
    &&& (m.detector matches Detector::Prefix(sigs) && seq_views(sigs@) == seq![seq![0x00u8, 0x00u8, 0x27u8, 0x0au8]])
    &&& m.children@.len() == 1
    &&& shp_entry(m.children@[0])
}

/// The catalog entry for `application/x-dbf` (.dbf).
pub open spec fn dbf_entry(m: Mime) -> bool {
    &&& m.mime@ == "application/x-dbf"@
    &&& m.extension@ == ".dbf"@
    &&& m.aliases@.len() == 0
    &&& m.detector is Dbf
    &&& m.children@.len() == 0
}

/// The catalog entry for `application/dicom` (.dcm).
pub open spec fn dcm_entry(m: Mime) -> bool {
    &&& m.mime@ == "application/dicom"@
    &&& m.extension@ == ".dcm"@
    &&& m.aliases@.len() == 0
    &&& m.detector is Dcm
    &&& m.children@.len() == 0
}

/// The catalog entry for `application/x-rar-compressed` (.rar).
pub open spec fn rar_entry(m: Mime) -> bool {
    &&& m.mime@ == "application/x-rar-compressed"@
    &&& m.extension@ == ".rar"@
    &&& m.aliases@.len() == 1
    &&& m.aliases@[0]@ == "application/x-rar"@
    &&& (m.detector matches Detector::Prefix(sigs) && seq_views(sigs@) == seq![seq![0x52u8, 0x61u8, 0x72u8, 0x21u8, 0x1au8, 0x07u8, 0x00u8], seq![0x52u8, 0x61u8, 0x72u8, 0x21u8, 0x1au8, 0x07u8, 0x01u8, 0x00u8]])
    &&& m.children@.len() == 0
}

/// The catalog entry for `image/vnd.djvu` (.djvu).
pub open spec fn djvu_entry(m: Mime) -> bool {
    &&& m.mime@ == "image/vnd.djvu"@
    &&& m.extension@ == ".djvu"@
    &&& m.aliases@.len() == 0
    &&& m.detector is DjVu
    &&& m.children@.len() == 0
}

/// The catalog entry for `application/x-mobipocket-ebook` (.mobi).
pub open spec fn mobi_entry(m: Mime) -> bool {
    &&& m.mime@ == "application/x-mobipocket-ebook"@
    &&& m.extension@ == ".mobi"@
    &&& m.aliases@.len() == 0
    &&& (m.detector matches Detector::Offset(off, sig) && off == 60 && sig@ == seq![0x42u8, 0x4fu8, 0x4fu8, 0x4bu8, 0x4du8, 0x4fu8, 0x42u8, 0x49u8])  // "BOOKMOBI"
    &&& m.children@.len() == 0
}

/// The catalog entry for `application/x-ms-reader` (.lit).
pub open spec fn lit_entry(m: Mime) -> bool {
    &&& m.mime@ == "application/x-ms-reader"@
    &&& m.extension@ == ".lit"@
    &&& m.aliases@.len() == 0
    &&& (m.detector matches Detector::Prefix(sigs) && seq_views(sigs@) == seq![seq![0x49u8, 0x54u8, 0x4fu8, 0x4cu8, 0x49u8, 0x54u8, 0x4cu8, 0x53u8]])  // "ITOLITLS"
    &&& m.children@.len() == 0
}

/// The catalog entry for `image/bpg` (.bpg).
pub open spec fn bpg_entry(m: Mime) -> bool {
    &&& m.mime@ == "image/bpg"@
    &&& m.extension@ == ".bpg"@
    &&& m.aliases@.len() == 0
    &&& (m.detector matches Detector::Prefix(sigs) && seq_views(sigs@) == seq![seq![0x42u8, 0x50u8, 0x47u8, 0xfbu8]])
    &&& m.children@.len() == 0
}

/// The catalog entry for `application/vnd.sqlite3` (.sqlite).
pub open spec fn sqlite3_entry(m: Mime) -> bool {
    &&& m.mime@ == "application/vnd.sqlite3"@
    &&& m.extension@ == ".sqlite"@
    &&& m.aliases@.len() == 1
    &&& m.aliases@[0]@ == "application/x-sqlite3"@
    &&& (m.detector matches Detector::Prefix(sigs) && seq_views(sigs@) == seq![seq![0x53u8, 0x51u8, 0x4cu8, 0x69u8, 0x74u8, 0x65u8, 0x20u8, 0x66u8, 0x6fu8, 0x72u8, 0x6du8, 0x61u8, 0x74u8, 0x20u8, 0x33u8, 0x00u8]])
    &&& m.children@.len() == 0
}

/// The catalog entry for `image/vnd.dwg` (.dwg).
pub open spec fn dwg_entry(m: Mime) -> bool {
    &&& m.mime@ == "image/vnd.dwg"@
    &&& m.extension@ == ".dwg"@
    &&& m.aliases@.len() == 8
    &&& m.aliases@[0]@ == "image/x-dwg"@
    &&& m.aliases@[1]@ == "application/acad"@
    &&& m.aliases@[2]@ == "application/x-acad"@
    &&& m.aliases@[3]@ == "application/autocad_dwg"@
    &&& m.aliases@[4]@ == "application/dwg"@
    &&& m.aliases@[5]@ == "application/x-dwg"@
    &&& m.aliases@[6]@ == "application/x-autocad"@
    &&& m.aliases@[7]@ == "drawing/dwg"@
    &&& m.detector is Dwg
    &&& m.children@.len() == 0
}

/// The catalog entry for `application/vnd.nintendo.snes.rom` (.nes).
pub open spec fn nes_entry(m: Mime) -> bool {
    &&& m.mime@ == "application/vnd.nintendo.snes.rom"@
    &&& m.extension@ == ".nes"@
    &&& m.aliases@.len() == 0
    &&& (m.detector matches Detector::Prefix(sigs) && seq_views(sigs@) == seq![seq![0x4eu8, 0x45u8, 0x53u8, 0x1au8]])
    &&& m.children@.len() == 0
}

/// The catalog entry for `application/x-ms-shortcut` (.lnk).
pub open spec fn lnk_entry(m: Mime) -> bool {
    &&& m.mime@ == "application/x-ms-shortcut"@
    &&& m.extension@ == ".lnk"@
    &&& m.aliases@.len() == 0
    &&& (m.detector matches Detector::Prefix(sigs) && seq_views(sigs@) == seq![seq![0x4cu8, 0x00u8, 0x00u8, 0x00u8, 0x01u8, 0x14u8, 0x02u8, 0x00u8]])
    &&& m.children@.len() == 0
}

/// The catalog entry for `application/x-mach-binary` (.macho).
pub open spec fn macho_entry(m: Mime) -> bool {
    &&& m.mime@ == "application/x-mach-binary"@
    &&& m.extension@ == ".macho"@
    &&& m.aliases@.len() == 0
    &&& m.detector is MachO
    &&& m.children@.len() == 0
}

/// The catalog entry for `audio/qcelp` (.qcp).
pub open spec fn qcp_entry(m: Mime) -> bool {
    &&& m.mime@ == "audio/qcelp"@
    &&& m.extension@ == ".qcp"@
    &&& m.aliases@.len() == 0
    &&& m.detector is Qcp
    &&& m.children@.len() == 0
}

/// The catalog entry for `image/x-icns` (.icns).
pub open spec fn icns_entry(m: Mime) -> bool {
    &&& m.mime@ == "image/x-icns"@
    &&& m.extension@ == ".icns"@
    &&& m.aliases@.len() == 0
    &&& (m.detector matches Detector::Prefix(sigs) && seq_views(sigs@) == seq![seq![0x69u8, 0x63u8, 0x6eu8, 0x73u8]])  // "icns"
    &&& m.children@.len() == 0
}

/// The catalog entry for `image/heic` (.heic).
pub open spec fn heic_entry(m: Mime) -> bool {
    &&& m.mime@ == "image/heic"@
    &&& m.extension@ == ".heic"@
    &&& m.aliases@.len() == 0
    &&& (m.detector matches Detector::Ftyp(sigs) && seq_views(sigs@) == seq![seq![0x68u8, 0x65u8, 0x69u8, 0x63u8], seq![0x68u8, 0x65u8, 0x69u8, 0x78u8]])  // "heic", "heix"
    &&& m.children@.len() == 0
}

/// The catalog entry for `image/heic-sequence` (.heic).
pub open spec fn heic_sequence_entry(m: Mime) -> bool {
    &&& m.mime@ == "image/heic-sequence"@
    &&& m.extension@ == ".heic"@
    &&& m.aliases@.len() == 0
    &&& (m.detector matches Detector::Ftyp(sigs) && seq_views(sigs@) == seq![seq![0x68u8, 0x65u8, 0x76u8, 0x63u8], seq![0x68u8, 0x65u8, 0x76u8, 0x78u8]])  // "hevc", "hevx"
    &&& m.children@.len() == 0
}

/// The catalog entry for `image/heif` (.heif).
pub open spec fn heif_entry(m: Mime) -> bool {
    &&& m.mime@ == "image/heif"@
    &&& m.extension@ == ".heif"@
    &&& m.aliases@.len() == 0
    &&& (m.detector matches Detector::Ftyp(sigs) && seq_views(sigs@) == seq![seq![0x6du8, 0x69u8, 0x66u8, 0x31u8], seq![0x68u8, 0x65u8, 0x69u8, 0x6du8], seq![0x68u8, 0x65u8, 0x69u8, 0x73u8], seq![0x61u8, 0x76u8, 0x69u8, 0x63u8]])  // "mif1", "heim", "heis", "avic"
    &&& m.children@.len() == 0
}

/// The catalog entry for `image/heif-sequence` (.heif).
pub open spec fn heif_sequence_entry(m: Mime) -> bool {
    &&& m.mime@ == "image/heif-sequence"@
    &&& m.extension@ == ".heif"@
    &&& m.aliases@.len() == 0
    &&& (m.detector matches Detector::Ftyp(sigs) && seq_views(sigs@) == seq![seq![0x6du8, 0x73u8, 0x66u8, 0x31u8], seq![0x68u8, 0x65u8, 0x76u8, 0x6du8], seq![0x68u8, 0x65u8, 0x76u8, 0x73u8], seq![0x61u8, 0x76u8, 0x63u8, 0x73u8]])  // "msf1", "hevm", "hevs", "avcs"
    &&& m.children@.len() == 0
}

/// The catalog entry for `image/vnd.radiance` (.hdr).
pub open spec fn hdr_entry(m: Mime) -> bool {
    &&& m.mime@ == "image/vnd.radiance"@
    &&& m.extension@ == ".hdr"@
    &&& m.aliases@.len() == 0
    &&& (m.detector matches Detector::Prefix(sigs) && seq_views(sigs@) == seq![seq![0x23u8, 0x3fu8, 0x52u8, 0x41u8, 0x44u8, 0x49u8, 0x41u8, 0x4eu8, 0x43u8, 0x45u8, 0x0au8]])
    &&& m.children@.len() == 0
}

/// The catalog entry for `application/marc` (.mrc).
pub open spec fn marc_entry(m: Mime) -> bool {
    &&& m.mime@ == "application/marc"@
    &&& m.extension@ == ".mrc"@
    &&& m.aliases@.len() == 0
    &&& m.detector is Marc
    &&& m.children@.len() == 0
}

/// The catalog entry for `application/x-msaccess` (.mdb).
pub open spec fn ms_access_mdb_entry(m: Mime) -> bool {
    &&& m.mime@ == "application/x-msaccess"@
    &&& m.extension@ == ".mdb"@
    &&& m.aliases@.len() == 0
    &&& (m.detector matches Detector::Offset(off, sig) && off == 4 && sig@ == seq![0x53u8, 0x74u8, 0x61u8, 0x6eu8, 0x64u8, 0x61u8, 0x72u8, 0x64u8, 0x20u8, 0x4au8, 0x65u8, 0x74u8, 0x20u8, 0x44u8, 0x42u8])  // "Standard Jet DB"
    &&& m.children@.len() == 0
}

/// The catalog entry for `application/x-msaccess` (.accdb).
pub open spec fn ms_access_ace_entry(m: Mime) -> bool {
    &&& m.mime@ == "application/x-msaccess"@
    &&& m.extension@ == ".accdb"@
    &&& m.aliases@.len() == 0
    &&& (m.detector matches Detector::Offset(off, sig) && off == 4 && sig@ == seq![0x53u8, 0x74u8, 0x61u8, 0x6eu8, 0x64u8, 0x61u8, 0x72u8, 0x64u8, 0x20u8, 0x41u8, 0x43u8, 0x45u8, 0x20u8, 0x44u8, 0x42u8])  // "Standard ACE DB"
    &&& m.children@.len() == 0
}

/// The catalog entry for `application/zstd` (.zst).
pub open spec fn zstd_entry(m: Mime) -> bool {
    &&& m.mime@ == "application/zstd"@
    &&& m.extension@ == ".zst"@
    &&& m.aliases@.len() == 0
    &&& m.detector is Zstd
    &&& m.children@.len() == 0
}

/// The catalog entry for `application/vnd.ms-cab-compressed` (.cab).
pub open spec fn cab_entry(m: Mime) -> bool {
    &&& m.mime@ == "application/vnd.ms-cab-compressed"@
    &&& m.extension@ == ".cab"@
    &&& m.aliases@.len() == 0
    &&& (m.detector matches Detector::Prefix(sigs) && seq_views(sigs@) == seq![seq![0x4du8, 0x53u8, 0x43u8, 0x46u8, 0x00u8, 0x00u8, 0x00u8, 0x00u8]])
    &&& m.children@.len() == 0
}

/// The catalog entry for `application/x-rpm` (.rpm).
pub open spec fn rpm_entry(m: Mime) -> bool {
    &&& m.mime@ == "application/x-rpm"@
    &&& m.extension@ == ".rpm"@
    &&& m.aliases@.len() == 0
    &&& (m.detector matches Detector::Prefix(sigs) && seq_views(sigs@) == seq![seq![0xedu8, 0xabu8, 0xeeu8, 0xdbu8], seq![0x64u8, 0x72u8, 0x70u8, 0x6du8]])  // "drpm"
    &&& m.children@.len() == 0
}

/// The catalog entry for `application/x-xz` (.xz).
pub open spec fn xz_entry(m: Mime) -> bool {
    &&& m.mime@ == "application/x-xz"@
    &&& m.extension@ == ".xz"@
    &&& m.aliases@.len() == 0
    &&& (m.detector matches Detector::Prefix(sigs) && seq_views(sigs@) == seq![seq![0xfdu8, 0x37u8, 0x7au8, 0x58u8, 0x5au8, 0x00u8]])
    &&& m.children@.len() == 0
}

/// The catalog entry for `application/lzip` (.lz).
pub open spec fn lzip_entry(m: Mime) -> bool {
    &&& m.mime@ == "application/lzip"@
    &&& m.extension@ == ".lz"@
    &&& m.aliases@.len() == 1
    &&& m.aliases@[0]@ == "application/x-lzip"@
    &&& (m.detector matches Detector::Prefix(sigs) && seq_views(sigs@) == seq![seq![0x4cu8, 0x5au8, 0x49u8, 0x50u8]])  // "LZIP"
    &&& m.children@.len() == 0
}

/// The catalog entry for `application/x-bittorrent` (.torrent).
pub open spec fn torrent_entry(m: Mime) -> bool {
    &&& m.mime@ == "application/x-bittorrent"@
    &&& m.extension@ == ".torrent"@
    &&& m.aliases@.len() == 0
    &&& (m.detector matches Detector::Prefix(sigs) && seq_views(sigs@) == seq![seq![0x64u8, 0x38u8, 0x3au8, 0x61u8, 0x6eu8, 0x6eu8, 0x6fu8, 0x75u8, 0x6eu8, 0x63u8, 0x65u8]])  // "d8:announce"
    &&& m.children@.len() == 0
}

/// The catalog entry for `application/x-cpio` (.cpio).
pub open spec fn cpio_entry(m: Mime) -> bool {
    &&& m.mime@ == "application/x-cpio"@
    &&& m.extension@ == ".cpio"@
    &&& m.aliases@.len() == 0
    &&& (m.detector matches Detector::Prefix(sigs) && seq_views(sigs@) == seq![seq![0x30u8, 0x37u8, 0x30u8, 0x37u8, 0x30u8, 0x37u8], seq![0x30u8, 0x37u8, 0x30u8, 0x37u8, 0x30u8, 0x31u8], seq![0x30u8, 0x37u8, 0x30u8, 0x37u8, 0x30u8, 0x32u8]])  // "070707", "070701", "070702"
    &&& m.children@.len() == 0
}

/// The catalog entry for `application/tzif` (no extension).
pub open spec fn tzif_entry(m: Mime) -> bool {
    &&& m.mime@ == "application/tzif"@
    &&& m.extension@ == ""@
    &&& m.aliases@.len() == 0
    &&& m.detector is TzIf
    &&& m.children@.len() == 0
}

/// The catalog entry for `image/x-xcf` (.xcf).
pub open spec fn xcf_entry(m: Mime) -> bool {
    &&& m.mime@ == "image/x-xcf"@
    &&& m.extension@ == ".xcf"@
    &&& m.aliases@.len() == 0
    &&& (m.detector matches Detector::Prefix(sigs) && seq_views(sigs@) == seq![seq![0x67u8, 0x69u8, 0x6du8, 0x70u8, 0x20u8, 0x78u8, 0x63u8, 0x66u8]])  // "gimp xcf"
    &&& m.children@.len() == 0
}

/// The catalog entry for `image/x-gimp-pat` (.pat).
pub open spec fn pat_entry(m: Mime) -> bool {
    &&& m.mime@ == "image/x-gimp-pat"@
    &&& m.extension@ == ".pat"@
    &&& m.aliases@.len() == 0
    &&& (m.detector matches Detector::Offset(off, sig) && off == 20 && sig@ == seq![0x47u8, 0x50u8, 0x41u8, 0x54u8])  // "GPAT"
    &&& m.children@.len() == 0
}

/// The catalog entry for `image/x-gimp-gbr` (.gbr).
pub open spec fn gbr_entry(m: Mime) -> bool {
    &&& m.mime@ == "image/x-gimp-gbr"@
    &&& m.extension@ == ".gbr"@
    &&& m.aliases@.len() == 0
    &&& (m.detector matches Detector::Offset(off, sig) && off == 20 && sig@ == seq![0x47u8, 0x49u8, 0x4du8, 0x50u8])  // "GIMP"
    &&& m.children@.len() == 0
}

/// The catalog entry for `model/gltf-binary` (.glb).
pub open spec fn glb_entry(m: Mime) -> bool {
    &&& m.mime@ == "model/gltf-binary"@
    &&& m.extension@ == ".glb"@
    &&& m.aliases@.len() == 0
    &&& (m.detector matches Detector::Prefix(sigs) && seq_views(sigs@) == seq![seq![0x67u8, 0x6cu8, 0x54u8, 0x46u8, 0x02u8, 0x00u8, 0x00u8, 0x00u8], seq![0x67u8, 0x6cu8, 0x54u8, 0x46u8, 0x01u8, 0x00u8, 0x00u8, 0x00u8]])
    &&& m.children@.len() == 0
}

/// The catalog entry for `image/avif` (.avif).
pub open spec fn avif_entry(m: Mime) -> bool {
    &&& m.mime@ == "image/avif"@
    &&& m.extension@ == ".avif"@
    &&& m.aliases@.len() == 0
    &&& (m.detector matches Detector::Ftyp(sigs) && seq_views(sigs@) == seq![seq![0x61u8, 0x76u8, 0x69u8, 0x66u8], seq![0x61u8, 0x76u8, 0x69u8, 0x73u8]])  // "avif", "avis"
    &&& m.children@.len() == 0
}

/// The catalog entry for `application/x-installshield` (.cab).
pub open spec fn installshield_cab_entry(m: Mime) -> bool {
    &&& m.mime@ == "application/x-installshield"@
    &&& m.extension@ == ".cab"@
    &&& m.aliases@.len() == 0
    &&& m.detector is InstallShieldCab
    &&& m.children@.len() == 0
}

/// The catalog entry for `image/jxr` (.jxr).
pub open spec fn jxr_entry(m: Mime) -> bool {
    &&& m.mime@ == "image/jxr"@
    &&& m.extension@ == ".jxr"@
    &&& m.aliases@.len() == 1
    &&& m.aliases@[0]@ == "image/vnd.ms-photo"@
    &&& (m.detector matches Detector::Prefix(sigs) && seq_views(sigs@) == seq![seq![0x49u8, 0x49u8, 0xbcu8, 0x01u8]])
    &&& m.children@.len() == 0
}

/// The catalog entry for `text/html` (.html).
pub open spec fn html_entry(m: Mime) -> bool {
    &&& m.mime@ == "text/html"@
    &&& m.extension@ == ".html"@
    &&& m.aliases@.len() == 0
    &&& (m.detector matches Detector::MarkUp(sigs) && seq_views(sigs@) == seq![seq![0x3cu8, 0x21u8, 0x44u8, 0x4fu8, 0x43u8, 0x54u8, 0x59u8, 0x50u8, 0x45u8, 0x20u8, 0x48u8, 0x54u8, 0x4du8, 0x4cu8], seq![0x3cu8, 0x48u8, 0x54u8, 0x4du8, 0x4cu8], seq![0x3cu8, 0x48u8, 0x45u8, 0x41u8, 0x44u8], seq![0x3cu8, 0x53u8, 0x43u8, 0x52u8, 0x49u8, 0x50u8, 0x54u8], seq![0x3cu8, 0x49u8, 0x46u8, 0x52u8, 0x41u8, 0x4du8, 0x45u8], seq![0x3cu8, 0x48u8, 0x31u8], seq![0x3cu8, 0x44u8, 0x49u8, 0x56u8], seq![0x3cu8, 0x46u8, 0x4fu8, 0x4eu8, 0x54u8], seq![0x3cu8, 0x54u8, 0x41u8, 0x42u8, 0x4cu8, 0x45u8], seq![0x3cu8, 0x41u8], seq![0x3cu8, 0x53u8, 0x54u8, 0x59u8, 0x4cu8, 0x45u8], seq![0x3cu8, 0x54u8, 0x49u8, 0x54u8, 0x4cu8, 0x45u8], seq![0x3cu8, 0x42u8], seq![0x3cu8, 0x42u8, 0x4fu8, 0x44u8, 0x59u8], seq![0x3cu8, 0x42u8, 0x52u8], seq![0x3cu8, 0x50u8]])  // "<!DOCTYPE HTML", "<HTML", "<HEAD", "<SCRIPT", "<IFRAME", "<H1", "<DIV", "<FONT", "<TABLE", "<STYLE", "<TITLE", "<BODY", "<BR"
    &&& m.children@.len() == 0
}

/// The catalog entry for `image/svg+xml` (.svg).
pub open spec fn svg_entry(m: Mime) -> bool {
    &&& m.mime@ == "image/svg+xml"@
    &&& m.extension@ == ".svg"@
    &&& m.aliases@.len() == 0
    &&& m.detector is Svg
    &&& m.children@.len() == 0
}

/// The catalog entry for `text/xml` (.xml).
pub open spec fn xml_entry(m: Mime) -> bool {
    &&& m.mime@ == "text/xml"@
    &&& m.extension@ == ".xml"@
    &&& m.aliases@.len() == 0
    &&& (m.detector matches Detector::MarkUp(sigs) && seq_views(sigs@) == seq![seq![0x3cu8, 0x3fu8, 0x58u8, 0x4du8, 0x4cu8]])  // "<?XML"
    &&& m.children@.len() == 0
}

/// The catalog entry for `text/x-php` (.php).
pub open spec fn php_entry(m: Mime) -> bool {
    &&& m.mime@ == "text/x-php"@
    &&& m.extension@ == ".php"@
    &&& m.aliases@.len() == 0
    &&& m.detector is Php
    &&& m.children@.len() == 0
}

/// The catalog entry for `application/javascript` (.js).
pub open spec fn js_entry(m: Mime) -> bool {
    &&& m.mime@ == "application/javascript"@
    &&& m.extension@ == ".js"@
    &&& m.aliases@.len() == 2
    &&& m.aliases@[0]@ == "application/x-javascript"@
    &&& m.aliases@[1]@ == "text/javascript"@
    &&& (m.detector matches Detector::SheBang(sigs) && seq_views(sigs@) == seq![seq![0x2fu8, 0x62u8, 0x69u8, 0x6eu8, 0x2fu8, 0x6eu8, 0x6fu8, 0x64u8, 0x65u8], seq![0x2fu8, 0x75u8, 0x73u8, 0x72u8, 0x2fu8, 0x62u8, 0x69u8, 0x6eu8, 0x2fu8, 0x6eu8, 0x6fu8, 0x64u8, 0x65u8], seq![0x2fu8, 0x62u8, 0x69u8, 0x6eu8, 0x2fu8, 0x6eu8, 0x6fu8, 0x64u8, 0x65u8, 0x6au8, 0x73u8], seq![0x2fu8, 0x75u8, 0x73u8, 0x72u8, 0x2fu8, 0x62u8, 0x69u8, 0x6eu8, 0x2fu8, 0x6eu8, 0x6fu8, 0x64u8, 0x65u8, 0x6au8, 0x73u8], seq![0x2fu8, 0x75u8, 0x73u8, 0x72u8, 0x2fu8, 0x62u8, 0x69u8, 0x6eu8, 0x2fu8, 0x65u8, 0x6eu8, 0x76u8, 0x20u8, 0x6eu8, 0x6fu8, 0x64u8, 0x65u8], seq![0x2fu8, 0x75u8, 0x73u8, 0x72u8, 0x2fu8, 0x62u8, 0x69u8, 0x6eu8, 0x2fu8, 0x65u8, 0x6eu8, 0x76u8, 0x20u8, 0x6eu8, 0x6fu8, 0x64u8, 0x65u8, 0x6au8, 0x73u8]])  // "/bin/node", "/usr/bin/node", "/bin/nodejs", "/usr/bin/nodejs", "/usr/bin/env node", "/usr/bin/env nodejs"
    &&& m.children@.len() == 0
}

/// The catalog entry for `text/x-lua` (.lua).
pub open spec fn lua_entry(m: Mime) -> bool {
    &&& m.mime@ == "text/x-lua"@
    &&& m.extension@ == ".lua"@
    &&& m.aliases@.len() == 0
    &&& (m.detector matches Detector::SheBang(sigs) && seq_views(sigs@) == seq![seq![0x2fu8, 0x75u8, 0x73u8, 0x72u8, 0x2fu8, 0x62u8, 0x69u8, 0x6eu8, 0x2fu8, 0x6cu8, 0x75u8, 0x61u8], seq![0x2fu8, 0x75u8, 0x73u8, 0x72u8, 0x2fu8, 0x6cu8, 0x6fu8, 0x63u8, 0x61u8, 0x6cu8, 0x2fu8, 0x62u8, 0x69u8, 0x6eu8, 0x2fu8, 0x6cu8, 0x75u8, 0x61u8], seq![0x2fu8, 0x75u8, 0x73u8, 0x72u8, 0x2fu8, 0x62u8, 0x69u8, 0x6eu8, 0x2fu8, 0x65u8, 0x6eu8, 0x76u8, 0x20u8, 0x6cu8, 0x75u8, 0x61u8]])  // "/usr/bin/lua", "/usr/local/bin/lua", "/usr/bin/env lua"
    &&& m.children@.len() == 0
}

/// The catalog entry for `text/x-perl` (.pl).
pub open spec fn perl_entry(m: Mime) -> bool {
    &&& m.mime@ == "text/x-perl"@
    &&& m.extension@ == ".pl"@
    &&& m.aliases@.len() == 0
    &&& (m.detector matches Detector::SheBang(sigs) && seq_views(sigs@) == seq![seq![0x2fu8, 0x75u8, 0x73u8, 0x72u8, 0x2fu8, 0x62u8, 0x69u8, 0x6eu8, 0x2fu8, 0x70u8, 0x65u8, 0x72u8, 0x6cu8], seq![0x2fu8, 0x75u8, 0x73u8, 0x72u8, 0x2fu8, 0x62u8, 0x69u8, 0x6eu8, 0x2fu8, 0x65u8, 0x6eu8, 0x76u8, 0x20u8, 0x70u8, 0x65u8, 0x72u8, 0x6cu8]])  // "/usr/bin/perl", "/usr/bin/env perl"
    &&& m.children@.len() == 0
}

/// The catalog entry for `text/x-python` (.py).
pub open spec fn python_entry(m: Mime) -> bool {
    &&& m.mime@ == "text/x-python"@
    &&& m.extension@ == ".py"@
    &&& m.aliases@.len() == 0
    &&& (m.detector matches Detector::SheBang(sigs) && seq_views(sigs@) == seq![seq![0x2fu8, 0x75u8, 0x73u8, 0x72u8, 0x2fu8, 0x62u8, 0x69u8, 0x6eu8, 0x2fu8, 0x70u8, 0x79u8, 0x74u8, 0x68u8, 0x6fu8, 0x6eu8], seq![0x2fu8, 0x75u8, 0x73u8, 0x72u8, 0x2fu8, 0x6cu8, 0x6fu8, 0x63u8, 0x61u8, 0x6cu8, 0x2fu8, 0x62u8, 0x69u8, 0x6eu8, 0x2fu8, 0x70u8, 0x79u8, 0x74u8, 0x68u8, 0x6fu8, 0x6eu8], seq![0x2fu8, 0x75u8, 0x73u8, 0x72u8, 0x2fu8, 0x62u8, 0x69u8, 0x6eu8, 0x2fu8, 0x65u8, 0x6eu8, 0x76u8, 0x20u8, 0x70u8, 0x79u8, 0x74u8, 0x68u8, 0x6fu8, 0x6eu8]])  // "/usr/bin/python", "/usr/local/bin/python", "/usr/bin/env python"
    &&& m.children@.len() == 0
}

/// The catalog entry for `text/rtf` (.rtf).
pub open spec fn rtf_entry(m: Mime) -> bool {
    &&& m.mime@ == "text/rtf"@
    &&& m.extension@ == ".rtf"@
    &&& m.aliases@.len() == 1
    &&& m.aliases@[0]@ == "application/rtf"@
    &&& (m.detector matches Detector::Prefix(sigs) && seq_views(sigs@) == seq![seq![0x7bu8, 0x5cu8, 0x72u8, 0x74u8, 0x66u8]])
    &&& m.children@.len() == 0
}

/// The catalog entry for `text/plain` (.txt).
pub open spec fn text_entry(m: Mime) -> bool {
    &&& m.mime@ == "text/plain"@
    &&& m.extension@ == ".txt"@
    &&& m.aliases@.len() == 0
    &&& m.detector is Text
    &&& m.children@.len() == 9
    &&& html_entry(m.children@[0])
    &&& svg_entry(m.children@[1])
    &&& xml_entry(m.children@[2])
    &&& php_entry(m.children@[3])
    &&& js_entry(m.children@[4])
    &&& lua_entry(m.children@[5])
    &&& perl_entry(m.children@[6])
    &&& python_entry(m.children@[7])
    &&& rtf_entry(m.children@[8])
}

fn tree_part_0() -> (v: Vec<Mime>)
    ensures
        v@.len() == 13,
        xpm_entry(v@[0]),
        seven_z_entry(v@[1]),
        zip_entry(v@[2]),
        pdf_entry(v@[3]),
        fdf_entry(v@[4]),
        ole_entry(v@[5]),
        ps_entry(v@[6]),
        psd_entry(v@[7]),
        p7s_entry(v@[8]),
        ogg_entry(v@[9]),
        png_entry(v@[10]),
        jpg_entry(v@[11]),
        jxl_entry(v@[12]),
{
    let xpm_sigs: Vec<Vec<u8>> = vec![vec![0x2f, 0x2a, 0x20, 0x58, 0x50, 0x4d, 0x20, 0x2a, 0x2f]];  // "/* XPM */"
    proof {
        assert(seq_views(xpm_sigs@) =~~= seq![seq![0x2fu8, 0x2au8, 0x20u8, 0x58u8, 0x50u8, 0x4du8, 0x20u8, 0x2au8, 0x2fu8]]);
    }
    let xpm = Mime::new(String::from_str("image/x-xpixmap"), String::from_str(".xpm"), Detector::Prefix(xpm_sigs));
    proof {
        assert(xpm_entry(xpm));
    }
    let seven_z_sigs: Vec<Vec<u8>> = vec![vec![0x37, 0x7a, 0xbc, 0xaf, 0x27, 0x1c]];
    proof {
        assert(seq_views(seven_z_sigs@) =~~= seq![seq![0x37u8, 0x7au8, 0xbcu8, 0xafu8, 0x27u8, 0x1cu8]]);
    }
    let seven_z = Mime::new(String::from_str("application/x-7z-compressed"), String::from_str(".7z"), Detector::Prefix(seven_z_sigs));
    proof {
        assert(seven_z_entry(seven_z));
    }
    let xlsx = Mime::new(String::from_str("application/vnd.openxmlformats-officedocument.spreadsheetml.sheet"), String::from_str(".xlsx"), Detector::Xlsx);
    proof {
        assert(xlsx_entry(xlsx));
    }
    let docx = Mime::new(String::from_str("application/vnd.openxmlformats-officedocument.wordprocessingml.document"), String::from_str(".docx"), Detector::Docx);
    proof {
        assert(docx_entry(docx));
    }
    let pptx = Mime::new(String::from_str("application/vnd.openxmlformats-officedocument.presentationml.presentation"), String::from_str(".pptx"), Detector::Pptx);
    proof {
        assert(pptx_entry(pptx));
    }
    let epub_sig: Vec<u8> = vec![0x6d, 0x69, 0x6d, 0x65, 0x74, 0x79, 0x70, 0x65, 0x61, 0x70, 0x70, 0x6c, 0x69, 0x63, 0x61, 0x74, 0x69, 0x6f, 0x6e, 0x2f, 0x65, 0x70, 0x75, 0x62, 0x2b, 0x7a, 0x69, 0x70];  // "mimetypeapplication/epub+zip"
    proof {
        assert(epub_sig@ =~= seq![0x6du8, 0x69u8, 0x6du8, 0x65u8, 0x74u8, 0x79u8, 0x70u8, 0x65u8, 0x61u8, 0x70u8, 0x70u8, 0x6cu8, 0x69u8, 0x63u8, 0x61u8, 0x74u8, 0x69u8, 0x6fu8, 0x6eu8, 0x2fu8, 0x65u8, 0x70u8, 0x75u8, 0x62u8, 0x2bu8, 0x7au8, 0x69u8, 0x70u8]);
    }
    let epub = Mime::new(String::from_str("application/epub+zip"), String::from_str(".epub"), Detector::Offset(30, epub_sig));
    proof {
        assert(epub_entry(epub));
    }
    let jar = Mime::new(String::from_str("application/jar"), String::from_str(".jar"), Detector::Jar);
    proof {
        assert(jar_entry(jar));
    }
    let ott_sig: Vec<u8> = vec![0x6d, 0x69, 0x6d, 0x65, 0x74, 0x79, 0x70, 0x65, 0x61, 0x70, 0x70, 0x6c, 0x69, 0x63, 0x61, 0x74, 0x69, 0x6f, 0x6e, 0x2f, 0x76, 0x6e, 0x64, 0x2e, 0x6f, 0x61, 0x73, 0x69, 0x73, 0x2e, 0x6f, 0x70, 0x65, 0x6e, 0x64, 0x6f, 0x63, 0x75, 0x6d, 0x65, 0x6e, 0x74, 0x2e, 0x74, 0x65, 0x78, 0x74, 0x2d, 0x74, 0x65, 0x6d, 0x70, 0x6c, 0x61, 0x74, 0x65];  // "mimetypeapplication/vnd.oasis.opendocument.text-template"
    proof {
        assert(ott_sig@ =~= seq![0x6du8, 0x69u8, 0x6du8, 0x65u8, 0x74u8, 0x79u8, 0x70u8, 0x65u8, 0x61u8, 0x70u8, 0x70u8, 0x6cu8, 0x69u8, 0x63u8, 0x61u8, 0x74u8, 0x69u8, 0x6fu8, 0x6eu8, 0x2fu8, 0x76u8, 0x6eu8, 0x64u8, 0x2eu8, 0x6fu8, 0x61u8, 0x73u8, 0x69u8, 0x73u8, 0x2eu8, 0x6fu8, 0x70u8, 0x65u8, 0x6eu8, 0x64u8, 0x6fu8, 0x63u8, 0x75u8, 0x6du8, 0x65u8, 0x6eu8, 0x74u8, 0x2eu8, 0x74u8, 0x65u8, 0x78u8, 0x74u8, 0x2du8, 0x74u8, 0x65u8, 0x6du8, 0x70u8, 0x6cu8, 0x61u8, 0x74u8, 0x65u8]);
    }
    let ott = Mime::new(String::from_str("application/vnd.oasis.opendocument.text-template"), String::from_str(".ott"), Detector::Offset(30, ott_sig)).aliases(vec!["application/x-vnd.oasis.opendocument.text-template"]);
    proof {
        assert(ott_entry(ott));
    }
    let odt_sig: Vec<u8> = vec![0x6d, 0x69, 0x6d, 0x65, 0x74, 0x79, 0x70, 0x65, 0x61, 0x70, 0x70, 0x6c, 0x69, 0x63, 0x61, 0x74, 0x69, 0x6f, 0x6e, 0x2f, 0x76, 0x6e, 0x64, 0x2e, 0x6f, 0x61, 0x73, 0x69, 0x73, 0x2e, 0x6f, 0x70, 0x65, 0x6e, 0x64, 0x6f, 0x63, 0x75, 0x6d, 0x65, 0x6e, 0x74, 0x2e, 0x74, 0x65, 0x78, 0x74];  // "mimetypeapplication/vnd.oasis.opendocument.text"
    proof {
        assert(odt_sig@ =~= seq![0x6du8, 0x69u8, 0x6du8, 0x65u8, 0x74u8, 0x79u8, 0x70u8, 0x65u8, 0x61u8, 0x70u8, 0x70u8, 0x6cu8, 0x69u8, 0x63u8, 0x61u8, 0x74u8, 0x69u8, 0x6fu8, 0x6eu8, 0x2fu8, 0x76u8, 0x6eu8, 0x64u8, 0x2eu8, 0x6fu8, 0x61u8, 0x73u8, 0x69u8, 0x73u8, 0x2eu8, 0x6fu8, 0x70u8, 0x65u8, 0x6eu8, 0x64u8, 0x6fu8, 0x63u8, 0x75u8, 0x6du8, 0x65u8, 0x6eu8, 0x74u8, 0x2eu8, 0x74u8, 0x65u8, 0x78u8, 0x74u8]);
    }
    let odt = Mime::new(String::from_str("application/vnd.oasis.opendocument.text"), String::from_str(".odt"), Detector::Offset(30, odt_sig)).aliases(vec!["application/x-vnd.oasis.opendocument.text"]).children(vec![ott]);
    proof {
        assert(odt_entry(odt));
    }
    let ots_sig: Vec<u8> = vec![0x6d, 0x69, 0x6d, 0x65, 0x74, 0x79, 0x70, 0x65, 0x61, 0x70, 0x70, 0x6c, 0x69, 0x63, 0x61, 0x74, 0x69, 0x6f, 0x6e, 0x2f, 0x76, 0x6e, 0x64, 0x2e, 0x6f, 0x61, 0x73, 0x69, 0x73, 0x2e, 0x6f, 0x70, 0x65, 0x6e, 0x64, 0x6f, 0x63, 0x75, 0x6d, 0x65, 0x6e, 0x74, 0x2e, 0x73, 0x70, 0x72, 0x65, 0x61, 0x64, 0x73, 0x68, 0x65, 0x65, 0x74, 0x2d, 0x74, 0x65, 0x6d, 0x70, 0x6c, 0x61, 0x74, 0x65];  // "mimetypeapplication/vnd.oasis.opendocument.spreadsheet-template"
    proof {
        assert(ots_sig@ =~= seq![0x6du8, 0x69u8, 0x6du8, 0x65u8, 0x74u8, 0x79u8, 0x70u8, 0x65u8, 0x61u8, 0x70u8, 0x70u8, 0x6cu8, 0x69u8, 0x63u8, 0x61u8, 0x74u8, 0x69u8, 0x6fu8, 0x6eu8, 0x2fu8, 0x76u8, 0x6eu8, 0x64u8, 0x2eu8, 0x6fu8, 0x61u8, 0x73u8, 0x69u8, 0x73u8, 0x2eu8, 0x6fu8, 0x70u8, 0x65u8, 0x6eu8, 0x64u8, 0x6fu8, 0x63u8, 0x75u8, 0x6du8, 0x65u8, 0x6eu8, 0x74u8, 0x2eu8, 0x73u8, 0x70u8, 0x72u8, 0x65u8, 0x61u8, 0x64u8, 0x73u8, 0x68u8, 0x65u8, 0x65u8, 0x74u8, 0x2du8, 0x74u8, 0x65u8, 0x6du8, 0x70u8, 0x6cu8, 0x61u8, 0x74u8, 0x65u8]);
    }
    let ots = Mime::new(String::from_str("application/vnd.oasis.opendocument.spreadsheet-template"), String::from_str(".ots"), Detector::Offset(30, ots_sig)).aliases(vec!["application/x-vnd.oasis.opendocument.spreadsheet-template"]);
    proof {
        assert(ots_entry(ots));
    }
    let ods_sig: Vec<u8> = vec![0x6d, 0x69, 0x6d, 0x65, 0x74, 0x79, 0x70, 0x65, 0x61, 0x70, 0x70, 0x6c, 0x69, 0x63, 0x61, 0x74, 0x69, 0x6f, 0x6e, 0x2f, 0x76, 0x6e, 0x64, 0x2e, 0x6f, 0x61, 0x73, 0x69, 0x73, 0x2e, 0x6f, 0x70, 0x65, 0x6e, 0x64, 0x6f, 0x63, 0x75, 0x6d, 0x65, 0x6e, 0x74, 0x2e, 0x73, 0x70, 0x72, 0x65, 0x61, 0x64, 0x73, 0x68, 0x65, 0x65, 0x74];  // "mimetypeapplication/vnd.oasis.opendocument.spreadsheet"
    proof {
        assert(ods_sig@ =~= seq![0x6du8, 0x69u8, 0x6du8, 0x65u8, 0x74u8, 0x79u8, 0x70u8, 0x65u8, 0x61u8, 0x70u8, 0x70u8, 0x6cu8, 0x69u8, 0x63u8, 0x61u8, 0x74u8, 0x69u8, 0x6fu8, 0x6eu8, 0x2fu8, 0x76u8, 0x6eu8, 0x64u8, 0x2eu8, 0x6fu8, 0x61u8, 0x73u8, 0x69u8, 0x73u8, 0x2eu8, 0x6fu8, 0x70u8, 0x65u8, 0x6eu8, 0x64u8, 0x6fu8, 0x63u8, 0x75u8, 0x6du8, 0x65u8, 0x6eu8, 0x74u8, 0x2eu8, 0x73u8, 0x70u8, 0x72u8, 0x65u8, 0x61u8, 0x64u8, 0x73u8, 0x68u8, 0x65u8, 0x65u8, 0x74u8]);
    }
    let ods = Mime::new(String::from_str("application/vnd.oasis.opendocument.spreadsheet"), String::from_str(".ods"), Detector::Offset(30, ods_sig)).aliases(vec!["application/x-vnd.oasis.opendocument.spreadsheet"]).children(vec![ots]);
    proof {
        assert(ods_entry(ods));
    }
    let otp_sig: Vec<u8> = vec![0x6d, 0x69, 0x6d, 0x65, 0x74, 0x79, 0x70, 0x65, 0x61, 0x70, 0x70, 0x6c, 0x69, 0x63, 0x61, 0x74, 0x69, 0x6f, 0x6e, 0x2f, 0x76, 0x6e, 0x64, 0x2e, 0x6f, 0x61, 0x73, 0x69, 0x73, 0x2e, 0x6f, 0x70, 0x65, 0x6e, 0x64, 0x6f, 0x63, 0x75, 0x6d, 0x65, 0x6e, 0x74, 0x2e, 0x70, 0x72, 0x65, 0x73, 0x65, 0x6e, 0x74, 0x61, 0x74, 0x69, 0x6f, 0x6e, 0x2d, 0x74, 0x65, 0x6d, 0x70, 0x6c, 0x61, 0x74, 0x65];  // "mimetypeapplication/vnd.oasis.opendocument.presentation-template"
    proof {
        assert(otp_sig@ =~= seq![0x6du8, 0x69u8, 0x6du8, 0x65u8, 0x74u8, 0x79u8, 0x70u8, 0x65u8, 0x61u8, 0x70u8, 0x70u8, 0x6cu8, 0x69u8, 0x63u8, 0x61u8, 0x74u8, 0x69u8, 0x6fu8, 0x6eu8, 0x2fu8, 0x76u8, 0x6eu8, 0x64u8, 0x2eu8, 0x6fu8, 0x61u8, 0x73u8, 0x69u8, 0x73u8, 0x2eu8, 0x6fu8, 0x70u8, 0x65u8, 0x6eu8, 0x64u8, 0x6fu8, 0x63u8, 0x75u8, 0x6du8, 0x65u8, 0x6eu8, 0x74u8, 0x2eu8, 0x70u8, 0x72u8, 0x65u8, 0x73u8, 0x65u8, 0x6eu8, 0x74u8, 0x61u8, 0x74u8, 0x69u8, 0x6fu8, 0x6eu8, 0x2du8, 0x74u8, 0x65u8, 0x6du8, 0x70u8, 0x6cu8, 0x61u8, 0x74u8, 0x65u8]);
    }
    let otp = Mime::new(String::from_str("application/vnd.oasis.opendocument.presentation-template"), String::from_str(".otp"), Detector::Offset(30, otp_sig)).aliases(vec!["application/x-vnd.oasis.opendocument.presentation-template"]);
    proof {
        assert(otp_entry(otp));
    }
    let odp_sig: Vec<u8> = vec![0x6d, 0x69, 0x6d, 0x65, 0x74, 0x79, 0x70, 0x65, 0x61, 0x70, 0x70, 0x6c, 0x69, 0x63, 0x61, 0x74, 0x69, 0x6f, 0x6e, 0x2f, 0x76, 0x6e, 0x64, 0x2e, 0x6f, 0x61, 0x73, 0x69, 0x73, 0x2e, 0x6f, 0x70, 0x65, 0x6e, 0x64, 0x6f, 0x63, 0x75, 0x6d, 0x65, 0x6e, 0x74, 0x2e, 0x70, 0x72, 0x65, 0x73, 0x65, 0x6e, 0x74, 0x61, 0x74, 0x69, 0x6f, 0x6e];  // "mimetypeapplication/vnd.oasis.opendocument.presentation"
    proof {
        assert(odp_sig@ =~= seq![0x6du8, 0x69u8, 0x6du8, 0x65u8, 0x74u8, 0x79u8, 0x70u8, 0x65u8, 0x61u8, 0x70u8, 0x70u8, 0x6cu8, 0x69u8, 0x63u8, 0x61u8, 0x74u8, 0x69u8, 0x6fu8, 0x6eu8, 0x2fu8, 0x76u8, 0x6eu8, 0x64u8, 0x2eu8, 0x6fu8, 0x61u8, 0x73u8, 0x69u8, 0x73u8, 0x2eu8, 0x6fu8, 0x70u8, 0x65u8, 0x6eu8, 0x64u8, 0x6fu8, 0x63u8, 0x75u8, 0x6du8, 0x65u8, 0x6eu8, 0x74u8, 0x2eu8, 0x70u8, 0x72u8, 0x65u8, 0x73u8, 0x65u8, 0x6eu8, 0x74u8, 0x61u8, 0x74u8, 0x69u8, 0x6fu8, 0x6eu8]);
    }
    let odp = Mime::new(String::from_str("application/vnd.oasis.opendocument.presentation"), String::from_str(".odp"), Detector::Offset(30, odp_sig)).aliases(vec!["application/x-vnd.oasis.opendocument.presentation"]).children(vec![otp]);
    proof {
        assert(odp_entry(odp));
    }
    let otg_sig: Vec<u8> = vec![0x6d, 0x69, 0x6d, 0x65, 0x74, 0x79, 0x70, 0x65, 0x61, 0x70, 0x70, 0x6c, 0x69, 0x63, 0x61, 0x74, 0x69, 0x6f, 0x6e, 0x2f, 0x76, 0x6e, 0x64, 0x2e, 0x6f, 0x61, 0x73, 0x69, 0x73, 0x2e, 0x6f, 0x70, 0x65, 0x6e, 0x64, 0x6f, 0x63, 0x75, 0x6d, 0x65, 0x6e, 0x74, 0x2e, 0x67, 0x72, 0x61, 0x70, 0x68, 0x69, 0x63, 0x73, 0x2d, 0x74, 0x65, 0x6d, 0x70, 0x6c, 0x61, 0x74, 0x65];  // "mimetypeapplication/vnd.oasis.opendocument.graphics-template"
    proof {
        assert(otg_sig@ =~= seq![0x6du8, 0x69u8, 0x6du8, 0x65u8, 0x74u8, 0x79u8, 0x70u8, 0x65u8, 0x61u8, 0x70u8, 0x70u8, 0x6cu8, 0x69u8, 0x63u8, 0x61u8, 0x74u8, 0x69u8, 0x6fu8, 0x6eu8, 0x2fu8, 0x76u8, 0x6eu8, 0x64u8, 0x2eu8, 0x6fu8, 0x61u8, 0x73u8, 0x69u8, 0x73u8, 0x2eu8, 0x6fu8, 0x70u8, 0x65u8, 0x6eu8, 0x64u8, 0x6fu8, 0x63u8, 0x75u8, 0x6du8, 0x65u8, 0x6eu8, 0x74u8, 0x2eu8, 0x67u8, 0x72u8, 0x61u8, 0x70u8, 0x68u8, 0x69u8, 0x63u8, 0x73u8, 0x2du8, 0x74u8, 0x65u8, 0x6du8, 0x70u8, 0x6cu8, 0x61u8, 0x74u8, 0x65u8]);
    }
    let otg = Mime::new(String::from_str("application/vnd.oasis.opendocument.graphics-template"), String::from_str(".otg"), Detector::Offset(30, otg_sig)).aliases(vec!["application/x-vnd.oasis.opendocument.graphics-template"]);
    proof {
        assert(otg_entry(otg));
    }
    let odg_sig: Vec<u8> = vec![0x6d, 0x69, 0x6d, 0x65, 0x74, 0x79, 0x70, 0x65, 0x61, 0x70, 0x70, 0x6c, 0x69, 0x63, 0x61, 0x74, 0x69, 0x6f, 0x6e, 0x2f, 0x76, 0x6e, 0x64, 0x2e, 0x6f, 0x61, 0x73, 0x69, 0x73, 0x2e, 0x6f, 0x70, 0x65, 0x6e, 0x64, 0x6f, 0x63, 0x75, 0x6d, 0x65, 0x6e, 0x74, 0x2e, 0x67, 0x72, 0x61, 0x70, 0x68, 0x69, 0x63, 0x73];  // "mimetypeapplication/vnd.oasis.opendocument.graphics"
    proof {
        assert(odg_sig@ =~= seq![0x6du8, 0x69u8, 0x6du8, 0x65u8, 0x74u8, 0x79u8, 0x70u8, 0x65u8, 0x61u8, 0x70u8, 0x70u8, 0x6cu8, 0x69u8, 0x63u8, 0x61u8, 0x74u8, 0x69u8, 0x6fu8, 0x6eu8, 0x2fu8, 0x76u8, 0x6eu8, 0x64u8, 0x2eu8, 0x6fu8, 0x61u8, 0x73u8, 0x69u8, 0x73u8, 0x2eu8, 0x6fu8, 0x70u8, 0x65u8, 0x6eu8, 0x64u8, 0x6fu8, 0x63u8, 0x75u8, 0x6du8, 0x65u8, 0x6eu8, 0x74u8, 0x2eu8, 0x67u8, 0x72u8, 0x61u8, 0x70u8, 0x68u8, 0x69u8, 0x63u8, 0x73u8]);
    }
    let odg = Mime::new(String::from_str("application/vnd.oasis.opendocument.graphics"), String::from_str(".odg"), Detector::Offset(30, odg_sig)).aliases(vec!["application/x-vnd.oasis.opendocument.graphics"]).children(vec![otg]);
    proof {
        assert(odg_entry(odg));
    }
    let odf_sig: Vec<u8> = vec![0x6d, 0x69, 0x6d, 0x65, 0x74, 0x79, 0x70, 0x65, 0x61, 0x70, 0x70, 0x6c, 0x69, 0x63, 0x61, 0x74, 0x69, 0x6f, 0x6e, 0x2f, 0x76, 0x6e, 0x64, 0x2e, 0x6f, 0x61, 0x73, 0x69, 0x73, 0x2e, 0x6f, 0x70, 0x65, 0x6e, 0x64, 0x6f, 0x63, 0x75, 0x6d, 0x65, 0x6e, 0x74, 0x2e, 0x66, 0x6f, 0x72, 0x6d, 0x75, 0x6c, 0x61];  // "mimetypeapplication/vnd.oasis.opendocument.formula"
    proof {
        assert(odf_sig@ =~= seq![0x6du8, 0x69u8, 0x6du8, 0x65u8, 0x74u8, 0x79u8, 0x70u8, 0x65u8, 0x61u8, 0x70u8, 0x70u8, 0x6cu8, 0x69u8, 0x63u8, 0x61u8, 0x74u8, 0x69u8, 0x6fu8, 0x6eu8, 0x2fu8, 0x76u8, 0x6eu8, 0x64u8, 0x2eu8, 0x6fu8, 0x61u8, 0x73u8, 0x69u8, 0x73u8, 0x2eu8, 0x6fu8, 0x70u8, 0x65u8, 0x6eu8, 0x64u8, 0x6fu8, 0x63u8, 0x75u8, 0x6du8, 0x65u8, 0x6eu8, 0x74u8, 0x2eu8, 0x66u8, 0x6fu8, 0x72u8, 0x6du8, 0x75u8, 0x6cu8, 0x61u8]);
    }
    let odf = Mime::new(String::from_str("application/vnd.oasis.opendocument.formula"), String::from_str(".odf"), Detector::Offset(30, odf_sig)).aliases(vec!["application/x-vnd.oasis.opendocument.formula"]);
    proof {
        assert(odf_entry(odf));
    }
    let odc_sig: Vec<u8> = vec![0x6d, 0x69, 0x6d, 0x65, 0x74, 0x79, 0x70, 0x65, 0x61, 0x70, 0x70, 0x6c, 0x69, 0x63, 0x61, 0x74, 0x69, 0x6f, 0x6e, 0x2f, 0x76, 0x6e, 0x64, 0x2e, 0x6f, 0x61, 0x73, 0x69, 0x73, 0x2e, 0x6f, 0x70, 0x65, 0x6e, 0x64, 0x6f, 0x63, 0x75, 0x6d, 0x65, 0x6e, 0x74, 0x2e, 0x63, 0x68, 0x61, 0x72, 0x74];  // "mimetypeapplication/vnd.oasis.opendocument.chart"
    proof {
        assert(odc_sig@ =~= seq![0x6du8, 0x69u8, 0x6du8, 0x65u8, 0x74u8, 0x79u8, 0x70u8, 0x65u8, 0x61u8, 0x70u8, 0x70u8, 0x6cu8, 0x69u8, 0x63u8, 0x61u8, 0x74u8, 0x69u8, 0x6fu8, 0x6eu8, 0x2fu8, 0x76u8, 0x6eu8, 0x64u8, 0x2eu8, 0x6fu8, 0x61u8, 0x73u8, 0x69u8, 0x73u8, 0x2eu8, 0x6fu8, 0x70u8, 0x65u8, 0x6eu8, 0x64u8, 0x6fu8, 0x63u8, 0x75u8, 0x6du8, 0x65u8, 0x6eu8, 0x74u8, 0x2eu8, 0x63u8, 0x68u8, 0x61u8, 0x72u8, 0x74u8]);
    }
    let odc = Mime::new(String::from_str("application/vnd.oasis.opendocument.chart"), String::from_str(".odc"), Detector::Offset(30, odc_sig)).aliases(vec!["application/x-vnd.oasis.opendocument.chart"]);
    proof {
        assert(odc_entry(odc));
    }
    let sxc_sig: Vec<u8> = vec![0x6d, 0x69, 0x6d, 0x65, 0x74, 0x79, 0x70, 0x65, 0x61, 0x70, 0x70, 0x6c, 0x69, 0x63, 0x61, 0x74, 0x69, 0x6f, 0x6e, 0x2f, 0x76, 0x6e, 0x64, 0x2e, 0x73, 0x75, 0x6e, 0x2e, 0x78, 0x6d, 0x6c, 0x2e, 0x63, 0x61, 0x6c, 0x63];  // "mimetypeapplication/vnd.sun.xml.calc"
    proof {
        assert(sxc_sig@ =~= seq![0x6du8, 0x69u8, 0x6du8, 0x65u8, 0x74u8, 0x79u8, 0x70u8, 0x65u8, 0x61u8, 0x70u8, 0x70u8, 0x6cu8, 0x69u8, 0x63u8, 0x61u8, 0x74u8, 0x69u8, 0x6fu8, 0x6eu8, 0x2fu8, 0x76u8, 0x6eu8, 0x64u8, 0x2eu8, 0x73u8, 0x75u8, 0x6eu8, 0x2eu8, 0x78u8, 0x6du8, 0x6cu8, 0x2eu8, 0x63u8, 0x61u8, 0x6cu8, 0x63u8]);
    }
    let sxc = Mime::new(String::from_str("application/vnd.sun.xml.calc"), String::from_str(".sxc"), Detector::Offset(30, sxc_sig)).aliases(vec!["application/x-vnd.sun.xml.calc"]);
    proof {
        assert(sxc_entry(sxc));
    }
    let zip = Mime::new(String::from_str("application/zip"), String::from_str(".zip"), Detector::Zip).children(vec![xlsx, docx, pptx, epub, jar, odt, ods, odp, odg, odf, odc, sxc]);
    proof {
        assert(zip_entry(zip));
    }
    let pdf_sigs: Vec<Vec<u8>> = vec![vec![0x25, 0x50, 0x44, 0x46, 0x2d], vec![0x0a, 0x25, 0x50, 0x44, 0x46, 0x2d], vec![0xef, 0xbb, 0xbf, 0x25, 0x50, 0x44, 0x46, 0x2d]];  // "%PDF-"
    proof {
        assert(seq_views(pdf_sigs@) =~~= seq![seq![0x25u8, 0x50u8, 0x44u8, 0x46u8, 0x2du8], seq![0x0au8, 0x25u8, 0x50u8, 0x44u8, 0x46u8, 0x2du8], seq![0xefu8, 0xbbu8, 0xbfu8, 0x25u8, 0x50u8, 0x44u8, 0x46u8, 0x2du8]]);
    }
    let pdf = Mime::new(String::from_str("application/pdf"), String::from_str(".pdf"), Detector::Prefix(pdf_sigs)).aliases(vec!["application/x-pdf"]);
    proof {
        assert(pdf_entry(pdf));
    }
    let fdf_sigs: Vec<Vec<u8>> = vec![vec![0x25, 0x46, 0x44, 0x46]];  // "%FDF"
    proof {
        assert(seq_views(fdf_sigs@) =~~= seq![seq![0x25u8, 0x46u8, 0x44u8, 0x46u8]]);
    }
    let fdf = Mime::new(String::from_str("application/vnd.fdf"), String::from_str(".fdf"), Detector::Prefix(fdf_sigs));
    proof {
        assert(fdf_entry(fdf));
    }
    let msi = Mime::new(String::from_str("application/x-ms-installer"), String::from_str(".msi"), Detector::Msi).aliases(vec!["application/x-windows-installer", "application/x-msi"]);
    proof {
        assert(msi_entry(msi));
    }
    let aaf = Mime::new(String::from_str("application/octet-stream"), String::from_str(".aaf"), Detector::Aaf);
    proof {
        assert(aaf_entry(aaf));
    }
    let msg = Mime::new(String::from_str("application/vnd.ms-outlook"), String::from_str(".msg"), Detector::Msg);
    proof {
        assert(msg_entry(msg));
    }
    let xls = Mime::new(String::from_str("application/vnd.ms-excel"), String::from_str(".xls"), Detector::Xls).aliases(vec!["application/msexcel"]);
    proof {
        assert(xls_entry(xls));
    }
    let publisher = Mime::new(String::from_str("application/vnd.ms-publisher"), String::from_str(".pub"), Detector::Publisher);
    proof {
        assert(publisher_entry(publisher));
    }
    let ppt = Mime::new(String::from_str("application/vnd.ms-powerpoint"), String::from_str(".ppt"), Detector::Ppt).aliases(vec!["application/mspowerpoint"]);
    proof {
        assert(ppt_entry(ppt));
    }
    let doc = Mime::new(String::from_str("application/msword"), String::from_str(".doc"), Detector::Doc).aliases(vec!["application/vnd.ms-word"]);
    proof {
        assert(doc_entry(doc));
    }
    let ole_sigs: Vec<Vec<u8>> = vec![vec![0xd0, 0xcf, 0x11, 0xe0, 0xa1, 0xb1, 0x1a, 0xe1]];
    proof {
        assert(seq_views(ole_sigs@) =~~= seq![seq![0xd0u8, 0xcfu8, 0x11u8, 0xe0u8, 0xa1u8, 0xb1u8, 0x1au8, 0xe1u8]]);
    }
    let ole = Mime::new(String::from_str("application/x-ole-storage"), String::from_str(""), Detector::Prefix(ole_sigs)).children(vec![msi, aaf, msg, xls, publisher, ppt, doc]);
    proof {
        assert(ole_entry(ole));
    }
    let ps_sigs: Vec<Vec<u8>> = vec![vec![0x25, 0x21, 0x50, 0x53, 0x2d, 0x41, 0x64, 0x6f, 0x62, 0x65, 0x2d]];  // "%!PS-Adobe-"
    proof {
        assert(seq_views(ps_sigs@) =~~= seq![seq![0x25u8, 0x21u8, 0x50u8, 0x53u8, 0x2du8, 0x41u8, 0x64u8, 0x6fu8, 0x62u8, 0x65u8, 0x2du8]]);
    }
    let ps = Mime::new(String::from_str("application/postscript"), String::from_str(".ps"), Detector::Prefix(ps_sigs));
    proof {
        assert(ps_entry(ps));
    }
    let psd_sigs: Vec<Vec<u8>> = vec![vec![0x38, 0x42, 0x50, 0x53]];  // "8BPS"
    proof {
        assert(seq_views(psd_sigs@) =~~= seq![seq![0x38u8, 0x42u8, 0x50u8, 0x53u8]]);
    }
    let psd = Mime::new(String::from_str("image/vnd.adobe.photoshop"), String::from_str(".psd"), Detector::Prefix(psd_sigs)).aliases(vec!["image/x-psd", "application/photoshop"]);
    proof {
        assert(psd_entry(psd));
    }
    let p7s = Mime::new(String::from_str("application/pkcs7-signature"), String::from_str(".p7s"), Detector::P7s);
    proof {
        assert(p7s_entry(p7s));
    }
    let ogg_audio = Mime::new(String::from_str("audio/ogg"), String::from_str(".ogg"), Detector::OggAudio);
    proof {
        assert(ogg_audio_entry(ogg_audio));
    }
    let ogg_video = Mime::new(String::from_str("video/ogg"), String::from_str(".ogv"), Detector::OggVideo);
    proof {
        assert(ogg_video_entry(ogg_video));
    }
    let ogg_sigs: Vec<Vec<u8>> = vec![vec![0x4f, 0x67, 0x67, 0x53, 0x00]];
    proof {
        assert(seq_views(ogg_sigs@) =~~= seq![seq![0x4fu8, 0x67u8, 0x67u8, 0x53u8, 0x00u8]]);
    }
    let ogg = Mime::new(String::from_str("application/ogg"), String::from_str(".ogg"), Detector::Prefix(ogg_sigs)).aliases(vec!["application/x-ogg"]).children(vec![ogg_audio, ogg_video]);
    proof {
        assert(ogg_entry(ogg));
    }
    let apng_sig: Vec<u8> = vec![0x61, 0x63, 0x54, 0x4c];  // "acTL"
    proof {
        assert(apng_sig@ =~= seq![0x61u8, 0x63u8, 0x54u8, 0x4cu8]);
    }
    let apng = Mime::new(String::from_str("image/vnd.mozilla.apng"), String::from_str(".apng"), Detector::Offset(37, apng_sig));
    proof {
        assert(apng_entry(apng));
    }
    let png_sigs: Vec<Vec<u8>> = vec![vec![0x89, 0x50, 0x4e, 0x47, 0x0d, 0x0a, 0x1a, 0x0a]];
    proof {
        assert(seq_views(png_sigs@) =~~= seq![seq![0x89u8, 0x50u8, 0x4eu8, 0x47u8, 0x0du8, 0x0au8, 0x1au8, 0x0au8]]);
    }
    let png = Mime::new(String::from_str("image/png"), String::from_str(".png"), Detector::Prefix(png_sigs)).children(vec![apng]);
    proof {
        assert(png_entry(png));
    }
    let jpg_sigs: Vec<Vec<u8>> = vec![vec![0xff, 0xd8, 0xff]];
    proof {
        assert(seq_views(jpg_sigs@) =~~= seq![seq![0xffu8, 0xd8u8, 0xffu8]]);
    }
    let jpg = Mime::new(String::from_str("image/jpeg"), String::from_str(".jpg"), Detector::Prefix(jpg_sigs));
    proof {
        assert(jpg_entry(jpg));
    }
    let jxl = Mime::new(String::from_str("image/jxl"), String::from_str(".jxl"), Detector::Jxl);
    proof {
        assert(jxl_entry(jxl));
    }
    let mut v: Vec<Mime> = Vec::new();
    v.push(xpm);
    v.push(seven_z);
    v.push(zip);
    v.push(pdf);
    v.push(fdf);
    v.push(ole);
    v.push(ps);
    v.push(psd);
    v.push(p7s);
    v.push(ogg);
    v.push(png);
    v.push(jpg);
    v.push(jxl);
    proof {
        assert(v@[0] == xpm);
        assert(v@[1] == seven_z);
        assert(v@[2] == zip);
        assert(v@[3] == pdf);
        assert(v@[4] == fdf);
        assert(v@[5] == ole);
        assert(v@[6] == ps);
        assert(v@[7] == psd);
        assert(v@[8] == p7s);
        assert(v@[9] == ogg);
        assert(v@[10] == png);
        assert(v@[11] == jpg);
        assert(v@[12] == jxl);
    }
    v
}

fn tree_part_1() -> (v: Vec<Mime>)
    ensures
        v@.len() == 13,
        jp2_entry(v@[0]),
        jpx_entry(v@[1]),
        jpm_entry(v@[2]),
        jxs_entry(v@[3]),
        gif_entry(v@[4]),
        webp_entry(v@[5]),
        exe_entry(v@[6]),
        elf_entry(v@[7]),
        ar_entry(v@[8]),
        tar_entry(v@[9]),
        xar_entry(v@[10]),
        bz2_entry(v@[11]),
        fits_entry(v@[12]),
{
    let jp2_sig: Vec<u8> = vec![0x6a, 0x70, 0x32, 0x20];  // "jp2 "
    proof {
        assert(jp2_sig@ =~= seq![0x6au8, 0x70u8, 0x32u8, 0x20u8]);
    }
    let jp2 = Mime::new(String::from_str("image/jp2"), String::from_str(".jp2"), Detector::Jpeg2k(jp2_sig));
    proof {
        assert(jp2_entry(jp2));
    }
    let jpx_sig: Vec<u8> = vec![0x6a, 0x70, 0x78, 0x20];  // "jpx "
    proof {
        assert(jpx_sig@ =~= seq![0x6au8, 0x70u8, 0x78u8, 0x20u8]);
    }
    let jpx = Mime::new(String::from_str("image/jpx"), String::from_str(".jpf"), Detector::Jpeg2k(jpx_sig));
    proof {
        assert(jpx_entry(jpx));
    }
    let jpm_sig: Vec<u8> = vec![0x6a, 0x70, 0x6d, 0x20];  // "jpm "
    proof {
        assert(jpm_sig@ =~= seq![0x6au8, 0x70u8, 0x6du8, 0x20u8]);
    }
    let jpm = Mime::new(String::from_str("image/jpm"), String::from_str(".jpm"), Detector::Jpeg2k(jpm_sig));
    proof {
        assert(jpm_entry(jpm));
    }
    let jxs_sigs: Vec<Vec<u8>> = vec![vec![0x00, 0x00, 0x00, 0x0c, 0x4a, 0x58, 0x53, 0x20, 0x0d, 0x0a, 0x87, 0x0a]];
    proof {
        assert(seq_views(jxs_sigs@) =~~= seq![seq![0x00u8, 0x00u8, 0x00u8, 0x0cu8, 0x4au8, 0x58u8, 0x53u8, 0x20u8, 0x0du8, 0x0au8, 0x87u8, 0x0au8]]);
    }
    let jxs = Mime::new(String::from_str("image/jxs"), String::from_str(".jxs"), Detector::Prefix(jxs_sigs));
    proof {
        assert(jxs_entry(jxs));
    }
    let gif_sigs: Vec<Vec<u8>> = vec![vec![0x47, 0x49, 0x46, 0x38, 0x37, 0x61], vec![0x47, 0x49, 0x46, 0x38, 0x39, 0x61]];  // "GIF87a", "GIF89a"
    proof {
        assert(seq_views(gif_sigs@) =~~= seq![seq![0x47u8, 0x49u8, 0x46u8, 0x38u8, 0x37u8, 0x61u8], seq![0x47u8, 0x49u8, 0x46u8, 0x38u8, 0x39u8, 0x61u8]]);
    }
    let gif = Mime::new(String::from_str("image/gif"), String::from_str(".gif"), Detector::Prefix(gif_sigs));
    proof {
        assert(gif_entry(gif));
    }
    let webp = Mime::new(String::from_str("image/webp"), String::from_str(".webp"), Detector::Webp);
    proof {
        assert(webp_entry(webp));
    }
    let exe_sigs: Vec<Vec<u8>> = vec![vec![0x4d, 0x5a]];
    proof {
        assert(seq_views(exe_sigs@) =~~= seq![seq![0x4du8, 0x5au8]]);
    }
    let exe = Mime::new(String::from_str("application/vnd.microsoft.portable-executable"), String::from_str(".exe"), Detector::Prefix(exe_sigs));
    proof {
        assert(exe_entry(exe));
    }
    let elf_obj = Mime::new(String::from_str("application/x-object"), String::from_str(""), Detector::ElfObj);
    proof {
        assert(elf_obj_entry(elf_obj));
    }
    let elf_exe = Mime::new(String::from_str("application/x-executable"), String::from_str(""), Detector::ElfExe);
    proof {
        assert(elf_exe_entry(elf_exe));
    }
    let elf_lib = Mime::new(String::from_str("application/x-sharedlib"), String::from_str(".so"), Detector::ElfLib);
    proof {
        assert(elf_lib_entry(elf_lib));
    }
    let elf_dump = Mime::new(String::from_str("application/x-coredump"), String::from_str(""), Detector::ElfDump);
    proof {
        assert(elf_dump_entry(elf_dump));
    }
    let elf_sigs: Vec<Vec<u8>> = vec![vec![0x7f, 0x45, 0x4c, 0x46]];
    proof {
        assert(seq_views(elf_sigs@) =~~= seq![seq![0x7fu8, 0x45u8, 0x4cu8, 0x46u8]]);
    }
    let elf = Mime::new(String::from_str("application/x-elf"), String::from_str(".elf"), Detector::Prefix(elf_sigs)).children(vec![elf_obj, elf_exe, elf_lib, elf_dump]);
    proof {
        assert(elf_entry(elf));
    }
    let deb_sig: Vec<u8> = vec![0x64, 0x65, 0x62, 0x69, 0x61, 0x6e, 0x2d, 0x62, 0x69, 0x6e, 0x61, 0x72, 0x79];  // "debian-binary"
    proof {
        assert(deb_sig@ =~= seq![0x64u8, 0x65u8, 0x62u8, 0x69u8, 0x61u8, 0x6eu8, 0x2du8, 0x62u8, 0x69u8, 0x6eu8, 0x61u8, 0x72u8, 0x79u8]);
    }
    let deb = Mime::new(String::from_str("application/vnd.debian.binary-package"), String::from_str(".deb"), Detector::Offset(8, deb_sig));
    proof {
        assert(deb_entry(deb));
    }
    let ar_sigs: Vec<Vec<u8>> = vec![vec![0x21, 0x3c, 0x61, 0x72, 0x63, 0x68, 0x3e]];  // "!<arch>"
    proof {
        assert(seq_views(ar_sigs@) =~~= seq![seq![0x21u8, 0x3cu8, 0x61u8, 0x72u8, 0x63u8, 0x68u8, 0x3eu8]]);
    }
    let ar = Mime::new(String::from_str("application/x-archive"), String::from_str(".a"), Detector::Prefix(ar_sigs)).children(vec![deb]);
    proof {
        assert(ar_entry(ar));
    }
    let tar = Mime::new(String::from_str("application/x-tar"), String::from_str(".tar"), Detector::Tar);
    proof {
        assert(tar_entry(tar));
    }
    let xar_sigs: Vec<Vec<u8>> = vec![vec![0x78, 0x61, 0x72, 0x21]];  // "xar!"
    proof {
        assert(seq_views(xar_sigs@) =~~= seq![seq![0x78u8, 0x61u8, 0x72u8, 0x21u8]]);
    }
    let xar = Mime::new(String::from_str("application/x-xar"), String::from_str(".xar"), Detector::Prefix(xar_sigs));
    proof {
        assert(xar_entry(xar));
    }
    let bz2_sigs: Vec<Vec<u8>> = vec![vec![0x42, 0x5a, 0x68]];  // "BZh"
    proof {
        assert(seq_views(bz2_sigs@) =~~= seq![seq![0x42u8, 0x5au8, 0x68u8]]);
    }
    let bz2 = Mime::new(String::from_str("application/x-bzip2"), String::from_str(".bz2"), Detector::Prefix(bz2_sigs));
    proof {
        assert(bz2_entry(bz2));
    }
    let fits_sigs: Vec<Vec<u8>> = vec![vec![0x53, 0x49, 0x4d, 0x50, 0x4c, 0x45, 0x20, 0x20, 0x3d, 0x20, 0x20, 0x20, 0x20, 0x20, 0x20, 0x20, 0x20, 0x20, 0x20, 0x20, 0x20, 0x20, 0x20, 0x20, 0x20, 0x20, 0x20, 0x20, 0x20, 0x54]];  // "SIMPLE  =                    T"
    proof {
        assert(seq_views(fits_sigs@) =~~= seq![seq![0x53u8, 0x49u8, 0x4du8, 0x50u8, 0x4cu8, 0x45u8, 0x20u8, 0x20u8, 0x3du8, 0x20u8, 0x20u8, 0x20u8, 0x20u8, 0x20u8, 0x20u8, 0x20u8, 0x20u8, 0x20u8, 0x20u8, 0x20u8, 0x20u8, 0x20u8, 0x20u8, 0x20u8, 0x20u8, 0x20u8, 0x20u8, 0x20u8, 0x20u8, 0x54u8]]);
    }
    let fits = Mime::new(String::from_str("application/fits"), String::from_str(".fits"), Detector::Prefix(fits_sigs));
    proof {
        assert(fits_entry(fits));
    }
    let mut v: Vec<Mime> = Vec::new();
    v.push(jp2);
    v.push(jpx);
    v.push(jpm);
    v.push(jxs);
    v.push(gif);
    v.push(webp);
    v.push(exe);
    v.push(elf);
    v.push(ar);
    v.push(tar);
    v.push(xar);
    v.push(bz2);
    v.push(fits);
    proof {
        assert(v@[0] == jp2);
        assert(v@[1] == jpx);
        assert(v@[2] == jpm);
        assert(v@[3] == jxs);
        assert(v@[4] == gif);
        assert(v@[5] == webp);
        assert(v@[6] == exe);
        assert(v@[7] == elf);
        assert(v@[8] == ar);
        assert(v@[9] == tar);
        assert(v@[10] == xar);
        assert(v@[11] == bz2);
        assert(v@[12] == fits);
    }
    v
}

fn tree_part_2() -> (v: Vec<Mime>)
    ensures
        v@.len() == 13,
        tiff_entry(v@[0]),
        bmp_entry(v@[1]),
        ico_entry(v@[2]),
        mp3_entry(v@[3]),
        flac_entry(v@[4]),
        midi_entry(v@[5]),
        ape_entry(v@[6]),
        musepack_entry(v@[7]),
        amr_entry(v@[8]),
        wav_entry(v@[9]),
        aiff_entry(v@[10]),
        au_entry(v@[11]),
        mpeg_entry(v@[12]),
{
    let tiff_sigs: Vec<Vec<u8>> = vec![vec![0x49, 0x49, 0x2a, 0x00], vec![0x4d, 0x4d, 0x00, 0x2a]];
    proof {
        assert(seq_views(tiff_sigs@) =~~= seq![seq![0x49u8, 0x49u8, 0x2au8, 0x00u8], seq![0x4du8, 0x4du8, 0x00u8, 0x2au8]]);
    }
    let tiff = Mime::new(String::from_str("image/tiff"), String::from_str(".tiff"), Detector::Prefix(tiff_sigs));
    proof {
        assert(tiff_entry(tiff));
    }
    let bmp_sigs: Vec<Vec<u8>> = vec![vec![0x42, 0x4d]];
    proof {
        assert(seq_views(bmp_sigs@) =~~= seq![seq![0x42u8, 0x4du8]]);
    }
    let bmp = Mime::new(String::from_str("image/bmp"), String::from_str(".bmp"), Detector::Prefix(bmp_sigs)).aliases(vec!["image/x-bmp", "image/x-ms-bmp"]);
    proof {
        assert(bmp_entry(bmp));
    }
    let ico_sigs: Vec<Vec<u8>> = vec![vec![0x00, 0x00, 0x01, 0x00], vec![0x00, 0x00, 0x02, 0x00]];
    proof {
        assert(seq_views(ico_sigs@) =~~= seq![seq![0x00u8, 0x00u8, 0x01u8, 0x00u8], seq![0x00u8, 0x00u8, 0x02u8, 0x00u8]]);
    }
    let ico = Mime::new(String::from_str("image/x-icon"), String::from_str(".ico"), Detector::Prefix(ico_sigs));
    proof {
        assert(ico_entry(ico));
    }
    let mp3 = Mime::new(String::from_str("audio/mpeg"), String::from_str(".mp3"), Detector::Mp3).aliases(vec!["audio/x-mpeg", "audio/mp3"]);
    proof {
        assert(mp3_entry(mp3));
    }
    let flac_sigs: Vec<Vec<u8>> = vec![vec![0x66, 0x4c, 0x61, 0x43, 0x00, 0x00, 0x00, 0x22]];
    proof {
        assert(seq_views(flac_sigs@) =~~= seq![seq![0x66u8, 0x4cu8, 0x61u8, 0x43u8, 0x00u8, 0x00u8, 0x00u8, 0x22u8]]);
    }
    let flac = Mime::new(String::from_str("audio/flac"), String::from_str(".flac"), Detector::Prefix(flac_sigs));
    proof {
        assert(flac_entry(flac));
    }
    let midi_sigs: Vec<Vec<u8>> = vec![vec![0x4d, 0x54, 0x68, 0x64]];  // "MThd"
    proof {
        assert(seq_views(midi_sigs@) =~~= seq![seq![0x4du8, 0x54u8, 0x68u8, 0x64u8]]);
    }
    let midi = Mime::new(String::from_str("audio/midi"), String::from_str(".midi"), Detector::Prefix(midi_sigs));
    proof {
        assert(midi_entry(midi));
    }
    let ape_sigs: Vec<Vec<u8>> = vec![vec![0x4d, 0x41, 0x43, 0x20, 0x96, 0x0f, 0x00, 0x00, 0x34, 0x00, 0x00, 0x00, 0x18, 0x00, 0x00, 0x00, 0x90, 0xe3]];
    proof {
        assert(seq_views(ape_sigs@) =~~= seq![seq![0x4du8, 0x41u8, 0x43u8, 0x20u8, 0x96u8, 0x0fu8, 0x00u8, 0x00u8, 0x34u8, 0x00u8, 0x00u8, 0x00u8, 0x18u8, 0x00u8, 0x00u8, 0x00u8, 0x90u8, 0xe3u8]]);
    }
    let ape = Mime::new(String::from_str("audio/ape"), String::from_str(".ape"), Detector::Prefix(ape_sigs));
    proof {
        assert(ape_entry(ape));
    }
    let musepack_sigs: Vec<Vec<u8>> = vec![vec![0x4d, 0x50, 0x43, 0x4b]];  // "MPCK"
    proof {
        assert(seq_views(musepack_sigs@) =~~= seq![seq![0x4du8, 0x50u8, 0x43u8, 0x4bu8]]);
    }
    let musepack = Mime::new(String::from_str("audio/musepack"), String::from_str(".mpc"), Detector::Prefix(musepack_sigs));
    proof {
        assert(musepack_entry(musepack));
    }
    let amr_sigs: Vec<Vec<u8>> = vec![vec![0x23, 0x21, 0x41, 0x4d, 0x52]];  // "#!AMR"
    proof {
        assert(seq_views(amr_sigs@) =~~= seq![seq![0x23u8, 0x21u8, 0x41u8, 0x4du8, 0x52u8]]);
    }
    let amr = Mime::new(String::from_str("audio/amr"), String::from_str(".amr"), Detector::Prefix(amr_sigs)).aliases(vec!["audio/amr-nb"]);
    proof {
        assert(amr_entry(amr));
    }
    let wav = Mime::new(String::from_str("audio/wav"), String::from_str(".wav"), Detector::Wav).aliases(vec!["audio/x-wav", "audio/vnd.wave", "audio/wave"]);
    proof {
        assert(wav_entry(wav));
    }
    let aiff = Mime::new(String::from_str("audio/aiff"), String::from_str(".aiff"), Detector::Aiff).aliases(vec!["audio/x-aiff"]);
    proof {
        assert(aiff_entry(aiff));
    }
    let au_sigs: Vec<Vec<u8>> = vec![vec![0x2e, 0x73, 0x6e, 0x64]];  // ".snd"
    proof {
        assert(seq_views(au_sigs@) =~~= seq![seq![0x2eu8, 0x73u8, 0x6eu8, 0x64u8]]);
    }
    let au = Mime::new(String::from_str("audio/basic"), String::from_str(".au"), Detector::Prefix(au_sigs));
    proof {
        assert(au_entry(au));
    }
    let mpeg = Mime::new(String::from_str("video/mpeg"), String::from_str(".mpeg"), Detector::Mpeg);
    proof {
        assert(mpeg_entry(mpeg));
    }
    let mut v: Vec<Mime> = Vec::new();
    v.push(tiff);
    v.push(bmp);
    v.push(ico);
    v.push(mp3);
    v.push(flac);
    v.push(midi);
    v.push(ape);
    v.push(musepack);
    v.push(amr);
    v.push(wav);
    v.push(aiff);
    v.push(au);
    v.push(mpeg);
    proof {
        assert(v@[0] == tiff);
        assert(v@[1] == bmp);
        assert(v@[2] == ico);
        assert(v@[3] == mp3);
        assert(v@[4] == flac);
        assert(v@[5] == midi);
        assert(v@[6] == ape);
        assert(v@[7] == musepack);
        assert(v@[8] == amr);
        assert(v@[9] == wav);
        assert(v@[10] == aiff);
        assert(v@[11] == au);
        assert(v@[12] == mpeg);
    }
    v
}

fn tree_part_3() -> (v: Vec<Mime>)
    ensures
        v@.len() == 13,
        quicktime_entry(v@[0]),
        mqv_entry(v@[1]),
        mp4_entry(v@[2]),
        webm_entry(v@[3]),
        three_gp_entry(v@[4]),
        three_g2_entry(v@[5]),
        avi_entry(v@[6]),
        flv_entry(v@[7]),
        mkv_entry(v@[8]),
        asf_entry(v@[9]),
        aac_entry(v@[10]),
        voc_entry(v@[11]),
        amp4_entry(v@[12]),
{
    let quicktime = Mime::new(String::from_str("video/quicktime"), String::from_str(".mov"), Detector::QuickTime);
    proof {
        assert(quicktime_entry(quicktime));
    }
    let mqv_sigs: Vec<Vec<u8>> = vec![vec![0x6d, 0x71, 0x74, 0x20]];  // "mqt "
    proof {
        assert(seq_views(mqv_sigs@) =~~= seq![seq![0x6du8, 0x71u8, 0x74u8, 0x20u8]]);
    }
    let mqv = Mime::new(String::from_str("video/quicktime"), String::from_str(".mqv"), Detector::Ftyp(mqv_sigs));
    proof {
        assert(mqv_entry(mqv));
    }
    let mp4_sigs: Vec<Vec<u8>> = vec![vec![0x61, 0x76, 0x63, 0x31], vec![0x64, 0x61, 0x73, 0x68], vec![0x69, 0x73, 0x6f, 0x32], vec![0x69, 0x73, 0x6f, 0x33], vec![0x69, 0x73, 0x6f, 0x34], vec![0x69, 0x73, 0x6f, 0x35], vec![0x69, 0x73, 0x6f, 0x36], vec![0x69, 0x73, 0x6f, 0x6d], vec![0x6d, 0x6d, 0x70, 0x34], vec![0x6d, 0x70, 0x34, 0x31], vec![0x6d, 0x70, 0x34, 0x32], vec![0x6d, 0x70, 0x34, 0x76], vec![0x6d, 0x70, 0x37, 0x31], vec![0x4d, 0x53, 0x4e, 0x56], vec![0x4e, 0x44, 0x41, 0x53], vec![0x4e, 0x44, 0x53, 0x43], vec![0x4e, 0x53, 0x44, 0x43], vec![0x4e, 0x53, 0x44, 0x48], vec![0x4e, 0x44, 0x53, 0x4d], vec![0x4e, 0x44, 0x53, 0x50], vec![0x4e, 0x44, 0x53, 0x53], vec![0x4e, 0x44, 0x58, 0x43], vec![0x4e, 0x44, 0x58, 0x48], vec![0x4e, 0x44, 0x58, 0x4d], vec![0x4e, 0x44, 0x58, 0x50], vec![0x4e, 0x44, 0x58, 0x53], vec![0x46, 0x34, 0x56, 0x20], vec![0x46, 0x34, 0x50, 0x20]];  // "avc1", "dash", "iso2", "iso3", "iso4", "iso5", "iso6", "isom", "mmp4", "mp41", "mp42", "mp4v", "mp71", "MSNV", "NDAS", "NDSC", "NSDC", "NSDH", "NDSM", "NDSP", "NDSS", "NDXC", "NDXH", "NDXM", "NDXP", "NDXS", "F4V ", "F4P "
    proof {
        assert(seq_views(mp4_sigs@) =~~= seq![seq![0x61u8, 0x76u8, 0x63u8, 0x31u8], seq![0x64u8, 0x61u8, 0x73u8, 0x68u8], seq![0x69u8, 0x73u8, 0x6fu8, 0x32u8], seq![0x69u8, 0x73u8, 0x6fu8, 0x33u8], seq![0x69u8, 0x73u8, 0x6fu8, 0x34u8], seq![0x69u8, 0x73u8, 0x6fu8, 0x35u8], seq![0x69u8, 0x73u8, 0x6fu8, 0x36u8], seq![0x69u8, 0x73u8, 0x6fu8, 0x6du8], seq![0x6du8, 0x6du8, 0x70u8, 0x34u8], seq![0x6du8, 0x70u8, 0x34u8, 0x31u8], seq![0x6du8, 0x70u8, 0x34u8, 0x32u8], seq![0x6du8, 0x70u8, 0x34u8, 0x76u8], seq![0x6du8, 0x70u8, 0x37u8, 0x31u8], seq![0x4du8, 0x53u8, 0x4eu8, 0x56u8], seq![0x4eu8, 0x44u8, 0x41u8, 0x53u8], seq![0x4eu8, 0x44u8, 0x53u8, 0x43u8], seq![0x4eu8, 0x53u8, 0x44u8, 0x43u8], seq![0x4eu8, 0x53u8, 0x44u8, 0x48u8], seq![0x4eu8, 0x44u8, 0x53u8, 0x4du8], seq![0x4eu8, 0x44u8, 0x53u8, 0x50u8], seq![0x4eu8, 0x44u8, 0x53u8, 0x53u8], seq![0x4eu8, 0x44u8, 0x58u8, 0x43u8], seq![0x4eu8, 0x44u8, 0x58u8, 0x48u8], seq![0x4eu8, 0x44u8, 0x58u8, 0x4du8], seq![0x4eu8, 0x44u8, 0x58u8, 0x50u8], seq![0x4eu8, 0x44u8, 0x58u8, 0x53u8], seq![0x46u8, 0x34u8, 0x56u8, 0x20u8], seq![0x46u8, 0x34u8, 0x50u8, 0x20u8]]);
    }
    let mp4 = Mime::new(String::from_str("video/mp4"), String::from_str(".mp4"), Detector::Ftyp(mp4_sigs));
    proof {
        assert(mp4_entry(mp4));
    }
    let webm = Mime::new(String::from_str("video/webm"), String::from_str(".webm"), Detector::WebM).aliases(vec!["audio/webm"]);
    proof {
        assert(webm_entry(webm));
    }
    let three_gp_sigs: Vec<Vec<u8>> = vec![vec![0x33, 0x67, 0x70, 0x31], vec![0x33, 0x67, 0x70, 0x32], vec![0x33, 0x67, 0x70, 0x33], vec![0x33, 0x67, 0x70, 0x34], vec![0x33, 0x67, 0x70, 0x35], vec![0x33, 0x67, 0x70, 0x36], vec![0x33, 0x67, 0x70, 0x37], vec![0x33, 0x67, 0x73, 0x37], vec![0x33, 0x67, 0x65, 0x36], vec![0x33, 0x67, 0x65, 0x37], vec![0x33, 0x67, 0x67, 0x36]];  // "3gp1", "3gp2", "3gp3", "3gp4", "3gp5", "3gp6", "3gp7", "3gs7", "3ge6", "3ge7", "3gg6"
    proof {
        assert(seq_views(three_gp_sigs@) =~~= seq![seq![0x33u8, 0x67u8, 0x70u8, 0x31u8], seq![0x33u8, 0x67u8, 0x70u8, 0x32u8], seq![0x33u8, 0x67u8, 0x70u8, 0x33u8], seq![0x33u8, 0x67u8, 0x70u8, 0x34u8], seq![0x33u8, 0x67u8, 0x70u8, 0x35u8], seq![0x33u8, 0x67u8, 0x70u8, 0x36u8], seq![0x33u8, 0x67u8, 0x70u8, 0x37u8], seq![0x33u8, 0x67u8, 0x73u8, 0x37u8], seq![0x33u8, 0x67u8, 0x65u8, 0x36u8], seq![0x33u8, 0x67u8, 0x65u8, 0x37u8], seq![0x33u8, 0x67u8, 0x67u8, 0x36u8]]);
    }
    let three_gp = Mime::new(String::from_str("video/3gpp"), String::from_str(".3gp"), Detector::Ftyp(three_gp_sigs)).aliases(vec!["video/3gp", "audio/3gpp"]);
    proof {
        assert(three_gp_entry(three_gp));
    }
    let three_g2_sigs: Vec<Vec<u8>> = vec![vec![0x33, 0x67, 0x32, 0x34], vec![0x33, 0x67, 0x32, 0x35], vec![0x33, 0x67, 0x32, 0x36], vec![0x33, 0x67, 0x32, 0x61], vec![0x33, 0x67, 0x32, 0x62], vec![0x33, 0x67, 0x32, 0x63], vec![0x4b, 0x44, 0x44, 0x49]];  // "3g24", "3g25", "3g26", "3g2a", "3g2b", "3g2c", "KDDI"
    proof {
        assert(seq_views(three_g2_sigs@) =~~= seq![seq![0x33u8, 0x67u8, 0x32u8, 0x34u8], seq![0x33u8, 0x67u8, 0x32u8, 0x35u8], seq![0x33u8, 0x67u8, 0x32u8, 0x36u8], seq![0x33u8, 0x67u8, 0x32u8, 0x61u8], seq![0x33u8, 0x67u8, 0x32u8, 0x62u8], seq![0x33u8, 0x67u8, 0x32u8, 0x63u8], seq![0x4bu8, 0x44u8, 0x44u8, 0x49u8]]);
    }
    let three_g2 = Mime::new(String::from_str("video/3gpp2"), String::from_str(".3g2"), Detector::Ftyp(three_g2_sigs)).aliases(vec!["video/3g2", "audio/3gpp2"]);
    proof {
        assert(three_g2_entry(three_g2));
    }
    let avi = Mime::new(String::from_str("video/x-msvideo"), String::from_str(".avi"), Detector::Avi).aliases(vec!["video/avi", "video/msvideo"]);
    proof {
        assert(avi_entry(avi));
    }
    let flv_sigs: Vec<Vec<u8>> = vec![vec![0x46, 0x4c, 0x56, 0x01]];
    proof {
        assert(seq_views(flv_sigs@) =~~= seq![seq![0x46u8, 0x4cu8, 0x56u8, 0x01u8]]);
    }
    let flv = Mime::new(String::from_str("video/x-flv"), String::from_str(".flv"), Detector::Prefix(flv_sigs));
    proof {
        assert(flv_entry(flv));
    }
    let mkv = Mime::new(String::from_str("video/x-matroska"), String::from_str(".mkv"), Detector::Mkv);
    proof {
        assert(mkv_entry(mkv));
    }
    let asf_sigs: Vec<Vec<u8>> = vec![vec![0x30, 0x26, 0xb2, 0x75, 0x8e, 0x66, 0xcf, 0x11, 0xa6, 0xd9, 0x00, 0xaa, 0x00, 0x62, 0xce, 0x6c]];
    proof {
        assert(seq_views(asf_sigs@) =~~= seq![seq![0x30u8, 0x26u8, 0xb2u8, 0x75u8, 0x8eu8, 0x66u8, 0xcfu8, 0x11u8, 0xa6u8, 0xd9u8, 0x00u8, 0xaau8, 0x00u8, 0x62u8, 0xceu8, 0x6cu8]]);
    }
    let asf = Mime::new(String::from_str("video/x-ms-asf"), String::from_str(".asf"), Detector::Prefix(asf_sigs)).aliases(vec!["video/asf", "video/x-ms-wmv"]);
    proof {
        assert(asf_entry(asf));
    }
    let aac_sigs: Vec<Vec<u8>> = vec![vec![0xff, 0xf1], vec![0xff, 0xf9]];
    proof {
        assert(seq_views(aac_sigs@) =~~= seq![seq![0xffu8, 0xf1u8], seq![0xffu8, 0xf9u8]]);
    }
    let aac = Mime::new(String::from_str("audio/aac"), String::from_str(".aac"), Detector::Prefix(aac_sigs));
    proof {
        assert(aac_entry(aac));
    }
    let voc_sigs: Vec<Vec<u8>> = vec![vec![0x43, 0x72, 0x65, 0x61, 0x74, 0x69, 0x76, 0x65, 0x20, 0x56, 0x6f, 0x69, 0x63, 0x65, 0x20, 0x46, 0x69, 0x6c, 0x65]];  // "Creative Voice File"
    proof {
        assert(seq_views(voc_sigs@) =~~= seq![seq![0x43u8, 0x72u8, 0x65u8, 0x61u8, 0x74u8, 0x69u8, 0x76u8, 0x65u8, 0x20u8, 0x56u8, 0x6fu8, 0x69u8, 0x63u8, 0x65u8, 0x20u8, 0x46u8, 0x69u8, 0x6cu8, 0x65u8]]);
    }
    let voc = Mime::new(String::from_str("audio/x-unknown"), String::from_str(".voc"), Detector::Prefix(voc_sigs));
    proof {
        assert(voc_entry(voc));
    }
    let amp4_sigs: Vec<Vec<u8>> = vec![vec![0x46, 0x34, 0x41, 0x20], vec![0x46, 0x34, 0x42, 0x20], vec![0x4d, 0x34, 0x42, 0x20], vec![0x4d, 0x34, 0x50, 0x20], vec![0x4d, 0x53, 0x4e, 0x56], vec![0x4e, 0x44, 0x41, 0x53]];  // "F4A ", "F4B ", "M4B ", "M4P ", "MSNV", "NDAS"
    proof {
        assert(seq_views(amp4_sigs@) =~~= seq![seq![0x46u8, 0x34u8, 0x41u8, 0x20u8], seq![0x46u8, 0x34u8, 0x42u8, 0x20u8], seq![0x4du8, 0x34u8, 0x42u8, 0x20u8], seq![0x4du8, 0x34u8, 0x50u8, 0x20u8], seq![0x4du8, 0x53u8, 0x4eu8, 0x56u8], seq![0x4eu8, 0x44u8, 0x41u8, 0x53u8]]);
    }
    let amp4 = Mime::new(String::from_str("audio/mp4"), String::from_str(".mp4"), Detector::Ftyp(amp4_sigs)).aliases(vec!["audio/x-m4a", "audio/x-mp4a"]);
    proof {
        assert(amp4_entry(amp4));
    }
    let mut v: Vec<Mime> = Vec::new();
    v.push(quicktime);
    v.push(mqv);
    v.push(mp4);
    v.push(webm);
    v.push(three_gp);
    v.push(three_g2);
    v.push(avi);
    v.push(flv);
    v.push(mkv);
    v.push(asf);
    v.push(aac);
    v.push(voc);
    v.push(amp4);
    proof {
        assert(v@[0] == quicktime);
        assert(v@[1] == mqv);
        assert(v@[2] == mp4);
        assert(v@[3] == webm);
        assert(v@[4] == three_gp);
        assert(v@[5] == three_g2);
        assert(v@[6] == avi);
        assert(v@[7] == flv);
        assert(v@[8] == mkv);
        assert(v@[9] == asf);
        assert(v@[10] == aac);
        assert(v@[11] == voc);
        assert(v@[12] == amp4);
    }
    v
}

fn tree_part_4() -> (v: Vec<Mime>)
    ensures
        v@.len() == 13,
        m4a_entry(v@[0]),
        m3u_entry(v@[1]),
        m4v_entry(v@[2]),
        rmvb_entry(v@[3]),
        gzip_entry(v@[4]),
        class_entry(v@[5]),
        swf_entry(v@[6]),
        crx_entry(v@[7]),
        ttf_entry(v@[8]),
        woff_entry(v@[9]),
        woff2_entry(v@[10]),
        otf_entry(v@[11]),
        ttc_entry(v@[12]),
{
    let m4a_sigs: Vec<Vec<u8>> = vec![vec![0x4d, 0x34, 0x41, 0x20]];  // "M4A "
    proof {
        assert(seq_views(m4a_sigs@) =~~= seq![seq![0x4du8, 0x34u8, 0x41u8, 0x20u8]]);
    }
    let m4a = Mime::new(String::from_str("audio/x-m4a"), String::from_str(".m4a"), Detector::Ftyp(m4a_sigs));
    proof {
        assert(m4a_entry(m4a));
    }
    let m3u_sigs: Vec<Vec<u8>> = vec![vec![0x23, 0x45, 0x58, 0x54, 0x4d, 0x33, 0x55]];  // "#EXTM3U"
    proof {
        assert(seq_views(m3u_sigs@) =~~= seq![seq![0x23u8, 0x45u8, 0x58u8, 0x54u8, 0x4du8, 0x33u8, 0x55u8]]);
    }
    let m3u = Mime::new(String::from_str("application/vnd.apple.mpegurl"), String::from_str(".m3u"), Detector::Prefix(m3u_sigs)).aliases(vec!["audio/mpegurl"]);
    proof {
        assert(m3u_entry(m3u));
    }
    let m4v_sigs: Vec<Vec<u8>> = vec![vec![0x4d, 0x34, 0x56, 0x20], vec![0x4d, 0x34, 0x56, 0x48], vec![0x4d, 0x34, 0x56, 0x50]];  // "M4V ", "M4VH", "M4VP"
    proof {
        assert(seq_views(m4v_sigs@) =~~= seq![seq![0x4du8, 0x34u8, 0x56u8, 0x20u8], seq![0x4du8, 0x34u8, 0x56u8, 0x48u8], seq![0x4du8, 0x34u8, 0x56u8, 0x50u8]]);
    }
    let m4v = Mime::new(String::from_str("video/x-m4v"), String::from_str(".m4v"), Detector::Ftyp(m4v_sigs));
    proof {
        assert(m4v_entry(m4v));
    }
    let rmvb_sigs: Vec<Vec<u8>> = vec![vec![0x2e, 0x52, 0x4d, 0x46]];  // ".RMF"
    proof {
        assert(seq_views(rmvb_sigs@) =~~= seq![seq![0x2eu8, 0x52u8, 0x4du8, 0x46u8]]);
    }
    let rmvb = Mime::new(String::from_str("application/vnd.rn-realmedia-vbr"), String::from_str(".rmvb"), Detector::Prefix(rmvb_sigs));
    proof {
        assert(rmvb_entry(rmvb));
    }
    let gzip_sigs: Vec<Vec<u8>> = vec![vec![0x1f, 0x8b]];
    proof {
        assert(seq_views(gzip_sigs@) =~~= seq![seq![0x1fu8, 0x8bu8]]);
    }
    let gzip = Mime::new(String::from_str("application/gzip"), String::from_str(".gz"), Detector::Prefix(gzip_sigs)).aliases(vec!["application/x-gzip", "application/x-gunzip", "application/gzipped", "application/gzip-compressed", "application/x-gzip-compressed", "gzip/document"]);
    proof {
        assert(gzip_entry(gzip));
    }
    let class = Mime::new(String::from_str("application/x-java-applet"), String::from_str(".class"), Detector::Class);
    proof {
        assert(class_entry(class));
    }
    let swf_sigs: Vec<Vec<u8>> = vec![vec![0x43, 0x57, 0x53], vec![0x46, 0x57, 0x53], vec![0x5a, 0x57, 0x53]];  // "CWS", "FWS", "ZWS"
    proof {
        assert(seq_views(swf_sigs@) =~~= seq![seq![0x43u8, 0x57u8, 0x53u8], seq![0x46u8, 0x57u8, 0x53u8], seq![0x5au8, 0x57u8, 0x53u8]]);
    }
    let swf = Mime::new(String::from_str("application/x-shockwave-flash"), String::from_str(".swf"), Detector::Prefix(swf_sigs));
    proof {
        assert(swf_entry(swf));
    }
    let crx = Mime::new(String::from_str("application/x-chrome-extension"), String::from_str(".crx"), Detector::Crx);
    proof {
        assert(crx_entry(crx));
    }
    let ttf = Mime::new(String::from_str("font/ttf"), String::from_str(".ttf"), Detector::Ttf).aliases(vec!["font/sfnt", "application/x-font-ttf", "application/font-sfnt"]);
    proof {
        assert(ttf_entry(ttf));
    }
    let woff_sigs: Vec<Vec<u8>> = vec![vec![0x77, 0x4f, 0x46, 0x46]];  // "wOFF"
    proof {
        assert(seq_views(woff_sigs@) =~~= seq![seq![0x77u8, 0x4fu8, 0x46u8, 0x46u8]]);
    }
    let woff = Mime::new(String::from_str("font/woff"), String::from_str(".woff"), Detector::Prefix(woff_sigs));
    proof {
        assert(woff_entry(woff));
    }
    let woff2_sigs: Vec<Vec<u8>> = vec![vec![0x77, 0x4f, 0x46, 0x32]];  // "wOF2"
    proof {
        assert(seq_views(woff2_sigs@) =~~= seq![seq![0x77u8, 0x4fu8, 0x46u8, 0x32u8]]);
    }
    let woff2 = Mime::new(String::from_str("font/woff2"), String::from_str(".woff2"), Detector::Prefix(woff2_sigs));
    proof {
        assert(woff2_entry(woff2));
    }
    let otf_sigs: Vec<Vec<u8>> = vec![vec![0x4f, 0x54, 0x54, 0x4f, 0x00]];
    proof {
        assert(seq_views(otf_sigs@) =~~= seq![seq![0x4fu8, 0x54u8, 0x54u8, 0x4fu8, 0x00u8]]);
    }
    let otf = Mime::new(String::from_str("font/otf"), String::from_str(".otf"), Detector::Prefix(otf_sigs));
    proof {
        assert(otf_entry(otf));
    }
    let ttc = Mime::new(String::from_str("font/collection"), String::from_str(".ttc"), Detector::Ttc);
    proof {
        assert(ttc_entry(ttc));
    }
    let mut v: Vec<Mime> = Vec::new();
    v.push(m4a);
    v.push(m3u);
    v.push(m4v);
    v.push(rmvb);
    v.push(gzip);
    v.push(class);
    v.push(swf);
    v.push(crx);
    v.push(ttf);
    v.push(woff);
    v.push(woff2);
    v.push(otf);
    v.push(ttc);
    proof {
        assert(v@[0] == m4a);
        assert(v@[1] == m3u);
        assert(v@[2] == m4v);
        assert(v@[3] == rmvb);
        assert(v@[4] == gzip);
        assert(v@[5] == class);
        assert(v@[6] == swf);
        assert(v@[7] == crx);
        assert(v@[8] == ttf);
        assert(v@[9] == woff);
        assert(v@[10] == woff2);
        assert(v@[11] == otf);
        assert(v@[12] == ttc);
    }
    v
}

fn tree_part_5() -> (v: Vec<Mime>)
    ensures
        v@.len() == 13,
        eot_entry(v@[0]),
        wasm_entry(v@[1]),
        shx_entry(v@[2]),
        dbf_entry(v@[3]),
        dcm_entry(v@[4]),
        rar_entry(v@[5]),
        djvu_entry(v@[6]),
        mobi_entry(v@[7]),
        lit_entry(v@[8]),
        bpg_entry(v@[9]),
        sqlite3_entry(v@[10]),
        dwg_entry(v@[11]),
        nes_entry(v@[12]),
{
    let eot = Mime::new(String::from_str("application/vnd.ms-fontobject"), String::from_str(".eot"), Detector::Eot);
    proof {
        assert(eot_entry(eot));
    }
    let wasm_sigs: Vec<Vec<u8>> = vec![vec![0x00, 0x61, 0x73, 0x6d]];
    proof {
        assert(seq_views(wasm_sigs@) =~~= seq![seq![0x00u8, 0x61u8, 0x73u8, 0x6du8]]);
    }
    let wasm = Mime::new(String::from_str("application/wasm"), String::from_str(".wasm"), Detector::Prefix(wasm_sigs));
    proof {
        assert(wasm_entry(wasm));
    }
    let shp = Mime::new(String::from_str("application/vnd.shp"), String::from_str(".shp"), Detector::Shp);
    proof {
        assert(shp_entry(shp));
    }
    let shx_sigs: Vec<Vec<u8>> = vec![vec![0x00, 0x00, 0x27, 0x0a]];
    proof {
        assert(seq_views(shx_sigs@) =~~= seq![seq![0x00u8, 0x00u8, 0x27u8, 0x0au8]]);
    }
    let shx = Mime::new(String::from_str("application/vnd.shx"), String::from_str(".shx"), Detector::Prefix(shx_sigs)).children(vec![shp]);
    proof {
        assert(shx_entry(shx));
    }
    let dbf = Mime::new(String::from_str("application/x-dbf"), String::from_str(".dbf"), Detector::Dbf);
    proof {
        assert(dbf_entry(dbf));
    }
    let dcm = Mime::new(String::from_str("application/dicom"), String::from_str(".dcm"), Detector::Dcm);
    proof {
        assert(dcm_entry(dcm));
    }
    let rar_sigs: Vec<Vec<u8>> = vec![vec![0x52, 0x61, 0x72, 0x21, 0x1a, 0x07, 0x00], vec![0x52, 0x61, 0x72, 0x21, 0x1a, 0x07, 0x01, 0x00]];
    proof {
        assert(seq_views(rar_sigs@) =~~= seq![seq![0x52u8, 0x61u8, 0x72u8, 0x21u8, 0x1au8, 0x07u8, 0x00u8], seq![0x52u8, 0x61u8, 0x72u8, 0x21u8, 0x1au8, 0x07u8, 0x01u8, 0x00u8]]);
    }
    let rar = Mime::new(String::from_str("application/x-rar-compressed"), String::from_str(".rar"), Detector::Prefix(rar_sigs)).aliases(vec!["application/x-rar"]);
    proof {
        assert(rar_entry(rar));
    }
    let djvu = Mime::new(String::from_str("image/vnd.djvu"), String::from_str(".djvu"), Detector::DjVu);
    proof {
        assert(djvu_entry(djvu));
    }
    let mobi_sig: Vec<u8> = vec![0x42, 0x4f, 0x4f, 0x4b, 0x4d, 0x4f, 0x42, 0x49];  // "BOOKMOBI"
    proof {
        assert(mobi_sig@ =~= seq![0x42u8, 0x4fu8, 0x4fu8, 0x4bu8, 0x4du8, 0x4fu8, 0x42u8, 0x49u8]);
    }
    let mobi = Mime::new(String::from_str("application/x-mobipocket-ebook"), String::from_str(".mobi"), Detector::Offset(60, mobi_sig));
    proof {
        assert(mobi_entry(mobi));
    }
    let lit_sigs: Vec<Vec<u8>> = vec![vec![0x49, 0x54, 0x4f, 0x4c, 0x49, 0x54, 0x4c, 0x53]];  // "ITOLITLS"
    proof {
        assert(seq_views(lit_sigs@) =~~= seq![seq![0x49u8, 0x54u8, 0x4fu8, 0x4cu8, 0x49u8, 0x54u8, 0x4cu8, 0x53u8]]);
    }
    let lit = Mime::new(String::from_str("application/x-ms-reader"), String::from_str(".lit"), Detector::Prefix(lit_sigs));
    proof {
        assert(lit_entry(lit));
    }
    let bpg_sigs: Vec<Vec<u8>> = vec![vec![0x42, 0x50, 0x47, 0xfb]];
    proof {
        assert(seq_views(bpg_sigs@) =~~= seq![seq![0x42u8, 0x50u8, 0x47u8, 0xfbu8]]);
    }
    let bpg = Mime::new(String::from_str("image/bpg"), String::from_str(".bpg"), Detector::Prefix(bpg_sigs));
    proof {
        assert(bpg_entry(bpg));
    }
    let sqlite3_sigs: Vec<Vec<u8>> = vec![vec![0x53, 0x51, 0x4c, 0x69, 0x74, 0x65, 0x20, 0x66, 0x6f, 0x72, 0x6d, 0x61, 0x74, 0x20, 0x33, 0x00]];
    proof {
        assert(seq_views(sqlite3_sigs@) =~~= seq![seq![0x53u8, 0x51u8, 0x4cu8, 0x69u8, 0x74u8, 0x65u8, 0x20u8, 0x66u8, 0x6fu8, 0x72u8, 0x6du8, 0x61u8, 0x74u8, 0x20u8, 0x33u8, 0x00u8]]);
    }
    let sqlite3 = Mime::new(String::from_str("application/vnd.sqlite3"), String::from_str(".sqlite"), Detector::Prefix(sqlite3_sigs)).aliases(vec!["application/x-sqlite3"]);
    proof {
        assert(sqlite3_entry(sqlite3));
    }
    let dwg = Mime::new(String::from_str("image/vnd.dwg"), String::from_str(".dwg"), Detector::Dwg).aliases(vec!["image/x-dwg", "application/acad", "application/x-acad", "application/autocad_dwg", "application/dwg", "application/x-dwg", "application/x-autocad", "drawing/dwg"]);
    proof {
        assert(dwg_entry(dwg));
    }
    let nes_sigs: Vec<Vec<u8>> = vec![vec![0x4e, 0x45, 0x53, 0x1a]];
    proof {
        assert(seq_views(nes_sigs@) =~~= seq![seq![0x4eu8, 0x45u8, 0x53u8, 0x1au8]]);
    }
    let nes = Mime::new(String::from_str("application/vnd.nintendo.snes.rom"), String::from_str(".nes"), Detector::Prefix(nes_sigs));
    proof {
        assert(nes_entry(nes));
    }
    let mut v: Vec<Mime> = Vec::new();
    v.push(eot);
    v.push(wasm);
    v.push(shx);
    v.push(dbf);
    v.push(dcm);
    v.push(rar);
    v.push(djvu);
    v.push(mobi);
    v.push(lit);
    v.push(bpg);
    v.push(sqlite3);
    v.push(dwg);
    v.push(nes);
    proof {
        assert(v@[0] == eot);
        assert(v@[1] == wasm);
        assert(v@[2] == shx);
        assert(v@[3] == dbf);
        assert(v@[4] == dcm);
        assert(v@[5] == rar);
        assert(v@[6] == djvu);
        assert(v@[7] == mobi);
        assert(v@[8] == lit);
        assert(v@[9] == bpg);
        assert(v@[10] == sqlite3);
        assert(v@[11] == dwg);
        assert(v@[12] == nes);
    }
    v
}

fn tree_part_6() -> (v: Vec<Mime>)
    ensures
        v@.len() == 13,
        lnk_entry(v@[0]),
        macho_entry(v@[1]),
        qcp_entry(v@[2]),
        icns_entry(v@[3]),
        heic_entry(v@[4]),
        heic_sequence_entry(v@[5]),
        heif_entry(v@[6]),
        heif_sequence_entry(v@[7]),
        hdr_entry(v@[8]),
        marc_entry(v@[9]),
        ms_access_mdb_entry(v@[10]),
        ms_access_ace_entry(v@[11]),
        zstd_entry(v@[12]),
{
    let lnk_sigs: Vec<Vec<u8>> = vec![vec![0x4c, 0x00, 0x00, 0x00, 0x01, 0x14, 0x02, 0x00]];
    proof {
        assert(seq_views(lnk_sigs@) =~~= seq![seq![0x4cu8, 0x00u8, 0x00u8, 0x00u8, 0x01u8, 0x14u8, 0x02u8, 0x00u8]]);
    }
    let lnk = Mime::new(String::from_str("application/x-ms-shortcut"), String::from_str(".lnk"), Detector::Prefix(lnk_sigs));
    proof {
        assert(lnk_entry(lnk));
    }
    let macho = Mime::new(String::from_str("application/x-mach-binary"), String::from_str(".macho"), Detector::MachO);
    proof {
        assert(macho_entry(macho));
    }
    let qcp = Mime::new(String::from_str("audio/qcelp"), String::from_str(".qcp"), Detector::Qcp);
    proof {
        assert(qcp_entry(qcp));
    }
    let icns_sigs: Vec<Vec<u8>> = vec![vec![0x69, 0x63, 0x6e, 0x73]];  // "icns"
    proof {
        assert(seq_views(icns_sigs@) =~~= seq![seq![0x69u8, 0x63u8, 0x6eu8, 0x73u8]]);
    }
    let icns = Mime::new(String::from_str("image/x-icns"), String::from_str(".icns"), Detector::Prefix(icns_sigs));
    proof {
        assert(icns_entry(icns));
    }
    let heic_sigs: Vec<Vec<u8>> = vec![vec![0x68, 0x65, 0x69, 0x63], vec![0x68, 0x65, 0x69, 0x78]];  // "heic", "heix"
    proof {
        assert(seq_views(heic_sigs@) =~~= seq![seq![0x68u8, 0x65u8, 0x69u8, 0x63u8], seq![0x68u8, 0x65u8, 0x69u8, 0x78u8]]);
    }
    let heic = Mime::new(String::from_str("image/heic"), String::from_str(".heic"), Detector::Ftyp(heic_sigs));
    proof {
        assert(heic_entry(heic));
    }
    let heic_sequence_sigs: Vec<Vec<u8>> = vec![vec![0x68, 0x65, 0x76, 0x63], vec![0x68, 0x65, 0x76, 0x78]];  // "hevc", "hevx"
    proof {
        assert(seq_views(heic_sequence_sigs@) =~~= seq![seq![0x68u8, 0x65u8, 0x76u8, 0x63u8], seq![0x68u8, 0x65u8, 0x76u8, 0x78u8]]);
    }
    let heic_sequence = Mime::new(String::from_str("image/heic-sequence"), String::from_str(".heic"), Detector::Ftyp(heic_sequence_sigs));
    proof {
        assert(heic_sequence_entry(heic_sequence));
    }
    let heif_sigs: Vec<Vec<u8>> = vec![vec![0x6d, 0x69, 0x66, 0x31], vec![0x68, 0x65, 0x69, 0x6d], vec![0x68, 0x65, 0x69, 0x73], vec![0x61, 0x76, 0x69, 0x63]];  // "mif1", "heim", "heis", "avic"
    proof {
        assert(seq_views(heif_sigs@) =~~= seq![seq![0x6du8, 0x69u8, 0x66u8, 0x31u8], seq![0x68u8, 0x65u8, 0x69u8, 0x6du8], seq![0x68u8, 0x65u8, 0x69u8, 0x73u8], seq![0x61u8, 0x76u8, 0x69u8, 0x63u8]]);
    }
    let heif = Mime::new(String::from_str("image/heif"), String::from_str(".heif"), Detector::Ftyp(heif_sigs));
    proof {
        assert(heif_entry(heif));
    }
    let heif_sequence_sigs: Vec<Vec<u8>> = vec![vec![0x6d, 0x73, 0x66, 0x31], vec![0x68, 0x65, 0x76, 0x6d], vec![0x68, 0x65, 0x76, 0x73], vec![0x61, 0x76, 0x63, 0x73]];  // "msf1", "hevm", "hevs", "avcs"
    proof {
        assert(seq_views(heif_sequence_sigs@) =~~= seq![seq![0x6du8, 0x73u8, 0x66u8, 0x31u8], seq![0x68u8, 0x65u8, 0x76u8, 0x6du8], seq![0x68u8, 0x65u8, 0x76u8, 0x73u8], seq![0x61u8, 0x76u8, 0x63u8, 0x73u8]]);
    }
    let heif_sequence = Mime::new(String::from_str("image/heif-sequence"), String::from_str(".heif"), Detector::Ftyp(heif_sequence_sigs));
    proof {
        assert(heif_sequence_entry(heif_sequence));
    }
    let hdr_sigs: Vec<Vec<u8>> = vec![vec![0x23, 0x3f, 0x52, 0x41, 0x44, 0x49, 0x41, 0x4e, 0x43, 0x45, 0x0a]];
    proof {
        assert(seq_views(hdr_sigs@) =~~= seq![seq![0x23u8, 0x3fu8, 0x52u8, 0x41u8, 0x44u8, 0x49u8, 0x41u8, 0x4eu8, 0x43u8, 0x45u8, 0x0au8]]);
    }
    let hdr = Mime::new(String::from_str("image/vnd.radiance"), String::from_str(".hdr"), Detector::Prefix(hdr_sigs));
    proof {
        assert(hdr_entry(hdr));
    }
    let marc = Mime::new(String::from_str("application/marc"), String::from_str(".mrc"), Detector::Marc);
    proof {
        assert(marc_entry(marc));
    }
    let ms_access_mdb_sig: Vec<u8> = vec![0x53, 0x74, 0x61, 0x6e, 0x64, 0x61, 0x72, 0x64, 0x20, 0x4a, 0x65, 0x74, 0x20, 0x44, 0x42];  // "Standard Jet DB"
    proof {
        assert(ms_access_mdb_sig@ =~= seq![0x53u8, 0x74u8, 0x61u8, 0x6eu8, 0x64u8, 0x61u8, 0x72u8, 0x64u8, 0x20u8, 0x4au8, 0x65u8, 0x74u8, 0x20u8, 0x44u8, 0x42u8]);
    }
    let ms_access_mdb = Mime::new(String::from_str("application/x-msaccess"), String::from_str(".mdb"), Detector::Offset(4, ms_access_mdb_sig));
    proof {
        assert(ms_access_mdb_entry(ms_access_mdb));
    }
    let ms_access_ace_sig: Vec<u8> = vec![0x53, 0x74, 0x61, 0x6e, 0x64, 0x61, 0x72, 0x64, 0x20, 0x41, 0x43, 0x45, 0x20, 0x44, 0x42];  // "Standard ACE DB"
    proof {
        assert(ms_access_ace_sig@ =~= seq![0x53u8, 0x74u8, 0x61u8, 0x6eu8, 0x64u8, 0x61u8, 0x72u8, 0x64u8, 0x20u8, 0x41u8, 0x43u8, 0x45u8, 0x20u8, 0x44u8, 0x42u8]);
    }
    let ms_access_ace = Mime::new(String::from_str("application/x-msaccess"), String::from_str(".accdb"), Detector::Offset(4, ms_access_ace_sig));
    proof {
        assert(ms_access_ace_entry(ms_access_ace));
    }
    let zstd = Mime::new(String::from_str("application/zstd"), String::from_str(".zst"), Detector::Zstd);
    proof {
        assert(zstd_entry(zstd));
    }
    let mut v: Vec<Mime> = Vec::new();
    v.push(lnk);
    v.push(macho);
    v.push(qcp);
    v.push(icns);
    v.push(heic);
    v.push(heic_sequence);
    v.push(heif);
    v.push(heif_sequence);
    v.push(hdr);
    v.push(marc);
    v.push(ms_access_mdb);
    v.push(ms_access_ace);
    v.push(zstd);
    proof {
        assert(v@[0] == lnk);
        assert(v@[1] == macho);
        assert(v@[2] == qcp);
        assert(v@[3] == icns);
        assert(v@[4] == heic);
        assert(v@[5] == heic_sequence);
        assert(v@[6] == heif);
        assert(v@[7] == heif_sequence);
        assert(v@[8] == hdr);
        assert(v@[9] == marc);
        assert(v@[10] == ms_access_mdb);
        assert(v@[11] == ms_access_ace);
        assert(v@[12] == zstd);
    }
    v
}

fn tree_part_7() -> (v: Vec<Mime>)
    ensures
        v@.len() == 13,
        cab_entry(v@[0]),
        rpm_entry(v@[1]),
        xz_entry(v@[2]),
        lzip_entry(v@[3]),
        torrent_entry(v@[4]),
        cpio_entry(v@[5]),
        tzif_entry(v@[6]),
        xcf_entry(v@[7]),
        pat_entry(v@[8]),
        gbr_entry(v@[9]),
        glb_entry(v@[10]),
        avif_entry(v@[11]),
        installshield_cab_entry(v@[12]),
{
    let cab_sigs: Vec<Vec<u8>> = vec![vec![0x4d, 0x53, 0x43, 0x46, 0x00, 0x00, 0x00, 0x00]];
    proof {
        assert(seq_views(cab_sigs@) =~~= seq![seq![0x4du8, 0x53u8, 0x43u8, 0x46u8, 0x00u8, 0x00u8, 0x00u8, 0x00u8]]);
    }
    let cab = Mime::new(String::from_str("application/vnd.ms-cab-compressed"), String::from_str(".cab"), Detector::Prefix(cab_sigs));
    proof {
        assert(cab_entry(cab));
    }
    let rpm_sigs: Vec<Vec<u8>> = vec![vec![0xed, 0xab, 0xee, 0xdb], vec![0x64, 0x72, 0x70, 0x6d]];  // "drpm"
    proof {
        assert(seq_views(rpm_sigs@) =~~= seq![seq![0xedu8, 0xabu8, 0xeeu8, 0xdbu8], seq![0x64u8, 0x72u8, 0x70u8, 0x6du8]]);
    }
    let rpm = Mime::new(String::from_str("application/x-rpm"), String::from_str(".rpm"), Detector::Prefix(rpm_sigs));
    proof {
        assert(rpm_entry(rpm));
    }
    let xz_sigs: Vec<Vec<u8>> = vec![vec![0xfd, 0x37, 0x7a, 0x58, 0x5a, 0x00]];
    proof {
        assert(seq_views(xz_sigs@) =~~= seq![seq![0xfdu8, 0x37u8, 0x7au8, 0x58u8, 0x5au8, 0x00u8]]);
    }
    let xz = Mime::new(String::from_str("application/x-xz"), String::from_str(".xz"), Detector::Prefix(xz_sigs));
    proof {
        assert(xz_entry(xz));
    }
    let lzip_sigs: Vec<Vec<u8>> = vec![vec![0x4c, 0x5a, 0x49, 0x50]];  // "LZIP"
    proof {
        assert(seq_views(lzip_sigs@) =~~= seq![seq![0x4cu8, 0x5au8, 0x49u8, 0x50u8]]);
    }
    let lzip = Mime::new(String::from_str("application/lzip"), String::from_str(".lz"), Detector::Prefix(lzip_sigs)).aliases(vec!["application/x-lzip"]);
    proof {
        assert(lzip_entry(lzip));
    }
    let torrent_sigs: Vec<Vec<u8>> = vec![vec![0x64, 0x38, 0x3a, 0x61, 0x6e, 0x6e, 0x6f, 0x75, 0x6e, 0x63, 0x65]];  // "d8:announce"
    proof {
        assert(seq_views(torrent_sigs@) =~~= seq![seq![0x64u8, 0x38u8, 0x3au8, 0x61u8, 0x6eu8, 0x6eu8, 0x6fu8, 0x75u8, 0x6eu8, 0x63u8, 0x65u8]]);
    }
    let torrent = Mime::new(String::from_str("application/x-bittorrent"), String::from_str(".torrent"), Detector::Prefix(torrent_sigs));
    proof {
        assert(torrent_entry(torrent));
    }
    let cpio_sigs: Vec<Vec<u8>> = vec![vec![0x30, 0x37, 0x30, 0x37, 0x30, 0x37], vec![0x30, 0x37, 0x30, 0x37, 0x30, 0x31], vec![0x30, 0x37, 0x30, 0x37, 0x30, 0x32]];  // "070707", "070701", "070702"
    proof {
        assert(seq_views(cpio_sigs@) =~~= seq![seq![0x30u8, 0x37u8, 0x30u8, 0x37u8, 0x30u8, 0x37u8], seq![0x30u8, 0x37u8, 0x30u8, 0x37u8, 0x30u8, 0x31u8], seq![0x30u8, 0x37u8, 0x30u8, 0x37u8, 0x30u8, 0x32u8]]);
    }
    let cpio = Mime::new(String::from_str("application/x-cpio"), String::from_str(".cpio"), Detector::Prefix(cpio_sigs));
    proof {
        assert(cpio_entry(cpio));
    }
    let tzif = Mime::new(String::from_str("application/tzif"), String::from_str(""), Detector::TzIf);
    proof {
        assert(tzif_entry(tzif));
    }
    let xcf_sigs: Vec<Vec<u8>> = vec![vec![0x67, 0x69, 0x6d, 0x70, 0x20, 0x78, 0x63, 0x66]];  // "gimp xcf"
    proof {
        assert(seq_views(xcf_sigs@) =~~= seq![seq![0x67u8, 0x69u8, 0x6du8, 0x70u8, 0x20u8, 0x78u8, 0x63u8, 0x66u8]]);
    }
    let xcf = Mime::new(String::from_str("image/x-xcf"), String::from_str(".xcf"), Detector::Prefix(xcf_sigs));
    proof {
        assert(xcf_entry(xcf));
    }
    let pat_sig: Vec<u8> = vec![0x47, 0x50, 0x41, 0x54];  // "GPAT"
    proof {
        assert(pat_sig@ =~= seq![0x47u8, 0x50u8, 0x41u8, 0x54u8]);
    }
    let pat = Mime::new(String::from_str("image/x-gimp-pat"), String::from_str(".pat"), Detector::Offset(20, pat_sig));
    proof {
        assert(pat_entry(pat));
    }
    let gbr_sig: Vec<u8> = vec![0x47, 0x49, 0x4d, 0x50];  // "GIMP"
    proof {
        assert(gbr_sig@ =~= seq![0x47u8, 0x49u8, 0x4du8, 0x50u8]);
    }
    let gbr = Mime::new(String::from_str("image/x-gimp-gbr"), String::from_str(".gbr"), Detector::Offset(20, gbr_sig));
    proof {
        assert(gbr_entry(gbr));
    }
    let glb_sigs: Vec<Vec<u8>> = vec![vec![0x67, 0x6c, 0x54, 0x46, 0x02, 0x00, 0x00, 0x00], vec![0x67, 0x6c, 0x54, 0x46, 0x01, 0x00, 0x00, 0x00]];
    proof {
        assert(seq_views(glb_sigs@) =~~= seq![seq![0x67u8, 0x6cu8, 0x54u8, 0x46u8, 0x02u8, 0x00u8, 0x00u8, 0x00u8], seq![0x67u8, 0x6cu8, 0x54u8, 0x46u8, 0x01u8, 0x00u8, 0x00u8, 0x00u8]]);
    }
    let glb = Mime::new(String::from_str("model/gltf-binary"), String::from_str(".glb"), Detector::Prefix(glb_sigs));
    proof {
        assert(glb_entry(glb));
    }
    let avif_sigs: Vec<Vec<u8>> = vec![vec![0x61, 0x76, 0x69, 0x66], vec![0x61, 0x76, 0x69, 0x73]];  // "avif", "avis"
    proof {
        assert(seq_views(avif_sigs@) =~~= seq![seq![0x61u8, 0x76u8, 0x69u8, 0x66u8], seq![0x61u8, 0x76u8, 0x69u8, 0x73u8]]);
    }
    let avif = Mime::new(String::from_str("image/avif"), String::from_str(".avif"), Detector::Ftyp(avif_sigs));
    proof {
        assert(avif_entry(avif));
    }
    let installshield_cab = Mime::new(String::from_str("application/x-installshield"), String::from_str(".cab"), Detector::InstallShieldCab);
    proof {
        assert(installshield_cab_entry(installshield_cab));
    }
    let mut v: Vec<Mime> = Vec::new();
    v.push(cab);
    v.push(rpm);
    v.push(xz);
    v.push(lzip);
    v.push(torrent);
    v.push(cpio);
    v.push(tzif);
    v.push(xcf);
    v.push(pat);
    v.push(gbr);
    v.push(glb);
    v.push(avif);
    v.push(installshield_cab);
    proof {
        assert(v@[0] == cab);
        assert(v@[1] == rpm);
        assert(v@[2] == xz);
        assert(v@[3] == lzip);
        assert(v@[4] == torrent);
        assert(v@[5] == cpio);
        assert(v@[6] == tzif);
        assert(v@[7] == xcf);
        assert(v@[8] == pat);
        assert(v@[9] == gbr);
        assert(v@[10] == glb);
        assert(v@[11] == avif);
        assert(v@[12] == installshield_cab);
    }
    v
}

fn tree_part_8() -> (v: Vec<Mime>)
    ensures
        v@.len() == 2,
        jxr_entry(v@[0]),
        text_entry(v@[1]),
{
    let jxr_sigs: Vec<Vec<u8>> = vec![vec![0x49, 0x49, 0xbc, 0x01]];
    proof {
        assert(seq_views(jxr_sigs@) =~~= seq![seq![0x49u8, 0x49u8, 0xbcu8, 0x01u8]]);
    }
    let jxr = Mime::new(String::from_str("image/jxr"), String::from_str(".jxr"), Detector::Prefix(jxr_sigs)).aliases(vec!["image/vnd.ms-photo"]);
    proof {
        assert(jxr_entry(jxr));
    }
    let html_sigs: Vec<Vec<u8>> = vec![vec![0x3c, 0x21, 0x44, 0x4f, 0x43, 0x54, 0x59, 0x50, 0x45, 0x20, 0x48, 0x54, 0x4d, 0x4c], vec![0x3c, 0x48, 0x54, 0x4d, 0x4c], vec![0x3c, 0x48, 0x45, 0x41, 0x44], vec![0x3c, 0x53, 0x43, 0x52, 0x49, 0x50, 0x54], vec![0x3c, 0x49, 0x46, 0x52, 0x41, 0x4d, 0x45], vec![0x3c, 0x48, 0x31], vec![0x3c, 0x44, 0x49, 0x56], vec![0x3c, 0x46, 0x4f, 0x4e, 0x54], vec![0x3c, 0x54, 0x41, 0x42, 0x4c, 0x45], vec![0x3c, 0x41], vec![0x3c, 0x53, 0x54, 0x59, 0x4c, 0x45], vec![0x3c, 0x54, 0x49, 0x54, 0x4c, 0x45], vec![0x3c, 0x42], vec![0x3c, 0x42, 0x4f, 0x44, 0x59], vec![0x3c, 0x42, 0x52], vec![0x3c, 0x50]];  // "<!DOCTYPE HTML", "<HTML", "<HEAD", "<SCRIPT", "<IFRAME", "<H1", "<DIV", "<FONT", "<TABLE", "<STYLE", "<TITLE", "<BODY", "<BR"
    proof {
        assert(seq_views(html_sigs@) =~~= seq![seq![0x3cu8, 0x21u8, 0x44u8, 0x4fu8, 0x43u8, 0x54u8, 0x59u8, 0x50u8, 0x45u8, 0x20u8, 0x48u8, 0x54u8, 0x4du8, 0x4cu8], seq![0x3cu8, 0x48u8, 0x54u8, 0x4du8, 0x4cu8], seq![0x3cu8, 0x48u8, 0x45u8, 0x41u8, 0x44u8], seq![0x3cu8, 0x53u8, 0x43u8, 0x52u8, 0x49u8, 0x50u8, 0x54u8], seq![0x3cu8, 0x49u8, 0x46u8, 0x52u8, 0x41u8, 0x4du8, 0x45u8], seq![0x3cu8, 0x48u8, 0x31u8], seq![0x3cu8, 0x44u8, 0x49u8, 0x56u8], seq![0x3cu8, 0x46u8, 0x4fu8, 0x4eu8, 0x54u8], seq![0x3cu8, 0x54u8, 0x41u8, 0x42u8, 0x4cu8, 0x45u8], seq![0x3cu8, 0x41u8], seq![0x3cu8, 0x53u8, 0x54u8, 0x59u8, 0x4cu8, 0x45u8], seq![0x3cu8, 0x54u8, 0x49u8, 0x54u8, 0x4cu8, 0x45u8], seq![0x3cu8, 0x42u8], seq![0x3cu8, 0x42u8, 0x4fu8, 0x44u8, 0x59u8], seq![0x3cu8, 0x42u8, 0x52u8], seq![0x3cu8, 0x50u8]]);
    }
    let html = Mime::new(String::from_str("text/html"), String::from_str(".html"), Detector::MarkUp(html_sigs));
    proof {
        assert(html_entry(html));
    }
    let svg = Mime::new(String::from_str("image/svg+xml"), String::from_str(".svg"), Detector::Svg);
    proof {
        assert(svg_entry(svg));
    }
    let xml_sigs: Vec<Vec<u8>> = vec![vec![0x3c, 0x3f, 0x58, 0x4d, 0x4c]];  // "<?XML"
    proof {
        assert(seq_views(xml_sigs@) =~~= seq![seq![0x3cu8, 0x3fu8, 0x58u8, 0x4du8, 0x4cu8]]);
    }
    let xml = Mime::new(String::from_str("text/xml"), String::from_str(".xml"), Detector::MarkUp(xml_sigs));
    proof {
        assert(xml_entry(xml));
    }
    let php = Mime::new(String::from_str("text/x-php"), String::from_str(".php"), Detector::Php);
    proof {
        assert(php_entry(php));
    }
    let js_sigs: Vec<Vec<u8>> = vec![vec![0x2f, 0x62, 0x69, 0x6e, 0x2f, 0x6e, 0x6f, 0x64, 0x65], vec![0x2f, 0x75, 0x73, 0x72, 0x2f, 0x62, 0x69, 0x6e, 0x2f, 0x6e, 0x6f, 0x64, 0x65], vec![0x2f, 0x62, 0x69, 0x6e, 0x2f, 0x6e, 0x6f, 0x64, 0x65, 0x6a, 0x73], vec![0x2f, 0x75, 0x73, 0x72, 0x2f, 0x62, 0x69, 0x6e, 0x2f, 0x6e, 0x6f, 0x64, 0x65, 0x6a, 0x73], vec![0x2f, 0x75, 0x73, 0x72, 0x2f, 0x62, 0x69, 0x6e, 0x2f, 0x65, 0x6e, 0x76, 0x20, 0x6e, 0x6f, 0x64, 0x65], vec![0x2f, 0x75, 0x73, 0x72, 0x2f, 0x62, 0x69, 0x6e, 0x2f, 0x65, 0x6e, 0x76, 0x20, 0x6e, 0x6f, 0x64, 0x65, 0x6a, 0x73]];  // "/bin/node", "/usr/bin/node", "/bin/nodejs", "/usr/bin/nodejs", "/usr/bin/env node", "/usr/bin/env nodejs"
    proof {
        assert(seq_views(js_sigs@) =~~= seq![seq![0x2fu8, 0x62u8, 0x69u8, 0x6eu8, 0x2fu8, 0x6eu8, 0x6fu8, 0x64u8, 0x65u8], seq![0x2fu8, 0x75u8, 0x73u8, 0x72u8, 0x2fu8, 0x62u8, 0x69u8, 0x6eu8, 0x2fu8, 0x6eu8, 0x6fu8, 0x64u8, 0x65u8], seq![0x2fu8, 0x62u8, 0x69u8, 0x6eu8, 0x2fu8, 0x6eu8, 0x6fu8, 0x64u8, 0x65u8, 0x6au8, 0x73u8], seq![0x2fu8, 0x75u8, 0x73u8, 0x72u8, 0x2fu8, 0x62u8, 0x69u8, 0x6eu8, 0x2fu8, 0x6eu8, 0x6fu8, 0x64u8, 0x65u8, 0x6au8, 0x73u8], seq![0x2fu8, 0x75u8, 0x73u8, 0x72u8, 0x2fu8, 0x62u8, 0x69u8, 0x6eu8, 0x2fu8, 0x65u8, 0x6eu8, 0x76u8, 0x20u8, 0x6eu8, 0x6fu8, 0x64u8, 0x65u8], seq![0x2fu8, 0x75u8, 0x73u8, 0x72u8, 0x2fu8, 0x62u8, 0x69u8, 0x6eu8, 0x2fu8, 0x65u8, 0x6eu8, 0x76u8, 0x20u8, 0x6eu8, 0x6fu8, 0x64u8, 0x65u8, 0x6au8, 0x73u8]]);
    }
    let js = Mime::new(String::from_str("application/javascript"), String::from_str(".js"), Detector::SheBang(js_sigs)).aliases(vec!["application/x-javascript", "text/javascript"]);
    proof {
        assert(js_entry(js));
    }
    let lua_sigs: Vec<Vec<u8>> = vec![vec![0x2f, 0x75, 0x73, 0x72, 0x2f, 0x62, 0x69, 0x6e, 0x2f, 0x6c, 0x75, 0x61], vec![0x2f, 0x75, 0x73, 0x72, 0x2f, 0x6c, 0x6f, 0x63, 0x61, 0x6c, 0x2f, 0x62, 0x69, 0x6e, 0x2f, 0x6c, 0x75, 0x61], vec![0x2f, 0x75, 0x73, 0x72, 0x2f, 0x62, 0x69, 0x6e, 0x2f, 0x65, 0x6e, 0x76, 0x20, 0x6c, 0x75, 0x61]];  // "/usr/bin/lua", "/usr/local/bin/lua", "/usr/bin/env lua"
    proof {
        assert(seq_views(lua_sigs@) =~~= seq![seq![0x2fu8, 0x75u8, 0x73u8, 0x72u8, 0x2fu8, 0x62u8, 0x69u8, 0x6eu8, 0x2fu8, 0x6cu8, 0x75u8, 0x61u8], seq![0x2fu8, 0x75u8, 0x73u8, 0x72u8, 0x2fu8, 0x6cu8, 0x6fu8, 0x63u8, 0x61u8, 0x6cu8, 0x2fu8, 0x62u8, 0x69u8, 0x6eu8, 0x2fu8, 0x6cu8, 0x75u8, 0x61u8], seq![0x2fu8, 0x75u8, 0x73u8, 0x72u8, 0x2fu8, 0x62u8, 0x69u8, 0x6eu8, 0x2fu8, 0x65u8, 0x6eu8, 0x76u8, 0x20u8, 0x6cu8, 0x75u8, 0x61u8]]);
    }
    let lua = Mime::new(String::from_str("text/x-lua"), String::from_str(".lua"), Detector::SheBang(lua_sigs));
    proof {
        assert(lua_entry(lua));
    }
    let perl_sigs: Vec<Vec<u8>> = vec![vec![0x2f, 0x75, 0x73, 0x72, 0x2f, 0x62, 0x69, 0x6e, 0x2f, 0x70, 0x65, 0x72, 0x6c], vec![0x2f, 0x75, 0x73, 0x72, 0x2f, 0x62, 0x69, 0x6e, 0x2f, 0x65, 0x6e, 0x76, 0x20, 0x70, 0x65, 0x72, 0x6c]];  // "/usr/bin/perl", "/usr/bin/env perl"
    proof {
        assert(seq_views(perl_sigs@) =~~= seq![seq![0x2fu8, 0x75u8, 0x73u8, 0x72u8, 0x2fu8, 0x62u8, 0x69u8, 0x6eu8, 0x2fu8, 0x70u8, 0x65u8, 0x72u8, 0x6cu8], seq![0x2fu8, 0x75u8, 0x73u8, 0x72u8, 0x2fu8, 0x62u8, 0x69u8, 0x6eu8, 0x2fu8, 0x65u8, 0x6eu8, 0x76u8, 0x20u8, 0x70u8, 0x65u8, 0x72u8, 0x6cu8]]);
    }
    let perl = Mime::new(String::from_str("text/x-perl"), String::from_str(".pl"), Detector::SheBang(perl_sigs));
    proof {
        assert(perl_entry(perl));
    }
    let python_sigs: Vec<Vec<u8>> = vec![vec![0x2f, 0x75, 0x73, 0x72, 0x2f, 0x62, 0x69, 0x6e, 0x2f, 0x70, 0x79, 0x74, 0x68, 0x6f, 0x6e], vec![0x2f, 0x75, 0x73, 0x72, 0x2f, 0x6c, 0x6f, 0x63, 0x61, 0x6c, 0x2f, 0x62, 0x69, 0x6e, 0x2f, 0x70, 0x79, 0x74, 0x68, 0x6f, 0x6e], vec![0x2f, 0x75, 0x73, 0x72, 0x2f, 0x62, 0x69, 0x6e, 0x2f, 0x65, 0x6e, 0x76, 0x20, 0x70, 0x79, 0x74, 0x68, 0x6f, 0x6e]];  // "/usr/bin/python", "/usr/local/bin/python", "/usr/bin/env python"
    proof {
        assert(seq_views(python_sigs@) =~~= seq![seq![0x2fu8, 0x75u8, 0x73u8, 0x72u8, 0x2fu8, 0x62u8, 0x69u8, 0x6eu8, 0x2fu8, 0x70u8, 0x79u8, 0x74u8, 0x68u8, 0x6fu8, 0x6eu8], seq![0x2fu8, 0x75u8, 0x73u8, 0x72u8, 0x2fu8, 0x6cu8, 0x6fu8, 0x63u8, 0x61u8, 0x6cu8, 0x2fu8, 0x62u8, 0x69u8, 0x6eu8, 0x2fu8, 0x70u8, 0x79u8, 0x74u8, 0x68u8, 0x6fu8, 0x6eu8], seq![0x2fu8, 0x75u8, 0x73u8, 0x72u8, 0x2fu8, 0x62u8, 0x69u8, 0x6eu8, 0x2fu8, 0x65u8, 0x6eu8, 0x76u8, 0x20u8, 0x70u8, 0x79u8, 0x74u8, 0x68u8, 0x6fu8, 0x6eu8]]);
    }
    let python = Mime::new(String::from_str("text/x-python"), String::from_str(".py"), Detector::SheBang(python_sigs));
    proof {
        assert(python_entry(python));
    }
    let rtf_sigs: Vec<Vec<u8>> = vec![vec![0x7b, 0x5c, 0x72, 0x74, 0x66]];
    proof {
        assert(seq_views(rtf_sigs@) =~~= seq![seq![0x7bu8, 0x5cu8, 0x72u8, 0x74u8, 0x66u8]]);
    }
    let rtf = Mime::new(String::from_str("text/rtf"), String::from_str(".rtf"), Detector::Prefix(rtf_sigs)).aliases(vec!["application/rtf"]);
    proof {
        assert(rtf_entry(rtf));
    }
    let text = Mime::new(String::from_str("text/plain"), String::from_str(".txt"), Detector::Text).children(vec![html, svg, xml, php, js, lua, perl, python, rtf]);
    proof {
        assert(text_entry(text));
    }
    let mut v: Vec<Mime> = Vec::new();
    v.push(jxr);
    v.push(text);
    proof {
        assert(v@[0] == jxr);
        assert(v@[1] == text);
    }
    v
}

/// What the catalog guarantees: the root entry is the generic binary
/// stream, and its children are exactly the catalog entries below, in
/// match order.
pub open spec fn spec_catalog(r: Mime) -> bool {
    &&& r.mime@ == "application/octet-stream"@
    &&& r.extension@ == ""@
    &&& r.aliases@.len() == 0
    &&& r.detector is Empty
    &&& r.children@.len() == 106
    &&& xpm_entry(r.children@[0])
    &&& seven_z_entry(r.children@[1])
    &&& zip_entry(r.children@[2])
    &&& pdf_entry(r.children@[3])
    &&& fdf_entry(r.children@[4])
    &&& ole_entry(r.children@[5])
    &&& ps_entry(r.children@[6])
    &&& psd_entry(r.children@[7])
    &&& p7s_entry(r.children@[8])
    &&& ogg_entry(r.children@[9])
    &&& png_entry(r.children@[10])
    &&& jpg_entry(r.children@[11])
    &&& jxl_entry(r.children@[12])
    &&& jp2_entry(r.children@[13])
    &&& jpx_entry(r.children@[14])
    &&& jpm_entry(r.children@[15])
    &&& jxs_entry(r.children@[16])
    &&& gif_entry(r.children@[17])
    &&& webp_entry(r.children@[18])
    &&& exe_entry(r.children@[19])
    &&& elf_entry(r.children@[20])
    &&& ar_entry(r.children@[21])
    &&& tar_entry(r.children@[22])
    &&& xar_entry(r.children@[23])
    &&& bz2_entry(r.children@[24])
    &&& fits_entry(r.children@[25])
    &&& tiff_entry(r.children@[26])
    &&& bmp_entry(r.children@[27])
    &&& ico_entry(r.children@[28])
    &&& mp3_entry(r.children@[29])
    &&& flac_entry(r.children@[30])
    &&& midi_entry(r.children@[31])
    &&& ape_entry(r.children@[32])
    &&& musepack_entry(r.children@[33])
    &&& amr_entry(r.children@[34])
    &&& wav_entry(r.children@[35])
    &&& aiff_entry(r.children@[36])
    &&& au_entry(r.children@[37])
    &&& mpeg_entry(r.children@[38])
    &&& quicktime_entry(r.children@[39])
    &&& mqv_entry(r.children@[40])
    &&& mp4_entry(r.children@[41])
    &&& webm_entry(r.children@[42])
    &&& three_gp_entry(r.children@[43])
    &&& three_g2_entry(r.children@[44])
    &&& avi_entry(r.children@[45])
    &&& flv_entry(r.children@[46])
    &&& mkv_entry(r.children@[47])
    &&& asf_entry(r.children@[48])
    &&& aac_entry(r.children@[49])
    &&& voc_entry(r.children@[50])
    &&& amp4_entry(r.children@[51])
    &&& m4a_entry(r.children@[52])
    &&& m3u_entry(r.children@[53])
    &&& m4v_entry(r.children@[54])
    &&& rmvb_entry(r.children@[55])
    &&& gzip_entry(r.children@[56])
    &&& class_entry(r.children@[57])
    &&& swf_entry(r.children@[58])
    &&& crx_entry(r.children@[59])
    &&& ttf_entry(r.children@[60])
    &&& woff_entry(r.children@[61])
    &&& woff2_entry(r.children@[62])
    &&& otf_entry(r.children@[63])
    &&& ttc_entry(r.children@[64])
    &&& eot_entry(r.children@[65])
    &&& wasm_entry(r.children@[66])
    &&& shx_entry(r.children@[67])
    &&& dbf_entry(r.children@[68])
    &&& dcm_entry(r.children@[69])
    &&& rar_entry(r.children@[70])
    &&& djvu_entry(r.children@[71])
    &&& mobi_entry(r.children@[72])
    &&& lit_entry(r.children@[73])
    &&& bpg_entry(r.children@[74])
    &&& sqlite3_entry(r.children@[75])
    &&& dwg_entry(r.children@[76])
    &&& nes_entry(r.children@[77])
    &&& lnk_entry(r.children@[78])
    &&& macho_entry(r.children@[79])
    &&& qcp_entry(r.children@[80])
    &&& icns_entry(r.children@[81])
    &&& heic_entry(r.children@[82])
    &&& heic_sequence_entry(r.children@[83])
    &&& heif_entry(r.children@[84])
    &&& heif_sequence_entry(r.children@[85])
    &&& hdr_entry(r.children@[86])
    &&& marc_entry(r.children@[87])
    &&& ms_access_mdb_entry(r.children@[88])
    &&& ms_access_ace_entry(r.children@[89])
    &&& zstd_entry(r.children@[90])
    &&& cab_entry(r.children@[91])
    &&& rpm_entry(r.children@[92])
    &&& xz_entry(r.children@[93])
    &&& lzip_entry(r.children@[94])
    &&& torrent_entry(r.children@[95])
    &&& cpio_entry(r.children@[96])
    &&& tzif_entry(r.children@[97])
    &&& xcf_entry(r.children@[98])
    &&& pat_entry(r.children@[99])
    &&& gbr_entry(r.children@[100])
    &&& glb_entry(r.children@[101])
    &&& avif_entry(r.children@[102])
    &&& installshield_cab_entry(r.children@[103])
    &&& jxr_entry(r.children@[104])
    &&& text_entry(r.children@[105])
}

/// Builds the full catalog tree.  The tree is immutable data: callers
/// build it once and hand it to `detect`; `spec_catalog` pins every entry.
pub fn root() -> (r: Mime)
    ensures
        spec_catalog(r),
{
    let mut children: Vec<Mime> = Vec::new();
    let mut part_0 = tree_part_0();
    children.append(&mut part_0);
    let mut part_1 = tree_part_1();
    children.append(&mut part_1);
    let mut part_2 = tree_part_2();
    children.append(&mut part_2);
    let mut part_3 = tree_part_3();
    children.append(&mut part_3);
    let mut part_4 = tree_part_4();
    children.append(&mut part_4);
    let mut part_5 = tree_part_5();
    children.append(&mut part_5);
    let mut part_6 = tree_part_6();
    children.append(&mut part_6);
    let mut part_7 = tree_part_7();
    children.append(&mut part_7);
    let mut part_8 = tree_part_8();
    children.append(&mut part_8);
    proof {
        assert(xpm_entry(children@[0]));
        assert(seven_z_entry(children@[1]));
        assert(zip_entry(children@[2]));
        assert(pdf_entry(children@[3]));
        assert(fdf_entry(children@[4]));
        assert(ole_entry(children@[5]));
        assert(ps_entry(children@[6]));
        assert(psd_entry(children@[7]));
        assert(p7s_entry(children@[8]));
        assert(ogg_entry(children@[9]));
        assert(png_entry(children@[10]));
        assert(jpg_entry(children@[11]));
        assert(jxl_entry(children@[12]));
        assert(jp2_entry(children@[13]));
        assert(jpx_entry(children@[14]));
        assert(jpm_entry(children@[15]));
        assert(jxs_entry(children@[16]));
        assert(gif_entry(children@[17]));
        assert(webp_entry(children@[18]));
        assert(exe_entry(children@[19]));
        assert(elf_entry(children@[20]));
        assert(ar_entry(children@[21]));
        assert(tar_entry(children@[22]));
        assert(xar_entry(children@[23]));
        assert(bz2_entry(children@[24]));
        assert(fits_entry(children@[25]));
        assert(tiff_entry(children@[26]));
        assert(bmp_entry(children@[27]));
        assert(ico_entry(children@[28]));
        assert(mp3_entry(children@[29]));
        assert(flac_entry(children@[30]));
        assert(midi_entry(children@[31]));
        assert(ape_entry(children@[32]));
        assert(musepack_entry(children@[33]));
        assert(amr_entry(children@[34]));
        assert(wav_entry(children@[35]));
        assert(aiff_entry(children@[36]));
        assert(au_entry(children@[37]));
        assert(mpeg_entry(children@[38]));
        assert(quicktime_entry(children@[39]));
        assert(mqv_entry(children@[40]));
        assert(mp4_entry(children@[41]));
        assert(webm_entry(children@[42]));
        assert(three_gp_entry(children@[43]));
        assert(three_g2_entry(children@[44]));
        assert(avi_entry(children@[45]));
        assert(flv_entry(children@[46]));
        assert(mkv_entry(children@[47]));
        assert(asf_entry(children@[48]));
        assert(aac_entry(children@[49]));
        assert(voc_entry(children@[50]));
        assert(amp4_entry(children@[51]));
        assert(m4a_entry(children@[52]));
        assert(m3u_entry(children@[53]));
        assert(m4v_entry(children@[54]));
        assert(rmvb_entry(children@[55]));
        assert(gzip_entry(children@[56]));
        assert(class_entry(children@[57]));
        assert(swf_entry(children@[58]));
        assert(crx_entry(children@[59]));
        assert(ttf_entry(children@[60]));
        assert(woff_entry(children@[61]));
        assert(woff2_entry(children@[62]));
        assert(otf_entry(children@[63]));
        assert(ttc_entry(children@[64]));
        assert(eot_entry(children@[65]));
        assert(wasm_entry(children@[66]));
        assert(shx_entry(children@[67]));
        assert(dbf_entry(children@[68]));
        assert(dcm_entry(children@[69]));
        assert(rar_entry(children@[70]));
        assert(djvu_entry(children@[71]));
        assert(mobi_entry(children@[72]));
        assert(lit_entry(children@[73]));
        assert(bpg_entry(children@[74]));
        assert(sqlite3_entry(children@[75]));
        assert(dwg_entry(children@[76]));
        assert(nes_entry(children@[77]));
        assert(lnk_entry(children@[78]));
        assert(macho_entry(children@[79]));
        assert(qcp_entry(children@[80]));
        assert(icns_entry(children@[81]));
        assert(heic_entry(children@[82]));
        assert(heic_sequence_entry(children@[83]));
        assert(heif_entry(children@[84]));
        assert(heif_sequence_entry(children@[85]));
        assert(hdr_entry(children@[86]));
        assert(marc_entry(children@[87]));
        assert(ms_access_mdb_entry(children@[88]));
        assert(ms_access_ace_entry(children@[89]));
        assert(zstd_entry(children@[90]));
        assert(cab_entry(children@[91]));
        assert(rpm_entry(children@[92]));
        assert(xz_entry(children@[93]));
        assert(lzip_entry(children@[94]));
        assert(torrent_entry(children@[95]));
        assert(cpio_entry(children@[96]));
        assert(tzif_entry(children@[97]));
        assert(xcf_entry(children@[98]));
        assert(pat_entry(children@[99]));
        assert(gbr_entry(children@[100]));
        assert(glb_entry(children@[101]));
        assert(avif_entry(children@[102]));
        assert(installshield_cab_entry(children@[103]));
        assert(jxr_entry(children@[104]));
        assert(text_entry(children@[105]));
    }
    let r = Mime::new(
        String::from_str("application/octet-stream"),
        String::from_str(""),
        Detector::Empty,
    ).children(children);
    assert(spec_catalog(r));
    r
}

} // verus!
