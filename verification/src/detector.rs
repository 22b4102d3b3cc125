//! The closed set of matcher kinds that catalog entries bind: primitive
//! byte-pattern matchers carrying their signatures, and the specialized
//! binary-format probes.

use vstd::prelude::*;

use crate::archive;
use crate::audio;
use crate::base;
use crate::base::seq_views;
use crate::binary;
use crate::ftyp;
use crate::image;
use crate::text;

verus! {

/// A matcher bound to a catalog entry.  The primitive kinds carry their
/// signature lists; the format probes are fixed algorithms.
#[derive(Debug)]
pub enum Detector {
    /// Accepts everything; backs the root entry.
    Empty,
    /// Any of the signatures is an exact prefix.
    Prefix(Vec<Vec<u8>>),
    /// The signature sits at the fixed offset.
    Offset(usize, Vec<u8>),
    /// Any of the signatures passes the case-folded prefix comparison.
    CiPrefix(Vec<Vec<u8>>),
    /// Any of the tags opens the document after BOM and whitespace.
    MarkUp(Vec<Vec<u8>>),
    /// The first line is a shebang naming one of the interpreters.
    SheBang(Vec<Vec<u8>>),
    /// An ISO-BMFF `ftyp` box with one of the brand codes.
    Ftyp(Vec<Vec<u8>>),
    /// A JPEG 2000 box with the given brand at byte 20.
    Jpeg2k(Vec<u8>),
    /// A ZIP archive header.
    Zip,
    /// A ZIP container holding Excel workbook entries.
    Xlsx,
    /// A ZIP container holding Word document entries.
    Docx,
    /// A ZIP container holding PowerPoint presentation entries.
    Pptx,
    /// A ZIP container holding a Java manifest.
    Jar,
    /// A Chrome extension package wrapping a ZIP archive.
    Crx,
    /// An InstallShield Cabinet archive.
    InstallShieldCab,
    /// A 512-byte tar header record.
    Tar,
    /// A Windows Installer compound file.
    Msi,
    /// An Outlook email compound file.
    Msg,
    /// A Microsoft Publisher compound file.
    Publisher,
    /// A Word 97-2003 compound file.
    Doc,
    /// An Excel 97-2003 compound file.
    Xls,
    /// A PowerPoint 97-2003 compound file.
    Ppt,
    /// An Advanced Authoring Format file.
    Aaf,
    /// An MP3 stream.
    Mp3,
    /// A WAVE audio file.
    Wav,
    /// An AIFF audio file.
    Aiff,
    /// A Qualcomm Pure Voice file.
    Qcp,
    /// An audio Ogg stream.
    OggAudio,
    /// A video Ogg stream.
    OggVideo,
    /// An MPEG stream.
    Mpeg,
    /// A Matroska container with the WebM doctype.
    WebM,
    /// A Matroska container with the Matroska doctype.
    Mkv,
    /// An AVI container.
    Avi,
    /// A shapefile.
    Shp,
    /// A Java class file.
    Class,
    /// A Mach-O binary.
    MachO,
    /// An ELF relocatable object.
    ElfObj,
    /// An ELF executable.
    ElfExe,
    /// An ELF shared library.
    ElfLib,
    /// An ELF core dump.
    ElfDump,
    /// A TrueType font.
    Ttf,
    /// A TrueType collection.
    Ttc,
    /// An Embedded OpenType font.
    Eot,
    /// A dBase table.
    Dbf,
    /// A DICOM file.
    Dcm,
    /// A DjVu document.
    DjVu,
    /// A MARC21 record.
    Marc,
    /// A Zstandard frame.
    Zstd,
    /// A time-zone information file.
    TzIf,
    /// A QuickTime movie.
    QuickTime,
    /// A WebP image.
    Webp,
    /// A CAD drawing.
    Dwg,
    /// A JPEG XL image.
    Jxl,
    /// Plain text.
    Text,
    /// A PHP source file.
    Php,
    /// A JSON document.
    Json,
    /// A GeoJSON document.
    GeoJson,
    /// A HAR archive.
    Har,
    /// An SVG image.
    Svg,
    /// A PKCS#7 signature.
    P7s,
}

/// What each matcher kind accepts, over the bytes of the sampled buffer.
/// No matcher reads the sampling limit: the caller truncates instead.
pub open spec fn spec_detector_matches(d: Detector, c: Seq<u8>) -> bool {
    match d {
        Detector::Empty => true,
        Detector::Prefix(sigs) => base::spec_any_prefix(seq_views(sigs@), c),
        Detector::Offset(off, sig) => base::spec_offset_matches(c, off as int, sig@),
        Detector::CiPrefix(sigs) => base::spec_any_ci_prefix(seq_views(sigs@), c),
        Detector::MarkUp(sigs) => base::spec_any_markup(seq_views(sigs@), c),
        Detector::SheBang(sigs) => base::spec_any_shebang(seq_views(sigs@), c),
        Detector::Ftyp(sigs) => base::spec_any_ftyp(seq_views(sigs@), c),
        Detector::Jpeg2k(sig) => image::spec_jpeg2k_matches(sig@, c),
        Detector::Zip => archive::spec_zip_matches(c),
        Detector::Xlsx => archive::spec_xlsx_matches(c),
        Detector::Docx => archive::spec_docx_matches(c),
        Detector::Pptx => archive::spec_pptx_matches(c),
        Detector::Jar => archive::spec_jar_matches(c),
        Detector::Crx => archive::spec_crx_matches(c),
        Detector::InstallShieldCab => archive::spec_installshield_matches(c),
        Detector::Tar => archive::spec_tar_matches(c),
        Detector::Msi => archive::spec_msi_matches(c),
        Detector::Msg => archive::spec_msg_matches(c),
        Detector::Publisher => archive::spec_publisher_matches(c),
        Detector::Doc => archive::spec_doc_matches(c),
        Detector::Xls => archive::spec_xls_matches(c),
        Detector::Ppt => archive::spec_ppt_matches(c),
        Detector::Aaf => archive::spec_aaf_matches(c),
        Detector::Mp3 => audio::spec_mp3_matches(c),
        Detector::Wav => audio::spec_wav_matches(c),
        Detector::Aiff => audio::spec_aiff_matches(c),
        Detector::Qcp => audio::spec_qcp_matches(c),
        Detector::OggAudio => audio::spec_ogg_audio_matches(c),
        Detector::OggVideo => audio::spec_ogg_video_matches(c),
        Detector::Mpeg => audio::spec_mpeg_matches(c),
        Detector::WebM => audio::spec_webm_matches(c),
        Detector::Mkv => audio::spec_mkv_matches(c),
        Detector::Avi => audio::spec_avi_matches(c),
        Detector::Shp => audio::spec_shp_matches(c),
        Detector::Class => binary::spec_class_matches(c),
        Detector::MachO => binary::spec_macho_matches(c),
        Detector::ElfObj => binary::spec_elf_obj_matches(c),
        Detector::ElfExe => binary::spec_elf_exe_matches(c),
        Detector::ElfLib => binary::spec_elf_lib_matches(c),
        Detector::ElfDump => binary::spec_elf_dump_matches(c),
        Detector::Ttf => binary::spec_ttf_matches(c),
        Detector::Ttc => binary::spec_ttc_matches(c),
        Detector::Eot => binary::spec_eot_matches(c),
        Detector::Dbf => binary::spec_dbf_matches(c),
        Detector::Dcm => binary::spec_dcm_matches(c),
        Detector::DjVu => binary::spec_djvu_matches(c),
        Detector::Marc => binary::spec_marc_matches(c),
        Detector::Zstd => binary::spec_zstd_matches(c),
        Detector::TzIf => binary::spec_tzif_matches(c),
        Detector::QuickTime => ftyp::spec_quicktime_matches(c),
        Detector::Webp => image::spec_webp_matches(c),
        Detector::Dwg => image::spec_dwg_matches(c),
        Detector::Jxl => image::spec_jxl_matches(c),
        Detector::Text => text::spec_text_matches(c),
        Detector::Php => text::spec_php_matches(c),
        Detector::Json => text::spec_json_matches(c),
        Detector::GeoJson => text::spec_geojson_matches(c),
        Detector::Har => text::spec_har_matches(c),
        Detector::Svg => text::spec_svg_matches(c),
        Detector::P7s => text::spec_p7s_matches(c),
    }
}

/// Runs the matcher `d` against `content`.  The sampling limit is accepted
/// for interface parity but decides nothing: truncation is the caller's.
pub fn detector_matches(d: &Detector, content: &[u8], _limit: usize) -> (r: bool)
    ensures
        r == spec_detector_matches(*d, content@),
{
    match d {
        Detector::Empty => true,
        Detector::Prefix(sigs) => base::prefix_detect(sigs, content),
        Detector::Offset(off, sig) => base::offset_detect(*off, sig.as_slice(), content),
        Detector::CiPrefix(sigs) => base::ci_prefix_detect(sigs, content),
        Detector::MarkUp(sigs) => base::markup_detect(sigs, content),
        Detector::SheBang(sigs) => base::shebang_detect(sigs, content),
        Detector::Ftyp(sigs) => base::ftyp_detect(sigs, content),
        Detector::Jpeg2k(sig) => image::jpeg2k_detect(sig.as_slice(), content),
        Detector::Zip => archive::zip_detect(content),
        Detector::Xlsx => archive::xlsx_detect(content),
        Detector::Docx => archive::docx_detect(content),
        Detector::Pptx => archive::pptx_detect(content),
        Detector::Jar => archive::jar_detect(content),
        Detector::Crx => archive::crx_detect(content),
        Detector::InstallShieldCab => archive::installshield_cab_detect(content),
        Detector::Tar => archive::tar_detect(content),
        Detector::Msi => archive::msi_detect(content),
        Detector::Msg => archive::msg_detect(content),
        Detector::Publisher => archive::publisher_detect(content),
        Detector::Doc => archive::doc_detect(content),
        Detector::Xls => archive::xls_detect(content),
        Detector::Ppt => archive::ppt_detect(content),
        Detector::Aaf => archive::aaf_detect(content),
        Detector::Mp3 => audio::mp3_detect(content),
        Detector::Wav => audio::wav_detect(content),
        Detector::Aiff => audio::aiff_detect(content),
        Detector::Qcp => audio::qcp_detect(content),
        Detector::OggAudio => audio::ogg_audio_detect(content),
        Detector::OggVideo => audio::ogg_video_detect(content),
        Detector::Mpeg => audio::mpeg_detect(content),
        Detector::WebM => audio::webm_detect(content),
        Detector::Mkv => audio::mkv_detect(content),
        Detector::Avi => audio::avi_detect(content),
        Detector::Shp => audio::shp_detect(content),
        Detector::Class => binary::class_detect(content),
        Detector::MachO => binary::macho_detect(content),
        Detector::ElfObj => binary::elf_obj_detect(content),
        Detector::ElfExe => binary::elf_exe_detect(content),
        Detector::ElfLib => binary::elf_lib_detect(content),
        Detector::ElfDump => binary::elf_dump_detect(content),
        Detector::Ttf => binary::ttf_detect(content),
        Detector::Ttc => binary::ttc_detect(content),
        Detector::Eot => binary::eot_detect(content),
        Detector::Dbf => binary::dbf_detect(content),
        Detector::Dcm => binary::dcm_detect(content),
        Detector::DjVu => binary::djvu_detect(content),
        Detector::Marc => binary::marc_detect(content),
        Detector::Zstd => binary::zstd_detect(content),
        Detector::TzIf => binary::tzif_detect(content),
        Detector::QuickTime => ftyp::quicktime_detect(content),
        Detector::Webp => image::webp_detect(content),
        Detector::Dwg => image::dwg_detect(content),
        Detector::Jxl => image::jxl_detect(content),
        Detector::Text => text::text_detect(content),
        Detector::Php => text::php_detect(content),
        Detector::Json => text::json_detect(content),
        Detector::GeoJson => text::geojson_detect(content),
        Detector::Har => text::har_detect(content),
        Detector::Svg => text::svg_detect(content),
        Detector::P7s => text::p7s_detect(content),
    }
}

} // verus!
