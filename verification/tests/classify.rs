use mime_sniff::detector::{detector_matches, Detector};
use mime_sniff::mime::{detect, set_rate_limit, Mime};
use mime_sniff::tree::root;

fn label_of(content: &[u8], limit: usize) -> String {
    let tree = root();
    detect(&tree, content, limit).mime
}

fn zip_entry(name: &[u8]) -> Vec<u8> {
    // A minimal ZIP local file header: signature, zeroed fields, the
    // name-length field at offset 26, and the name itself at offset 30.
    let mut v = Vec::new();
    v.extend_from_slice(b"PK\x03\x04");
    v.extend_from_slice(&[0u8; 22]);
    v.extend_from_slice(&(name.len() as u16).to_le_bytes());
    v.extend_from_slice(&[0u8; 2]);
    v.extend_from_slice(name);
    v
}

#[test]
fn docx_zip_entry_classifies_as_docx() {
    let content = zip_entry(b"word/document.xml");
    assert_eq!(
        label_of(&content, 0),
        "application/vnd.openxmlformats-officedocument.wordprocessingml.document"
    );
}

#[test]
fn xlsx_zip_entry_classifies_as_xlsx() {
    let content = zip_entry(b"xl/workbook.xml");
    assert_eq!(
        label_of(&content, 0),
        "application/vnd.openxmlformats-officedocument.spreadsheetml.sheet"
    );
}

#[test]
fn plain_zip_stays_zip() {
    let content = zip_entry(b"notes.txt");
    assert_eq!(label_of(&content, 0), "application/zip");
}

fn patched_tar_header() -> Vec<u8> {
    // 512 zero bytes; the checksum of an all-zero header with the checksum
    // field itself read as eight ASCII spaces is 8 * 0x20 = 256 = 0o400.
    let mut h = vec![0u8; 512];
    h[148..156].copy_from_slice(b"00000400");
    h
}

#[test]
fn patched_zero_tar_header_classifies_as_tar() {
    assert_eq!(label_of(&patched_tar_header(), 0), "application/x-tar");
}

#[test]
fn truncation_hides_tar_checksum() {
    // With a limit below the record size the same bytes no longer classify
    // as tar: classification reads nothing past the limit.
    let h = patched_tar_header();
    assert_eq!(label_of(&h, 100), "application/octet-stream");
    assert_eq!(label_of(&h, 600), "application/x-tar");
}

#[test]
fn webm_doctype_classifies_as_webm_not_matroska() {
    let mut v = Vec::new();
    v.extend_from_slice(b"\x1A\x45\xDF\xA3");
    v.extend_from_slice(b"\x42\x82");
    v.push(0x84); // a one-byte vint length prefix
    v.extend_from_slice(b"webm");
    assert_eq!(label_of(&v, 0), "video/webm");
}

#[test]
fn matroska_doctype_classifies_as_mkv() {
    let mut v = Vec::new();
    v.extend_from_slice(b"\x1A\x45\xDF\xA3");
    v.extend_from_slice(b"\x42\x82");
    v.push(0x84);
    v.extend_from_slice(b"matroska");
    assert_eq!(label_of(&v, 0), "video/x-matroska");
}

#[test]
fn empty_buffer_classifies_as_root_and_is_stable() {
    let first = label_of(b"", 0);
    let second = label_of(b"", 0);
    assert_eq!(first, "application/octet-stream");
    assert_eq!(first, second);
}

#[test]
fn png_with_actl_classifies_as_apng() {
    let mut v = Vec::new();
    v.extend_from_slice(&[0x89, 0x50, 0x4E, 0x47, 0x0D, 0x0A, 0x1A, 0x0A]);
    while v.len() < 37 {
        v.push(0);
    }
    v.extend_from_slice(b"acTL");
    assert_eq!(label_of(&v, 0), "image/vnd.mozilla.apng");
}

#[test]
fn plain_png_stays_png() {
    let mut v = Vec::new();
    v.extend_from_slice(&[0x89, 0x50, 0x4E, 0x47, 0x0D, 0x0A, 0x1A, 0x0A]);
    v.extend_from_slice(&[0u8; 40]);
    assert_eq!(label_of(&v, 0), "image/png");
}

#[test]
fn identical_calls_yield_identical_results() {
    let content = zip_entry(b"META-INF/MANIFEST.MF");
    let tree = root();
    let a = detect(&tree, &content, 0);
    let b = detect(&tree, &content, 0);
    assert_eq!(a.mime, b.mime);
    assert_eq!(a.extension, b.extension);
    assert_eq!(a.aliases, b.aliases);
    assert_eq!(a.mime, "application/jar");
}

#[test]
fn pdf_snapshot_carries_aliases_and_extension() {
    let tree = root();
    let r = detect(&tree, b"%PDF-1.7 ...", 0);
    assert_eq!(r.mime, "application/pdf");
    assert_eq!(r.extension, ".pdf");
    assert_eq!(r.aliases, vec!["application/x-pdf".to_string()]);
}

#[test]
fn opendocument_template_refines_opendocument_text() {
    // The template signature extends the plain text signature at the same
    // offset, so the more specific child wins.
    let mut v = Vec::new();
    v.extend_from_slice(b"PK\x03\x04");
    v.extend_from_slice(&[0u8; 26]);
    v.extend_from_slice(b"mimetypeapplication/vnd.oasis.opendocument.text-template");
    assert_eq!(
        label_of(&v, 0),
        "application/vnd.oasis.opendocument.text-template"
    );
    let mut w = Vec::new();
    w.extend_from_slice(b"PK\x03\x04");
    w.extend_from_slice(&[0u8; 26]);
    w.extend_from_slice(b"mimetypeapplication/vnd.oasis.opendocument.text");
    assert_eq!(label_of(&w, 0), "application/vnd.oasis.opendocument.text");
}

#[test]
fn ole_doc_clsid_at_592() {
    // Sector size 512 (version 3), first directory sector 0: the root CLSID
    // is read at 512 * 1 + 80 = 592.
    let mut v = vec![0u8; 620];
    v[..8].copy_from_slice(&[0xD0, 0xCF, 0x11, 0xE0, 0xA1, 0xB1, 0x1A, 0xE1]);
    v[592..608].copy_from_slice(&[
        0x06, 0x09, 0x02, 0x00, 0x00, 0x00, 0x00, 0x00, 0xc0, 0x00, 0x00, 0x00, 0x00, 0x00,
        0x00, 0x46,
    ]);
    assert_eq!(label_of(&v, 0), "application/msword");
}

#[test]
fn ole_msi_clsid_at_4176_with_4096_sectors() {
    // Version 4 selects 4096-byte sectors: the CLSID moves to 4096 + 80.
    let mut v = vec![0u8; 4300];
    v[..8].copy_from_slice(&[0xD0, 0xCF, 0x11, 0xE0, 0xA1, 0xB1, 0x1A, 0xE1]);
    v[26] = 0x04;
    v[4176..4192].copy_from_slice(&[
        0x84, 0x10, 0x0C, 0x00, 0x00, 0x00, 0x00, 0x00, 0xC0, 0x00, 0x00, 0x00, 0x00, 0x00,
        0x00, 0x46,
    ]);
    assert_eq!(label_of(&v, 0), "application/x-ms-installer");
}

#[test]
fn ole_without_clsid_stays_ole_storage() {
    let mut v = vec![0u8; 620];
    v[..8].copy_from_slice(&[0xD0, 0xCF, 0x11, 0xE0, 0xA1, 0xB1, 0x1A, 0xE1]);
    assert_eq!(label_of(&v, 0), "application/x-ole-storage");
}

#[test]
fn crx_package_header_offsets_reach_the_zip() {
    let mut v = Vec::new();
    v.extend_from_slice(b"Cr24");
    v.extend_from_slice(&[0u8; 4]);
    v.extend_from_slice(&1u32.to_le_bytes()); // public key length
    v.extend_from_slice(&2u32.to_le_bytes()); // signature length
    v.extend_from_slice(&[0u8; 3]); // key and signature bytes
    v.extend_from_slice(b"PK\x03\x04");
    assert_eq!(label_of(&v, 0), "application/x-chrome-extension");
}

#[test]
fn mp3_frame_sync_classifies_as_mp3() {
    assert_eq!(label_of(b"\xFF\xFAxx", 0), "audio/mpeg");
    assert_eq!(label_of(b"ID3xxxx", 0), "audio/mpeg");
}

#[test]
fn tzif_requires_nonzero_type_count() {
    let mut v = vec![0u8; 44];
    v[..4].copy_from_slice(b"TZif");
    v[39] = 1;
    assert_eq!(label_of(&v, 0), "application/tzif");
    v[39] = 0;
    assert_eq!(label_of(&v, 0), "application/octet-stream");
}

#[test]
fn m4a_brand_selects_m4a_over_audio_mp4() {
    assert_eq!(label_of(b"\x00\x00\x00\x18ftypM4A \x00\x00\x00\x00", 0), "audio/x-m4a");
    assert_eq!(label_of(b"\x00\x00\x00\x18ftypF4A \x00\x00\x00\x00", 0), "audio/mp4");
}

#[test]
fn ftyp_brands_pick_their_formats() {
    assert_eq!(label_of(b"\x00\x00\x00\x18ftypisom\x00\x00\x00\x00", 0), "video/mp4");
    assert_eq!(label_of(b"\x00\x00\x00\x18ftypheic\x00\x00\x00\x00", 0), "image/heic");
    assert_eq!(label_of(b"\x00\x00\x00\x18ftypavif\x00\x00\x00\x00", 0), "image/avif");
}

#[test]
fn quicktime_wide_atom_and_brand_guards() {
    assert_eq!(label_of(b"\x00\x00\x00\x08wide\x00\x00\x00\x00", 0), "video/quicktime");
    assert_eq!(label_of(b"\x00\x00\x00\x18ftypqt  ", 0), "video/quicktime");
    assert_eq!(label_of(b"\x00\x00\x00\x18ftypmoov", 0), "video/quicktime");
    // A text file that happens to hold `ftypqt  ` or `ftypmoov` at byte 4
    // is not a movie: the size field of a real atom starts with a zero byte.
    assert_eq!(label_of(b"xxxxftypqt  ", 0), "text/plain");
    assert_eq!(label_of(b"xxxxftypmoov", 0), "text/plain");
}

#[test]
fn markup_detection_folds_case() {
    assert_eq!(label_of(b"<html><body></body></html>", 0), "text/html");
    assert_eq!(label_of(b"  <HTML>", 0), "text/html");
    assert_eq!(label_of(b"<?xml version=\"1.0\"?>", 0), "text/xml");
}

#[test]
fn shebang_selects_interpreter() {
    assert_eq!(label_of(b"#!/usr/bin/python\nprint(1)\n", 0), "text/x-python");
    assert_eq!(label_of(b"#! /usr/bin/env node \nlet x = 1;\n", 0), "application/javascript");
}

#[test]
fn php_opening_tag_matches_either_case() {
    assert_eq!(label_of(b"<?PHP echo 1;", 0), "text/x-php");
    assert_eq!(label_of(b"<?php echo 1;", 0), "text/x-php");
}

#[test]
fn json_object_classifies_as_plain_text() {
    // The catalog never attached the JSON entry under text, so a JSON
    // document falls through to plain text.
    assert_eq!(label_of(b"{\"a\": 1}", 0), "text/plain");
}

#[test]
fn svg_tag_anywhere_marks_svg() {
    assert_eq!(label_of(b"hello <svg width=\"5\">", 0), "image/svg+xml");
}

#[test]
fn binary_bytes_fall_back_to_octet_stream() {
    assert_eq!(label_of(&[0x01, 0x02, 0x03], 0), "application/octet-stream");
}

#[test]
fn shapefile_header_words_are_checked_in_both_byte_orders() {
    let mut v = vec![0u8; 112];
    v[..4].copy_from_slice(&9994u32.to_be_bytes());
    v[28..32].copy_from_slice(&1000u32.to_le_bytes());
    v[108..112].copy_from_slice(&5u32.to_le_bytes()); // polygon
    assert_eq!(label_of(&v, 0), "application/vnd.shp");
    v[108..112].copy_from_slice(&99u32.to_le_bytes()); // unknown shape type
    assert_eq!(label_of(&v, 0), "application/vnd.shx");
}

#[test]
fn marc_leader_starts_with_five_digits() {
    let mut v = Vec::new();
    v.extend_from_slice(b"01234abcdefghijklmno4500");
    v.push(0x1E);
    assert_eq!(label_of(&v, 0), "application/marc");
    // A leader whose record length is not all digits is rejected.
    let mut w = Vec::new();
    w.extend_from_slice(b"0123Xabcdefghijklmno4500");
    w.push(0x1E);
    assert_ne!(label_of(&w, 0), "application/marc");
}

#[test]
fn set_rate_limit_stores_the_new_value() {
    let mut limit: usize = 3072;
    set_rate_limit(&mut limit, 0);
    assert_eq!(limit, 0);
    set_rate_limit(&mut limit, 100);
    assert_eq!(limit, 100);
}

#[test]
fn match_mime_walks_a_custom_tree() {
    let child = Mime::new(
        "example/inner".to_string(),
        ".in".to_string(),
        Detector::Prefix(vec![b"AB".to_vec()]),
    );
    let parent = Mime::new(
        "example/outer".to_string(),
        ".out".to_string(),
        Detector::Prefix(vec![b"A".to_vec()]),
    )
    .children(vec![child]);
    let tree = Mime::new("example/root".to_string(), String::new(), Detector::Empty)
        .children(vec![parent]);
    assert_eq!(tree.match_mime(b"ABC", 0).mime, "example/inner");
    assert_eq!(tree.match_mime(b"AC", 0).mime, "example/outer");
    assert_eq!(tree.match_mime(b"ZZ", 0).mime, "example/root");
}

#[test]
fn builders_keep_their_fields() {
    let m = Mime::new("example/x".to_string(), ".x".to_string(), Detector::Empty)
        .aliases(vec!["example/y", "example/z"]);
    assert_eq!(m.mime, "example/x");
    assert_eq!(m.extension, ".x");
    assert_eq!(m.aliases, vec!["example/y".to_string(), "example/z".to_string()]);
}

#[test]
fn detector_dispatch_covers_the_json_family() {
    assert!(detector_matches(&Detector::Json, b"{\"a\": 1}", 0));
    assert!(!detector_matches(&Detector::Json, b"{\"a\": ", 0));
    assert!(detector_matches(
        &Detector::GeoJson,
        b"{\"type\": \"Point\"}",
        0
    ));
    assert!(detector_matches(
        &Detector::Har,
        b"{\"log\": {\"entries\": []}}",
        0
    ));
    assert!(detector_matches(&Detector::Empty, b"", 0));
}
