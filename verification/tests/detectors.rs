use mime_sniff::archive::{match_ole_clsid, tar_chksum, tar_parse_octal, zip_contains, zip_detect};
use mime_sniff::audio::{is_file_type_name_present, is_matroska_file_type_matched, vint_width};
use mime_sniff::base::{
    ci_check, first_line, mark_up_check, shebang_check, trim_left_ws, trim_right_ws, xml_check,
    EmptyDetector, XmlSig,
};
use mime_sniff::binary::class_or_mach_ofat;
use mime_sniff::text::{from_boom, geojson_detect, har_detect, json_detect};

#[test]
fn vint_width_counts_leading_zero_bits() {
    assert_eq!(vint_width(0x80), 1);
    assert_eq!(vint_width(0x40), 2);
    assert_eq!(vint_width(0x20), 3);
    assert_eq!(vint_width(0x01), 8);
    assert_eq!(vint_width(0x00), 8);
}

#[test]
fn tar_parse_octal_decodes_and_rejects() {
    assert_eq!(tar_parse_octal(b"00000400"), 256);
    assert_eq!(tar_parse_octal(b"  777   "), 511);
    assert_eq!(tar_parse_octal(b"1234567\x00"), 0o1234567);
    assert_eq!(tar_parse_octal(b"000400\x00 "), 256);
    assert_eq!(tar_parse_octal(b"12x45"), -1);
    assert_eq!(tar_parse_octal(b"        "), -1);
    assert_eq!(tar_parse_octal(b""), -1);
    // NUL padding is trimmed like spaces; an all-NUL field is invalid.
    assert_eq!(tar_parse_octal(b"\x00123456"), 0o123456);
    assert_eq!(tar_parse_octal(&[0u8; 8]), -1);
    // An interior NUL still ends the digit run.
    assert_eq!(tar_parse_octal(b"1\x002"), 1);
}

#[test]
fn tar_chksum_counts_checksum_field_as_spaces() {
    let h = vec![0u8; 512];
    let (unsigned, signed) = tar_chksum(&h);
    assert_eq!(unsigned, 256);
    assert_eq!(signed, 256);
    let mut h2 = vec![0u8; 512];
    h2[0] = 0xFF; // signed convention counts this byte as -1
    let (u2, s2) = tar_chksum(&h2);
    assert_eq!(u2, 256 + 255);
    assert_eq!(s2, 256 - 1);
}

#[test]
fn zip_detect_checks_marker_pairs() {
    assert!(zip_detect(b"PK\x03\x04xxxx"));
    assert!(zip_detect(b"PK\x05\x06"));
    assert!(!zip_detect(b"PK\x09\x04"));
    assert!(!zip_detect(b"PK\x03"));
}

#[test]
fn zip_contains_walks_local_headers() {
    let mut v = Vec::new();
    v.extend_from_slice(b"PK\x03\x04");
    v.extend_from_slice(&[0u8; 22]);
    v.extend_from_slice(&5u16.to_le_bytes());
    v.extend_from_slice(&[0u8; 2]);
    v.extend_from_slice(b"a/b.c");
    let paths: Vec<Vec<u8>> = vec![b"a/".to_vec()];
    assert!(zip_contains(&v, &paths));
    let misses: Vec<Vec<u8>> = vec![b"z/".to_vec()];
    assert!(!zip_contains(&v, &misses));
    // A zero name length ends the walk without a match.
    let mut w = Vec::new();
    w.extend_from_slice(b"PK\x03\x04");
    w.extend_from_slice(&[0u8; 26]);
    assert!(!zip_contains(&w, &paths));
}

#[test]
fn ole_clsid_needs_enough_bytes() {
    let clsid = [0x06u8, 0x09, 0x02, 0x00, 0x00, 0x00, 0x00, 0x00];
    let mut v = vec![0u8; 620];
    v[592..600].copy_from_slice(&clsid);
    assert!(match_ole_clsid(&v, &clsid));
    // Shorter than the CLSID window: undetermined, reported as no match.
    assert!(!match_ole_clsid(&v[..600], &clsid));
    assert!(!match_ole_clsid(&v[..400], &clsid));
}

#[test]
fn matroska_probe_reads_vint_width() {
    let mut v = Vec::new();
    v.extend_from_slice(b"\x1A\x45\xDF\xA3\x42\x82");
    v.push(0x40); // two-byte length prefix: doctype starts two bytes later
    v.push(0x00);
    v.extend_from_slice(b"webm");
    assert!(is_matroska_file_type_matched(&v, b"webm"));
    assert!(!is_matroska_file_type_matched(&v, b"matroska"));
    assert!(is_file_type_name_present(&v, b"webm"));
    // Without the EBML magic the container check fails first.
    assert!(!is_matroska_file_type_matched(&v[4..], b"webm"));
}

#[test]
fn trims_and_first_line() {
    assert_eq!(trim_left_ws(b"  \t a b "), &b"a b "[..]);
    assert_eq!(trim_right_ws(b"  a b \n"), &b"  a b"[..]);
    assert_eq!(trim_left_ws(b"   "), &b""[..]);
    assert_eq!(first_line(b"one\ntwo"), &b"one"[..]);
    assert_eq!(first_line(b"plain"), &b"plain"[..]);
}

#[test]
fn ci_check_folds_case_and_requires_a_byte_past_the_signature() {
    assert!(ci_check(b"<?PHP", b"<?PHP x"));
    assert!(ci_check(b"<?PHP", b"<?php x"));
    assert!(ci_check(b"<?PHP", b"<?pHp x"));
    assert!(!ci_check(b"<?PHP", b"<?PHP"));
    assert!(!ci_check(b"<?PHP", b"<?XML x"));
}

#[test]
fn mark_up_check_folds_and_requires_delimiter() {
    assert!(mark_up_check(b"<HTML", b"<html>"));
    assert!(mark_up_check(b"<HTML", b"<HTML more"));
    assert!(!mark_up_check(b"<HTML", b"<htmlx"));
    assert!(!mark_up_check(b"<HTML", b"<html"));
}

#[test]
fn shebang_check_trims_the_interpreter() {
    assert!(shebang_check(b"/bin/sh", b"#! /bin/sh \r"));
    assert!(!shebang_check(b"/bin/sh", b"#/bin/sh"));
    assert!(!shebang_check(b"/bin/sh", b"#!/bin/shx"));
}

#[test]
fn xml_sig_orders_tag_before_namespace() {
    let sig = XmlSig::new(b"svg", b"http://www.w3.org/2000/svg");
    assert!(xml_check(
        &sig,
        b"x<svg xmlns=\"http://www.w3.org/2000/svg\">"
    ));
    assert!(!xml_check(&sig, b"http://www.w3.org/2000/svg then <svg"));
    let ns_only = XmlSig::new(b"", b"urn:x");
    assert!(xml_check(&ns_only, b"a urn:x"));
    // An occurrence at offset zero does not count.
    assert!(!xml_check(&ns_only, b"urn:x"));
}

#[test]
fn empty_detector_accepts_everything() {
    let d = EmptyDetector;
    assert!(d.detect(b"", 0));
    assert!(d.detect(b"anything", 7));
}

#[test]
fn class_or_mach_needs_eight_bytes() {
    assert!(class_or_mach_ofat(b"\xCA\xFE\xBA\xBE\x00\x00\x00\x22"));
    assert!(!class_or_mach_ofat(b"\xCA\xFE\xBA\xBE"));
}

#[test]
fn bom_detection_is_ordered() {
    assert_eq!(from_boom(b"\xEF\xBB\xBFhello"), Some("UTF-8"));
    assert_eq!(from_boom(b"\xFE\xFFx"), Some("UTF-16BE"));
    // The UTF-16LE mark is checked before the UTF-32LE mark that extends it.
    assert_eq!(from_boom(b"\xFF\xFE\x00\x00"), Some("UTF-16LE"));
    assert_eq!(from_boom(b"\x00\x00\xFE\xFFx"), Some("UTF-32BE"));
    assert_eq!(from_boom(b"hi"), None);
}

#[test]
fn json_detector_parses_for_real() {
    assert!(json_detect(b"{\"a\": [1, 2, {\"b\": null}]}"));
    assert!(json_detect(b"  [1, 2, 3]"));
    assert!(!json_detect(b"{\"a\": "));
    assert!(!json_detect(b"true"));
    assert!(!json_detect(b"\"just a string\""));
}

#[test]
fn geojson_heuristic_reads_the_first_type_key() {
    assert!(geojson_detect(b"{\"type\": \"Feature\", \"geometry\": null}"));
    assert!(geojson_detect(b"{ \"type\"  :  \"FeatureCollection\"}"));
    assert!(!geojson_detect(b"{\"type\": \"House\"}"));
    assert!(!geojson_detect(b"[{\"type\": \"Feature\"}]"));
}

#[test]
fn har_heuristic_wants_log_then_known_key() {
    assert!(har_detect(b"{\"log\": {\"version\": \"1.2\"}}"));
    assert!(har_detect(b"{\"log\":{\"creator\":{}}}"));
    assert!(!har_detect(b"{\"log\": {\"other\": 1}}"));
    assert!(!har_detect(b"{\"version\": \"1.2\"}"));
}
