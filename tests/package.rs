use infer::doc::{is_doc, is_docx, is_ppt, is_pptx, is_xls, is_xlsx, msooxml};
use infer::kind::Kind;
use infer::registry::Registry;
use infer::scan::{compare_bytes, read_u32_le, search};

/// One local file header with `name` and `data`, declaring `size` as the
/// compressed size.
fn entry_with_size(name: &str, data: &[u8], size: u32) -> Vec<u8> {
    let mut e = vec![0x50, 0x4B, 0x03, 0x04];
    e.extend_from_slice(&[0x14, 0x00, 0x00, 0x00, 0x08, 0x00, 0x00, 0x00, 0x00, 0x00]);
    e.extend_from_slice(&[0x00, 0x00, 0x00, 0x00]);
    e.extend_from_slice(&size.to_le_bytes());
    e.extend_from_slice(&(data.len() as u32).to_le_bytes());
    e.extend_from_slice(&(name.len() as u16).to_le_bytes());
    e.extend_from_slice(&[0x00, 0x00]);
    e.extend_from_slice(name.as_bytes());
    e.extend_from_slice(data);
    e
}

fn entry(name: &str, data: &[u8]) -> Vec<u8> {
    entry_with_size(name, data, data.len() as u32)
}

fn package(names: &[&str]) -> Vec<u8> {
    let mut buf = Vec::new();
    for n in names {
        buf.extend(entry(n, &[0x20u8; 32]));
    }
    buf.extend_from_slice(&[0u8; 64]);
    buf
}

#[test]
fn word_package_resolves_at_third_entry() {
    let buf = package(&["[Content_Types].xml", "_rels/.rels", "word/document.xml"]);
    assert_eq!(msooxml(&buf), Some(Kind::Docx));
    assert!(is_docx(&buf));
    assert!(!is_xlsx(&buf));
    assert!(!is_pptx(&buf));
    let reg = Registry::new();
    let k = reg.detect(&buf).unwrap();
    assert_eq!(k, Kind::Docx);
    assert_eq!(k.mime(), "application/vnd.openxmlformats-officedocument.wordprocessingml.document");
    assert_eq!(k.ext(), "docx");
}

#[test]
fn spreadsheet_package_resolves_at_third_entry() {
    let buf = package(&["[Content_Types].xml", "_rels/.rels", "xl/workbook.xml"]);
    assert!(is_xlsx(&buf));
    let k = Registry::new().detect(&buf).unwrap();
    assert_eq!(k, Kind::Xlsx);
    assert_eq!(k.mime(), "application/vnd.openxmlformats-officedocument.spreadsheetml.sheet");
    assert_eq!(k.ext(), "xlsx");
}

#[test]
fn presentation_package_resolves_at_third_entry() {
    let buf = package(&["[Content_Types].xml", "_rels/.rels", "ppt/presentation.xml"]);
    assert!(is_pptx(&buf));
    let k = Registry::new().detect(&buf).unwrap();
    assert_eq!(k, Kind::Pptx);
    assert_eq!(k.mime(), "application/vnd.openxmlformats-officedocument.presentationml.presentation");
    assert_eq!(k.ext(), "pptx");
}

#[test]
fn subtype_name_in_first_entry_is_resolved_at_once() {
    let buf = package(&["word/document.xml"]);
    assert_eq!(msooxml(&buf), Some(Kind::Docx));
    let buf = package(&["ppt/slides/slide1.xml"]);
    assert_eq!(msooxml(&buf), Some(Kind::Pptx));
    let buf = package(&["xl/styles.xml"]);
    assert_eq!(msooxml(&buf), Some(Kind::Xlsx));
}

#[test]
fn reordered_package_resolves_at_fourth_entry() {
    let buf = package(&[
        "[Content_Types].xml",
        "_rels/.rels",
        "docProps/core.xml",
        "xl/workbook.xml",
    ]);
    assert_eq!(msooxml(&buf), Some(Kind::Xlsx));
    assert_eq!(Registry::new().detect(&buf), Some(Kind::Xlsx));
}

#[test]
fn unrecognised_package_layout_is_generic() {
    let buf = package(&["[Content_Types].xml", "_rels/.rels", "docProps/core.xml", "custom/a.xml"]);
    assert_eq!(msooxml(&buf), Some(Kind::Ooxml));
    let k = Registry::new().detect(&buf).unwrap();
    assert_eq!(k, Kind::Ooxml);
    assert_eq!(k.mime(), "application/zip");
    assert_eq!(k.ext(), "zip");
    assert!(!is_docx(&buf) && !is_xlsx(&buf) && !is_pptx(&buf));
}

#[test]
fn package_without_fourth_header_is_generic() {
    let buf = package(&["[Content_Types].xml", "_rels/.rels", "docProps/core.xml"]);
    assert_eq!(msooxml(&buf), Some(Kind::Ooxml));
}

#[test]
fn package_missing_third_header_is_no_match() {
    let buf = package(&["[Content_Types].xml", "_rels/.rels"]);
    assert_eq!(msooxml(&buf), None);
    let buf = package(&["[Content_Types].xml"]);
    assert_eq!(msooxml(&buf), None);
    assert_eq!(Registry::new().detect(&buf), None);
}

#[test]
fn other_zip_content_is_not_a_package() {
    let buf = package(&["mimetype", "content.xml", "word/document.xml"]);
    assert_eq!(msooxml(&buf), None);
    assert!(!is_docx(&buf));
    assert_eq!(Registry::new().detect(&buf), None);
}

#[test]
fn oversized_compressed_size_is_no_match() {
    let mut buf = entry_with_size("[Content_Types].xml", b"<x/>", 0xFFFF_FFFF);
    buf.extend(entry("_rels/.rels", b""));
    buf.extend(entry("word/document.xml", b""));
    assert_eq!(msooxml(&buf), None);
    assert_eq!(Registry::new().detect(&buf), None);
}

#[test]
fn extra_field_before_second_header_is_skipped_by_scan() {
    let mut buf = entry_with_size("[Content_Types].xml", b"", 0);
    buf.extend_from_slice(&[0u8; 520]);
    buf.extend(entry("_rels/.rels", &[0u8; 300]));
    buf.extend(entry("word/document.xml", b""));
    buf.extend_from_slice(&[0u8; 16]);
    assert_eq!(msooxml(&buf), Some(Kind::Docx));
}

#[test]
fn header_beyond_scan_window_is_no_match() {
    let mut buf = entry_with_size("[Content_Types].xml", b"", 0);
    buf.extend_from_slice(&[0u8; 6000]);
    buf.extend(entry("_rels/.rels", b""));
    buf.extend(entry("word/document.xml", b""));
    assert_eq!(msooxml(&buf), None);
}

#[test]
fn detect_twice_gives_the_same_result() {
    let reg = Registry::new();
    let bufs = vec![
        package(&["[Content_Types].xml", "_rels/.rels", "word/document.xml"]),
        package(&["mimetype"]),
        vec![0xD0, 0xCF, 0x11, 0xE0, 0xA1, 0xB1, 0x1A, 0xE1, 0x00],
        Vec::new(),
    ];
    for b in &bufs {
        assert_eq!(reg.detect(b), reg.detect(b));
    }
}

#[test]
fn short_buffers_match_no_package() {
    let full = package(&["word/document.xml"]);
    for n in 0..35 {
        assert!(!is_docx(&full[..n]));
    }
    assert!(is_docx(&full[..35]));
    let full = package(&["xl/a"]);
    for n in 0..33 {
        assert!(!is_xlsx(&full[..n]));
    }
    assert!(is_xlsx(&full[..33]));
    let full = package(&["ppt/a"]);
    for n in 0..34 {
        assert!(!is_pptx(&full[..n]));
    }
    assert!(is_pptx(&full[..34]));
}

#[test]
fn compound_file_signature() {
    let buf = [0xD0, 0xCF, 0x11, 0xE0, 0xA1, 0xB1, 0x1A, 0xE1];
    assert!(is_doc(&buf) && is_xls(&buf) && is_ppt(&buf));
    assert!(!is_doc(&buf[..7]) && !is_xls(&buf[..7]) && !is_ppt(&buf[..7]));
    let mut bad = buf;
    bad[7] = 0xE2;
    assert!(!is_doc(&bad));
    let k = Registry::new().detect(&buf).unwrap();
    assert_eq!(k, Kind::Doc);
    assert_eq!(k.mime(), "application/msword");
    assert_eq!(k.ext(), "doc");
}

#[test]
fn scanner_returns_absolute_positions() {
    let mut buf = vec![0u8; 10];
    buf.extend_from_slice(&[0x50, 0x4B, 0x03, 0x04]);
    buf.extend_from_slice(&[0u8; 5]);
    assert_eq!(search(&buf, 0, 6000), Some(10));
    assert_eq!(search(&buf, 10, 4), Some(10));
    assert_eq!(search(&buf, 10, 3), None);
    assert_eq!(search(&buf, 11, 6000), None);
    assert_eq!(search(&buf, 0, 13), None);
    assert_eq!(search(&buf, 0, usize::MAX), Some(10));
}

#[test]
fn scanner_rejects_empty_windows() {
    let buf = vec![0x50, 0x4B, 0x03, 0x04];
    assert_eq!(search(&buf, 0, 0), None);
    assert_eq!(search(&buf, 4, 6000), None);
    assert_eq!(search(&buf, usize::MAX, usize::MAX), None);
    assert_eq!(search(&[], 0, 6000), None);
}

#[test]
fn field_reader_is_little_endian_and_bounded() {
    let buf = [0xAA, 0x01, 0x02, 0x03, 0x04];
    assert_eq!(read_u32_le(&buf, 1), Some(0x0403_0201));
    assert_eq!(read_u32_le(&buf, 0), Some(0x0302_01AA));
    assert_eq!(read_u32_le(&buf, 2), None);
    assert_eq!(read_u32_le(&buf, usize::MAX), None);
}

#[test]
fn compare_bytes_bounds() {
    let buf = b"abcdef";
    assert!(compare_bytes(buf, b"cde", 2));
    assert!(compare_bytes(buf, b"", 6));
    assert!(!compare_bytes(buf, b"ef", 5));
    assert!(!compare_bytes(buf, b"cdf", 2));
    assert!(!compare_bytes(buf, b"a", usize::MAX));
}
