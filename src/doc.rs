//! Office documents: compound-file signatures and package disambiguation.
use vstd::prelude::*;
use crate::kind::Kind;
use crate::scan::{bytes_at, compare_bytes, le_u32, read_u32_le, scan_spec, search};

verus! {

/// The local-file-header marker `PK\x03\x04`.
pub open spec fn zip_marker() -> Seq<u8> {
    seq![0x50u8, 0x4Bu8, 0x03u8, 0x04u8]
}

/// `word/`
pub open spec fn word_dir() -> Seq<u8> {
    seq![0x77u8, 0x6Fu8, 0x72u8, 0x64u8, 0x2Fu8]
}

/// `ppt/`
pub open spec fn ppt_dir() -> Seq<u8> {
    seq![0x70u8, 0x70u8, 0x74u8, 0x2Fu8]
}

/// `xl/`
pub open spec fn xl_dir() -> Seq<u8> {
    seq![0x78u8, 0x6Cu8, 0x2Fu8]
}

/// `[Content_Types].xml`
pub open spec fn content_types_name() -> Seq<u8> {
    seq![
        0x5Bu8, 0x43u8, 0x6Fu8, 0x6Eu8, 0x74u8, 0x65u8, 0x6Eu8, 0x74u8, 0x5Fu8, 0x54u8,
        0x79u8, 0x70u8, 0x65u8, 0x73u8, 0x5Du8, 0x2Eu8, 0x78u8, 0x6Du8, 0x6Cu8,
    ]
}

/// `_rels/.rels`
pub open spec fn rels_name() -> Seq<u8> {
    seq![0x5Fu8, 0x72u8, 0x65u8, 0x6Cu8, 0x73u8, 0x2Fu8, 0x2Eu8, 0x72u8, 0x65u8, 0x6Cu8, 0x73u8]
}

/// Offset of the entry name inside a local file header.
pub const NAME_OFFSET: usize = 30;

/// How far past an estimated position the next header is looked for.
pub const SCAN_WINDOW: usize = 6000;

/// The package subtype named by the entry name at `off`, if any.
pub open spec fn name_kind(b: Seq<u8>, off: int) -> Option<Kind> {
    if bytes_at(b, word_dir(), off) {
        Some(Kind::Docx)
    } else if bytes_at(b, ppt_dir(), off) {
        Some(Kind::Pptx)
    } else if bytes_at(b, xl_dir(), off) {
        Some(Kind::Xlsx)
    } else {
        None
    }
}

/// The first entry is one of the two names that open an office package.
pub open spec fn opens_package(b: Seq<u8>) -> bool {
    bytes_at(b, content_types_name(), 30) || bytes_at(b, rels_name(), 30)
}

/// Where the second header is first looked for: the first entry's compressed
/// size plus 49.
pub open spec fn second_estimate(b: Seq<u8>) -> int {
    le_u32(b[18], b[19], b[20], b[21]) + 49
}

/// A bounded scan from `from`, or nothing when `from` is not a machine offset.
pub open spec fn probe(b: Seq<u8>, from: int) -> Option<int> {
    if from > usize::MAX {
        None
    } else {
        scan_spec(b, from, 6000)
    }
}

/// Resolution at the fourth header, found by scanning from `from`.
pub open spec fn resolve_fourth(b: Seq<u8>, from: int) -> Option<Kind> {
    if from > usize::MAX {
        None
    } else {
        match scan_spec(b, from, 6000) {
            None => Some(Kind::Ooxml),
            Some(p4) => if name_kind(b, p4 + 30) is Some {
                name_kind(b, p4 + 30)
            } else {
                Some(Kind::Ooxml)
            },
        }
    }
}

/// Resolution of a buffer that opens a package: walk to the third header (and the
/// fourth when the third names no subtype).
pub open spec fn resolve_entries(b: Seq<u8>) -> Option<Kind> {
    match probe(b, second_estimate(b)) {
        None => None,
        Some(p2) => match probe(b, p2 + 30) {
            None => None,
            Some(p3) => if name_kind(b, p3 + 30) is Some {
                name_kind(b, p3 + 30)
            } else {
                resolve_fourth(b, p3 + 56)
            },
        },
    }
}

/// The office-package kind of `b`, if it is one.
pub open spec fn msooxml_spec(b: Seq<u8>) -> Option<Kind> {
    if !bytes_at(b, zip_marker(), 0) {
        None
    } else if name_kind(b, 30) is Some {
        name_kind(b, 30)
    } else if !opens_package(b) {
        None
    } else {
        resolve_entries(b)
    }
}

/// The eight-byte compound-file signature `D0 CF 11 E0 A1 B1 1A E1`.
pub open spec fn cfb_spec(b: Seq<u8>) -> bool {
    b.len() > 7 && b[0] == 0xD0 && b[1] == 0xCF && b[2] == 0x11 && b[3] == 0xE0 && b[4] == 0xA1
        && b[5] == 0xB1 && b[6] == 0x1A && b[7] == 0xE1
}

fn is_cfb(buf: &[u8]) -> (r: bool)
    ensures
        r == cfb_spec(buf@),
{
    buf.len() > 7 && buf[0] == 0xD0 && buf[1] == 0xCF && buf[2] == 0x11 && buf[3] == 0xE0
        && buf[4] == 0xA1 && buf[5] == 0xB1 && buf[6] == 0x1A && buf[7] == 0xE1
}

/// Returns whether a buffer is Microsoft Word Document (DOC) data.
pub fn is_doc(buf: &[u8]) -> (r: bool)
    ensures
        r == cfb_spec(buf@),
        buf@.len() < 8 ==> !r,
{
    is_cfb(buf)
}

/// Returns whether a buffer is Microsoft Excel 97-2003 Worksheet (XLS) data.
pub fn is_xls(buf: &[u8]) -> (r: bool)
    ensures
        r == cfb_spec(buf@),
        buf@.len() < 8 ==> !r,
{
    is_cfb(buf)
}

/// Returns whether a buffer is Microsoft PowerPoint 97-2003 Presentation (PPT) data.
pub fn is_ppt(buf: &[u8]) -> (r: bool)
    ensures
        r == cfb_spec(buf@),
        buf@.len() < 8 ==> !r,
{
    is_cfb(buf)
}

/// The package subtype named by the entry name at `offset`, if any.
pub fn check_msooml(buf: &[u8], offset: usize) -> (r: Option<Kind>)
    ensures
        r == name_kind(buf@, offset as int),
{
    let word: [u8; 5] = [0x77, 0x6F, 0x72, 0x64, 0x2F];
    let ppt: [u8; 4] = [0x70, 0x70, 0x74, 0x2F];
    let xl: [u8; 3] = [0x78, 0x6C, 0x2F];
    assert(word@ =~= word_dir());
    assert(ppt@ =~= ppt_dir());
    assert(xl@ =~= xl_dir());
    if compare_bytes(buf, word.as_slice(), offset) {
        Some(Kind::Docx)
    } else if compare_bytes(buf, ppt.as_slice(), offset) {
        Some(Kind::Pptx)
    } else if compare_bytes(buf, xl.as_slice(), offset) {
        Some(Kind::Xlsx)
    } else {
        None
    }
}

/// Resolves a buffer that opens with a local file header to the office
/// package kind it holds, walking the following headers under bounded scans.
pub fn msooxml(buf: &[u8]) -> (r: Option<Kind>)
    ensures
        r == msooxml_spec(buf@),
{
    let signature: [u8; 4] = [0x50, 0x4B, 0x03, 0x04];
    assert(signature@ =~= zip_marker());
    if !compare_bytes(buf, signature.as_slice(), 0) {
        return None;
    }
    let v = check_msooml(buf, NAME_OFFSET);
    if v.is_some() {
        return v;
    }
    let content_types: [u8; 19] = [
        0x5B, 0x43, 0x6F, 0x6E, 0x74, 0x65, 0x6E, 0x74, 0x5F, 0x54, 0x79, 0x70, 0x65, 0x73,
        0x5D, 0x2E, 0x78, 0x6D, 0x6C,
    ];
    let rels: [u8; 11] = [0x5F, 0x72, 0x65, 0x6C, 0x73, 0x2F, 0x2E, 0x72, 0x65, 0x6C, 0x73];
    assert(content_types@ =~= content_types_name());
    assert(rels@ =~= rels_name());
    if !compare_bytes(buf, content_types.as_slice(), NAME_OFFSET) && !compare_bytes(
        buf,
        rels.as_slice(),
        NAME_OFFSET,
    ) {
        return None;
    }
    // Both opening names end past offset 40, so the size field at 18 is present.
    let size = match read_u32_le(buf, 18) {
        Some(s) => s,
        None => return None,
    };
    // The second header follows the first entry's data, possibly after an
    // extra field, so it is searched for from the estimate.
    let start2 = match (size as usize).checked_add(49) {
        Some(s) => s,
        None => return None,
    };
    let p2 = match search(buf, start2, SCAN_WINDOW) {
        Some(p) => p,
        None => return None,
    };
    let start3 = match p2.checked_add(30) {
        Some(s) => s,
        None => return None,
    };
    let p3 = match search(buf, start3, SCAN_WINDOW) {
        Some(p) => p,
        None => return None,
    };
    let name3 = match p3.checked_add(NAME_OFFSET) {
        Some(s) => s,
        None => {
            assert(buf@.len() == buf.len());
            assert(name_kind(buf@, p3 + 30) is None);
            return None;
        },
    };
    let kind3 = check_msooml(buf, name3);
    if kind3.is_some() {
        return kind3;
    }
    // Some producers order the entries differently: try the fourth header.
    let start4 = match name3.checked_add(26) {
        Some(s) => s,
        None => return None,
    };
    let p4 = match search(buf, start4, SCAN_WINDOW) {
        Some(p) => p,
        None => return Some(Kind::Ooxml),
    };
    let name4 = match p4.checked_add(NAME_OFFSET) {
        Some(s) => s,
        None => {
            assert(buf@.len() == buf.len());
            assert(name_kind(buf@, p4 + 30) is None);
            return Some(Kind::Ooxml);
        },
    };
    let kind4 = check_msooml(buf, name4);
    if kind4.is_some() {
        return kind4;
    }
    Some(Kind::Ooxml)
}

/// Returns whether a buffer is Microsoft Word Open XML Format Document (DOCX) data.
pub fn is_docx(buf: &[u8]) -> (r: bool)
    ensures
        r == (msooxml_spec(buf@) == Some(Kind::Docx)),
        buf@.len() < 35 ==> !r,
{
    match msooxml(buf) {
        Some(k) => k == Kind::Docx,
        None => false,
    }
}

/// Returns whether a buffer is Microsoft Excel Open XML Format Spreadsheet (XLSX) data.
pub fn is_xlsx(buf: &[u8]) -> (r: bool)
    ensures
        r == (msooxml_spec(buf@) == Some(Kind::Xlsx)),
        buf@.len() < 33 ==> !r,
{
    match msooxml(buf) {
        Some(k) => k == Kind::Xlsx,
        None => false,
    }
}

/// Returns whether a buffer is Microsoft PowerPoint Open XML Presentation (PPTX) data.
pub fn is_pptx(buf: &[u8]) -> (r: bool)
    ensures
        r == (msooxml_spec(buf@) == Some(Kind::Pptx)),
        buf@.len() < 34 ==> !r,
{
    match msooxml(buf) {
        Some(k) => k == Kind::Pptx,
        None => false,
    }
}

/// A buffer that opens with a local file header, whose first entry names no
/// package subtype and is neither `[Content_Types].xml` nor `_rels/.rels`, is
/// not an office package.
pub proof fn lemma_unknown_first_entry_rejected(b: Seq<u8>)
    requires
        bytes_at(b, zip_marker(), 0),
        name_kind(b, 30) is None,
        !opens_package(b),
    ensures
        msooxml_spec(b) is None,
{
}

/// A first entry whose compressed-size field is `0xFFFFFFFF` points past the
/// end of any buffer under 4 GiB: unless the first entry names a subtype, the
/// buffer is not an office package.
pub proof fn lemma_oversized_first_entry(b: Seq<u8>)
    requires
        22 <= b.len() < 0x1_0000_0000,
        b[18] == 0xFF && b[19] == 0xFF && b[20] == 0xFF && b[21] == 0xFF,
        name_kind(b, 30) is None,
    ensures
        msooxml_spec(b) is None,
{
    assert(le_u32(b[18], b[19], b[20], b[21]) == 0xFFFF_FFFF);
}

/// A buffer that opens a package, whose second and third headers are found,
/// and whose third and fourth entries (the fourth when there is one) name no
/// subtype, resolves to the generic package kind rather than to nothing.
pub proof fn lemma_unresolved_package_is_generic(b: Seq<u8>, p2: int, p3: int)
    requires
        bytes_at(b, zip_marker(), 0),
        name_kind(b, 30) is None,
        opens_package(b),
        probe(b, second_estimate(b)) == Some(p2),
        probe(b, p2 + 30) == Some(p3),
        name_kind(b, p3 + 30) is None,
        p3 + 56 <= usize::MAX,
        scan_spec(b, p3 + 56, 6000) matches Some(p4) ==> name_kind(b, p4 + 30) is None,
    ensures
        msooxml_spec(b) == Some(Kind::Ooxml),
{
}

} // verus!
