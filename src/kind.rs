//! The closed set of content kinds that detection can report.
use vstd::prelude::*;

verus! {

/// A detected content kind, each with a fixed MIME type and extension.
#[derive(Clone, Copy, Debug, PartialEq, Eq, Structural)]
pub enum Kind {
    /// Compound-file Word document.
    Doc,
    /// Word-processing package.
    Docx,
    /// Compound-file Excel worksheet.
    Xls,
    /// Spreadsheet package.
    Xlsx,
    /// Compound-file PowerPoint presentation.
    Ppt,
    /// Presentation package.
    Pptx,
    /// A package of the office family whose subtype could not be resolved.
    Ooxml,
    M4v,
    Mkv,
    Webm,
    Mov,
    Avi,
    Wmv,
    Mpeg,
    Flv,
    Mp4,
}

/// The MIME type reported for `k`.
pub open spec fn mime_of(k: Kind) -> Seq<char> {
    match k {
        Kind::Doc => "application/msword"@,
        Kind::Docx => "application/vnd.openxmlformats-officedocument.wordprocessingml.document"@,
        Kind::Xls => "application/vnd.ms-excel"@,
        Kind::Xlsx => "application/vnd.openxmlformats-officedocument.spreadsheetml.sheet"@,
        Kind::Ppt => "application/vnd.ms-powerpoint"@,
        Kind::Pptx => "application/vnd.openxmlformats-officedocument.presentationml.presentation"@,
        Kind::Ooxml => "application/zip"@,
        Kind::M4v => "video/x-m4v"@,
        Kind::Mkv => "video/x-matroska"@,
        Kind::Webm => "video/webm"@,
        Kind::Mov => "video/quicktime"@,
        Kind::Avi => "video/x-msvideo"@,
        Kind::Wmv => "video/x-ms-wmv"@,
        Kind::Mpeg => "video/mpeg"@,
        Kind::Flv => "video/x-flv"@,
        Kind::Mp4 => "video/mp4"@,
    }
}

/// The file extension reported for `k`.
pub open spec fn ext_of(k: Kind) -> Seq<char> {
    match k {
        Kind::Doc => "doc"@,
        Kind::Docx => "docx"@,
        Kind::Xls => "xls"@,
        Kind::Xlsx => "xlsx"@,
        Kind::Ppt => "ppt"@,
        Kind::Pptx => "pptx"@,
        Kind::Ooxml => "zip"@,
        Kind::M4v => "m4v"@,
        Kind::Mkv => "mkv"@,
        Kind::Webm => "webm"@,
        Kind::Mov => "mov"@,
        Kind::Avi => "avi"@,
        Kind::Wmv => "wmv"@,
        Kind::Mpeg => "mpg"@,
        Kind::Flv => "flv"@,
        Kind::Mp4 => "mp4"@,
    }
}

impl Kind {
    /// The kind's MIME type.
    pub fn mime(&self) -> (r: &'static str)
        ensures
            r@ == mime_of(*self),
    {
        match self {
            Kind::Doc => "application/msword",
            Kind::Docx => "application/vnd.openxmlformats-officedocument.wordprocessingml.document",
            Kind::Xls => "application/vnd.ms-excel",
            Kind::Xlsx => "application/vnd.openxmlformats-officedocument.spreadsheetml.sheet",
            Kind::Ppt => "application/vnd.ms-powerpoint",
            Kind::Pptx => "application/vnd.openxmlformats-officedocument.presentationml.presentation",
            Kind::Ooxml => "application/zip",
            Kind::M4v => "video/x-m4v",
            Kind::Mkv => "video/x-matroska",
            Kind::Webm => "video/webm",
            Kind::Mov => "video/quicktime",
            Kind::Avi => "video/x-msvideo",
            Kind::Wmv => "video/x-ms-wmv",
            Kind::Mpeg => "video/mpeg",
            Kind::Flv => "video/x-flv",
            Kind::Mp4 => "video/mp4",
        }
    }

    /// The kind's usual file extension.
    pub fn ext(&self) -> (r: &'static str)
        ensures
            r@ == ext_of(*self),
    {
        match self {
            Kind::Doc => "doc",
            Kind::Docx => "docx",
            Kind::Xls => "xls",
            Kind::Xlsx => "xlsx",
            Kind::Ppt => "ppt",
            Kind::Pptx => "pptx",
            Kind::Ooxml => "zip",
            Kind::M4v => "m4v",
            Kind::Mkv => "mkv",
            Kind::Webm => "webm",
            Kind::Mov => "mov",
            Kind::Avi => "avi",
            Kind::Wmv => "wmv",
            Kind::Mpeg => "mpg",
            Kind::Flv => "flv",
            Kind::Mp4 => "mp4",
        }
    }
}

} // verus!
