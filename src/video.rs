//! Video container signatures at fixed offsets.
use vstd::prelude::*;

verus! {

/// M4V video data.
pub open spec fn m4v_spec(b: Seq<u8>) -> bool {
    b.len() > 10 && b[4] == 0x66 && b[5] == 0x74 && b[6] == 0x79 && b[7] == 0x70 && b[8] == 0x4D
        && b[9] == 0x34 && b[10] == 0x56
}

/// Returns whether a buffer is M4V video data.
pub fn is_m4v(buf: &[u8]) -> (r: bool)
    ensures
        r == m4v_spec(buf@),
        buf@.len() < 11 ==> !r,
{
    buf.len() > 10 && buf[4] == 0x66 && buf[5] == 0x74 && buf[6] == 0x79 && buf[7] == 0x70
        && buf[8] == 0x4D && buf[9] == 0x34 && buf[10] == 0x56
}

/// MKV video data.
pub open spec fn mkv_spec(b: Seq<u8>) -> bool {
    (b.len() > 15 && b[0] == 0x1A && b[1] == 0x45 && b[2] == 0xDF && b[3] == 0xA3 && b[4] == 0x93
        && b[5] == 0x42 && b[6] == 0x82 && b[7] == 0x88 && b[8] == 0x6D && b[9] == 0x61
        && b[10] == 0x74 && b[11] == 0x72 && b[12] == 0x6F && b[13] == 0x73 && b[14] == 0x6B
        && b[15] == 0x61) || (b.len() > 38 && b[31] == 0x6D && b[32] == 0x61 && b[33] == 0x74
        && b[34] == 0x72 && b[35] == 0x6F && b[36] == 0x73 && b[37] == 0x6B && b[38] == 0x61)
}

/// Returns whether a buffer is MKV video data.
pub fn is_mkv(buf: &[u8]) -> (r: bool)
    ensures
        r == mkv_spec(buf@),
        buf@.len() < 16 ==> !r,
{
    (buf.len() > 15 && buf[0] == 0x1A && buf[1] == 0x45 && buf[2] == 0xDF && buf[3] == 0xA3
        && buf[4] == 0x93 && buf[5] == 0x42 && buf[6] == 0x82 && buf[7] == 0x88 && buf[8] == 0x6D
        && buf[9] == 0x61 && buf[10] == 0x74 && buf[11] == 0x72 && buf[12] == 0x6F
        && buf[13] == 0x73 && buf[14] == 0x6B && buf[15] == 0x61) || (buf.len() > 38
        && buf[31] == 0x6D && buf[32] == 0x61 && buf[33] == 0x74 && buf[34] == 0x72
        && buf[35] == 0x6F && buf[36] == 0x73 && buf[37] == 0x6B && buf[38] == 0x61)
}

/// WEBM video data.
pub open spec fn webm_spec(b: Seq<u8>) -> bool {
    b.len() > 3 && b[0] == 0x1A && b[1] == 0x45 && b[2] == 0xDF && b[3] == 0xA3
}

/// Returns whether a buffer is WEBM video data.
pub fn is_webm(buf: &[u8]) -> (r: bool)
    ensures
        r == webm_spec(buf@),
        buf@.len() < 4 ==> !r,
{
    buf.len() > 3 && buf[0] == 0x1A && buf[1] == 0x45 && buf[2] == 0xDF && buf[3] == 0xA3
}

/// Quicktime MOV video data.
pub open spec fn mov_spec(b: Seq<u8>) -> bool {
    b.len() > 15 && ((b[0] == 0x00 && b[1] == 0x00 && b[2] == 0x00 && b[3] == 0x14 && b[4] == 0x66
        && b[5] == 0x74 && b[6] == 0x79 && b[7] == 0x70) || (b[4] == 0x6D && b[5] == 0x6F
        && b[6] == 0x6F && b[7] == 0x76) || (b[4] == 0x6D && b[5] == 0x64 && b[6] == 0x61
        && b[7] == 0x74) || (b[12] == 0x6D && b[13] == 0x64 && b[14] == 0x61 && b[15] == 0x74))
}

/// Returns whether a buffer is Quicktime MOV video data.
pub fn is_mov(buf: &[u8]) -> (r: bool)
    ensures
        r == mov_spec(buf@),
        buf@.len() < 16 ==> !r,
{
    buf.len() > 15 && ((buf[0] == 0x00 && buf[1] == 0x00 && buf[2] == 0x00 && buf[3] == 0x14
        && buf[4] == 0x66 && buf[5] == 0x74 && buf[6] == 0x79 && buf[7] == 0x70) || (buf[4] == 0x6D
        && buf[5] == 0x6F && buf[6] == 0x6F && buf[7] == 0x76) || (buf[4] == 0x6D && buf[5] == 0x64
        && buf[6] == 0x61 && buf[7] == 0x74) || (buf[12] == 0x6D && buf[13] == 0x64
        && buf[14] == 0x61 && buf[15] == 0x74))
}

/// AVI video data.
pub open spec fn avi_spec(b: Seq<u8>) -> bool {
    b.len() > 10 && b[0] == 0x52 && b[1] == 0x49 && b[2] == 0x46 && b[3] == 0x46 && b[8] == 0x41
        && b[9] == 0x56 && b[10] == 0x49
}

/// Returns whether a buffer is AVI video data.
pub fn is_avi(buf: &[u8]) -> (r: bool)
    ensures
        r == avi_spec(buf@),
        buf@.len() < 11 ==> !r,
{
    buf.len() > 10 && buf[0] == 0x52 && buf[1] == 0x49 && buf[2] == 0x46 && buf[3] == 0x46
        && buf[8] == 0x41 && buf[9] == 0x56 && buf[10] == 0x49
}

/// WMV video data.
pub open spec fn wmv_spec(b: Seq<u8>) -> bool {
    b.len() > 9 && b[0] == 0x30 && b[1] == 0x26 && b[2] == 0xB2 && b[3] == 0x75 && b[4] == 0x8E
        && b[5] == 0x66 && b[6] == 0xCF && b[7] == 0x11 && b[8] == 0xA6 && b[9] == 0xD9
}

/// Returns whether a buffer is WMV video data.
pub fn is_wmv(buf: &[u8]) -> (r: bool)
    ensures
        r == wmv_spec(buf@),
        buf@.len() < 10 ==> !r,
{
    buf.len() > 9 && buf[0] == 0x30 && buf[1] == 0x26 && buf[2] == 0xB2 && buf[3] == 0x75
        && buf[4] == 0x8E && buf[5] == 0x66 && buf[6] == 0xCF && buf[7] == 0x11 && buf[8] == 0xA6
        && buf[9] == 0xD9
}

/// MPEG video data.
pub open spec fn mpeg_spec(b: Seq<u8>) -> bool {
    b.len() > 3 && b[0] == 0x00 && b[1] == 0x00 && b[2] == 0x01 && b[3] >= 0xB0 && b[3] <= 0xBF
}

/// Returns whether a buffer is MPEG video data.
pub fn is_mpeg(buf: &[u8]) -> (r: bool)
    ensures
        r == mpeg_spec(buf@),
        buf@.len() < 4 ==> !r,
{
    buf.len() > 3 && buf[0] == 0x00 && buf[1] == 0x00 && buf[2] == 0x01 && buf[3] >= 0xB0
        && buf[3] <= 0xBF
}

/// FLV video data.
pub open spec fn flv_spec(b: Seq<u8>) -> bool {
    b.len() > 3 && b[0] == 0x46 && b[1] == 0x4C && b[2] == 0x56 && b[3] == 0x01
}

/// Returns whether a buffer is FLV video data.
pub fn is_flv(buf: &[u8]) -> (r: bool)
    ensures
        r == flv_spec(buf@),
        buf@.len() < 4 ==> !r,
{
    buf.len() > 3 && buf[0] == 0x46 && buf[1] == 0x4C && buf[2] == 0x56 && buf[3] == 0x01
}

/// The major brand at bytes 8..12 is one of those that MP4 files carry.
pub open spec fn mp4_brand(b: Seq<u8>) -> bool {
    (b[8] == 0x61 && b[9] == 0x76 && b[10] == 0x63 && b[11] == 0x31)  // "avc1"
        || (b[8] == 0x64 && b[9] == 0x61 && b[10] == 0x73 && b[11] == 0x68)  // "dash"
        || (b[8] == 0x69 && b[9] == 0x73 && b[10] == 0x6F && b[11] == 0x32)  // "iso2"
        || (b[8] == 0x69 && b[9] == 0x73 && b[10] == 0x6F && b[11] == 0x33)  // "iso3"
        || (b[8] == 0x69 && b[9] == 0x73 && b[10] == 0x6F && b[11] == 0x34)  // "iso4"
        || (b[8] == 0x69 && b[9] == 0x73 && b[10] == 0x6F && b[11] == 0x35)  // "iso5"
        || (b[8] == 0x69 && b[9] == 0x73 && b[10] == 0x6F && b[11] == 0x36)  // "iso6"
        || (b[8] == 0x69 && b[9] == 0x73 && b[10] == 0x6F && b[11] == 0x6D)  // "isom"
        || (b[8] == 0x6D && b[9] == 0x6D && b[10] == 0x70 && b[11] == 0x34)  // "mmp4"
        || (b[8] == 0x6D && b[9] == 0x70 && b[10] == 0x34 && b[11] == 0x31)  // "mp41"
        || (b[8] == 0x6D && b[9] == 0x70 && b[10] == 0x34 && b[11] == 0x32)  // "mp42"
        || (b[8] == 0x6D && b[9] == 0x70 && b[10] == 0x34 && b[11] == 0x76)  // "mp4v"
        || (b[8] == 0x6D && b[9] == 0x70 && b[10] == 0x37 && b[11] == 0x31)  // "mp71"
        || (b[8] == 0x4D && b[9] == 0x53 && b[10] == 0x4E && b[11] == 0x56)  // "MSNV"
        || (b[8] == 0x4E && b[9] == 0x44 && b[10] == 0x41 && b[11] == 0x53)  // "NDAS"
        || (b[8] == 0x4E && b[9] == 0x44 && b[10] == 0x53 && b[11] == 0x43)  // "NDSC"
        || (b[8] == 0x4E && b[9] == 0x53 && b[10] == 0x44 && b[11] == 0x43)  // "NSDC"
        || (b[8] == 0x4E && b[9] == 0x44 && b[10] == 0x53 && b[11] == 0x48)  // "NDSH"
        || (b[8] == 0x4E && b[9] == 0x44 && b[10] == 0x53 && b[11] == 0x4D)  // "NDSM"
        || (b[8] == 0x4E && b[9] == 0x44 && b[10] == 0x53 && b[11] == 0x50)  // "NDSP"
        || (b[8] == 0x4E && b[9] == 0x44 && b[10] == 0x53 && b[11] == 0x53)  // "NDSS"
        || (b[8] == 0x4E && b[9] == 0x44 && b[10] == 0x58 && b[11] == 0x43)  // "NDXC"
        || (b[8] == 0x4E && b[9] == 0x44 && b[10] == 0x58 && b[11] == 0x48)  // "NDXH"
        || (b[8] == 0x4E && b[9] == 0x44 && b[10] == 0x58 && b[11] == 0x4D)  // "NDXM"
        || (b[8] == 0x4E && b[9] == 0x44 && b[10] == 0x58 && b[11] == 0x50)  // "NDXP"
        || (b[8] == 0x4E && b[9] == 0x44 && b[10] == 0x58 && b[11] == 0x53)  // "NDXS"
        || (b[8] == 0x46 && b[9] == 0x34 && b[10] == 0x56 && b[11] == 0x20)  // "F4V "
        || (b[8] == 0x46 && b[9] == 0x34 && b[10] == 0x50 && b[11] == 0x20)  // "F4P "
}

/// MP4 video data.
pub open spec fn mp4_spec(b: Seq<u8>) -> bool {
    b.len() > 11 && b[4] == 0x66 && b[5] == 0x74 && b[6] == 0x79 && b[7] == 0x70 && mp4_brand(b)
}

/// Returns whether a buffer is MP4 video data.
pub fn is_mp4(buf: &[u8]) -> (r: bool)
    ensures
        r == mp4_spec(buf@),
        buf@.len() < 12 ==> !r,
{
    buf.len() > 11 && buf[4] == 0x66 && buf[5] == 0x74 && buf[6] == 0x79 && buf[7] == 0x70 && (
    (buf[8] == 0x61 && buf[9] == 0x76 && buf[10] == 0x63 && buf[11] == 0x31)  // "avc1"
            || (buf[8] == 0x64 && buf[9] == 0x61 && buf[10] == 0x73 && buf[11] == 0x68)  // "dash"
            || (buf[8] == 0x69 && buf[9] == 0x73 && buf[10] == 0x6F && buf[11] == 0x32)  // "iso2"
            || (buf[8] == 0x69 && buf[9] == 0x73 && buf[10] == 0x6F && buf[11] == 0x33)  // "iso3"
            || (buf[8] == 0x69 && buf[9] == 0x73 && buf[10] == 0x6F && buf[11] == 0x34)  // "iso4"
            || (buf[8] == 0x69 && buf[9] == 0x73 && buf[10] == 0x6F && buf[11] == 0x35)  // "iso5"
            || (buf[8] == 0x69 && buf[9] == 0x73 && buf[10] == 0x6F && buf[11] == 0x36)  // "iso6"
            || (buf[8] == 0x69 && buf[9] == 0x73 && buf[10] == 0x6F && buf[11] == 0x6D)  // "isom"
            || (buf[8] == 0x6D && buf[9] == 0x6D && buf[10] == 0x70 && buf[11] == 0x34)  // "mmp4"
            || (buf[8] == 0x6D && buf[9] == 0x70 && buf[10] == 0x34 && buf[11] == 0x31)  // "mp41"
            || (buf[8] == 0x6D && buf[9] == 0x70 && buf[10] == 0x34 && buf[11] == 0x32)  // "mp42"
            || (buf[8] == 0x6D && buf[9] == 0x70 && buf[10] == 0x34 && buf[11] == 0x76)  // "mp4v"
            || (buf[8] == 0x6D && buf[9] == 0x70 && buf[10] == 0x37 && buf[11] == 0x31)  // "mp71"
            || (buf[8] == 0x4D && buf[9] == 0x53 && buf[10] == 0x4E && buf[11] == 0x56)  // "MSNV"
            || (buf[8] == 0x4E && buf[9] == 0x44 && buf[10] == 0x41 && buf[11] == 0x53)  // "NDAS"
            || (buf[8] == 0x4E && buf[9] == 0x44 && buf[10] == 0x53 && buf[11] == 0x43)  // "NDSC"
            || (buf[8] == 0x4E && buf[9] == 0x53 && buf[10] == 0x44 && buf[11] == 0x43)  // "NSDC"
            || (buf[8] == 0x4E && buf[9] == 0x44 && buf[10] == 0x53 && buf[11] == 0x48)  // "NDSH"
            || (buf[8] == 0x4E && buf[9] == 0x44 && buf[10] == 0x53 && buf[11] == 0x4D)  // "NDSM"
            || (buf[8] == 0x4E && buf[9] == 0x44 && buf[10] == 0x53 && buf[11] == 0x50)  // "NDSP"
            || (buf[8] == 0x4E && buf[9] == 0x44 && buf[10] == 0x53 && buf[11] == 0x53)  // "NDSS"
            || (buf[8] == 0x4E && buf[9] == 0x44 && buf[10] == 0x58 && buf[11] == 0x43)  // "NDXC"
            || (buf[8] == 0x4E && buf[9] == 0x44 && buf[10] == 0x58 && buf[11] == 0x48)  // "NDXH"
            || (buf[8] == 0x4E && buf[9] == 0x44 && buf[10] == 0x58 && buf[11] == 0x4D)  // "NDXM"
            || (buf[8] == 0x4E && buf[9] == 0x44 && buf[10] == 0x58 && buf[11] == 0x50)  // "NDXP"
            || (buf[8] == 0x4E && buf[9] == 0x44 && buf[10] == 0x58 && buf[11] == 0x53)  // "NDXS"
            || (buf[8] == 0x46 && buf[9] == 0x34 && buf[10] == 0x56 && buf[11] == 0x20)  // "F4V "
            || (buf[8] == 0x46 && buf[9] == 0x34 && buf[10] == 0x50 && buf[11] == 0x20))  // "F4P "
}

} // verus!
