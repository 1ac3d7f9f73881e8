//! Magnitudes of the negative status codes that FFmpeg reports.
//!
//! The POSIX codes are those of Linux.  FFmpeg's own codes are four-character
//! tags: the tag `(a, b, c, d)` is the number `a | b << 8 | c << 16 | d << 24`,
//! written out here in hexadecimal.
use vstd::prelude::*;

verus! {

pub const EAGAIN: u32 = 11;
pub const EBUSY: u32 = 16;
pub const ECONNREFUSED: u32 = 111;
pub const ETIMEDOUT: u32 = 110;
pub const EDOM: u32 = 33;
pub const EFBIG: u32 = 27;
pub const EINVAL: u32 = 22;
pub const ENODEV: u32 = 19;
pub const ENOENT: u32 = 2;
pub const ENOSYS: u32 = 38;
pub const EPROTONOSUPPORT: u32 = 93;

/// Tag `(0xF8, 'B', 'S', 'F')`.
pub const AVERROR_BSF_NOT_FOUND: u32 = 0x4653_42F8;
/// Tag `('B', 'U', 'G', '!')`.
pub const AVERROR_BUG: u32 = 0x2147_5542;
/// Tag `('B', 'U', 'F', 'S')`.
pub const AVERROR_BUFFER_TOO_SMALL: u32 = 0x5346_5542;
/// Tag `(0xF8, 'D', 'E', 'C')`.
pub const AVERROR_DECODER_NOT_FOUND: u32 = 0x4345_44F8;
/// Tag `(0xF8, 'D', 'E', 'M')`.
pub const AVERROR_DEMUXER_NOT_FOUND: u32 = 0x4D45_44F8;
/// Tag `(0xF8, 'E', 'N', 'C')`.
pub const AVERROR_ENCODER_NOT_FOUND: u32 = 0x434E_45F8;
/// Tag `('E', 'O', 'F', ' ')`.
pub const AVERROR_EOF: u32 = 0x2046_4F45;
/// Tag `('E', 'X', 'I', 'T')`.
pub const AVERROR_EXIT: u32 = 0x5449_5845;
/// Tag `('E', 'X', 'T', ' ')`.
pub const AVERROR_EXTERNAL: u32 = 0x2054_5845;
/// Tag `(0xF8, 'F', 'I', 'L')`.
pub const AVERROR_FILTER_NOT_FOUND: u32 = 0x4C49_46F8;
/// Tag `('I', 'N', 'D', 'A')`.
pub const AVERROR_INVALIDDATA: u32 = 0x4144_4E49;
/// Tag `(0xF8, 'M', 'U', 'X')`.
pub const AVERROR_MUXER_NOT_FOUND: u32 = 0x5855_4DF8;
/// Tag `(0xF8, 'O', 'P', 'T')`.
pub const AVERROR_OPTION_NOT_FOUND: u32 = 0x5450_4FF8;
/// Tag `('P', 'A', 'W', 'E')`.
pub const AVERROR_PATCHWELCOME: u32 = 0x4557_4150;
/// Tag `(0xF8, 'P', 'R', 'O')`.
pub const AVERROR_PROTOCOL_NOT_FOUND: u32 = 0x4F52_50F8;
/// Tag `(0xF8, 'S', 'T', 'R')`.
pub const AVERROR_STREAM_NOT_FOUND: u32 = 0x5254_53F8;
/// Tag `('B', 'U', 'G', ' ')`.
pub const AVERROR_BUG2: u32 = 0x2047_5542;
/// Tag `('U', 'N', 'K', 'N')`.
pub const AVERROR_UNKNOWN: u32 = 0x4E4B_4E55;
pub const AVERROR_EXPERIMENTAL: u32 = 0x2BB2_AFA8;
pub const AVERROR_INPUT_CHANGED: u32 = 0x636E_6701;
pub const AVERROR_OUTPUT_CHANGED: u32 = 0x636E_6702;
/// Tag `(0xF8, '4', '0', '0')`.
pub const AVERROR_HTTP_BAD_REQUEST: u32 = 0x3030_34F8;
/// Tag `(0xF8, '4', '0', '1')`.
pub const AVERROR_HTTP_UNAUTHORIZED: u32 = 0x3130_34F8;
/// Tag `(0xF8, '4', '0', '3')`.
pub const AVERROR_HTTP_FORBIDDEN: u32 = 0x3330_34F8;
/// Tag `(0xF8, '4', '0', '4')`.
pub const AVERROR_HTTP_NOT_FOUND: u32 = 0x3430_34F8;
/// Tag `(0xF8, '4', 'X', 'X')`.
pub const AVERROR_HTTP_OTHER_4XX: u32 = 0x5858_34F8;
/// Tag `(0xF8, '5', 'X', 'X')`.
pub const AVERROR_HTTP_SERVER_ERROR: u32 = 0x5858_35F8;

} // verus!
