//! Independent pure field decoders: the fixed-layout date/time decoder, the
//! fixed-layout rendering-descriptor decoder, and the code-page-aware
//! null-terminated string decoder.
use vstd::prelude::*;

use crate::bytes::le16;
use crate::bytes::le32;
use crate::error::Error;

verus! {

/// A calendar moment decoded from a 14-byte date/time payload.
#[derive(Copy, Clone, Debug, PartialEq, Eq, Structural, Hash)]
pub struct DateTime {
    pub year: u16,
    pub month: u16,
    pub day: u16,
    pub hour: u16,
    pub minute: u16,
    pub second: u16,
}

/// Whether a year is a leap year in the proleptic Gregorian calendar.
pub open spec fn is_leap_year(y: int) -> bool {
    (y % 4 == 0 && y % 100 != 0) || y % 400 == 0
}

/// How many days the given month of the given year has (0 for an invalid
/// month number).
pub open spec fn days_in_month(y: int, m: int) -> int {
    if m == 1 || m == 3 || m == 5 || m == 7 || m == 8 || m == 10 || m == 12 {
        31
    } else if m == 4 || m == 6 || m == 9 || m == 11 {
        30
    } else if m == 2 {
        if is_leap_year(y) {
            29
        } else {
            28
        }
    } else {
        0
    }
}

/// Whether year/month/day name a day of the proleptic Gregorian calendar.
pub open spec fn valid_ymd(y: int, m: int, d: int) -> bool {
    1 <= m <= 12 && 1 <= d <= days_in_month(y, m)
}

/// Whether hour/minute/second name a time of day.
pub open spec fn valid_hms(h: int, m: int, s: int) -> bool {
    0 <= h < 24 && 0 <= m < 60 && 0 <= s < 60
}

/// Whether the fields of a `DateTime` name a valid calendar moment.
pub open spec fn spec_datetime_valid(dt: DateTime) -> bool {
    valid_ymd(dt.year as int, dt.month as int, dt.day as int) && valid_hms(
        dt.hour as int,
        dt.minute as int,
        dt.second as int,
    )
}

/// Relies on chrono's `NaiveDate::from_ymd_opt`: it accepts exactly the
/// valid proleptic-Gregorian calendar dates, and every u16 year lies inside
/// chrono's supported year range.
#[verifier::external_body]
fn calendar_accepts_date(year: u16, month: u16, day: u16) -> (r: bool)
    ensures
        r == valid_ymd(year as int, month as int, day as int),
{
    chrono::naive::NaiveDate::from_ymd_opt(year as i32, month as u32, day as u32).is_some()
}

/// Relies on chrono's `NaiveTime::from_hms_opt`: it accepts exactly the
/// times with hour < 24, minute < 60 and second < 60.
#[verifier::external_body]
fn calendar_accepts_time(hour: u16, minute: u16, second: u16) -> (r: bool)
    ensures
        r == valid_hms(hour as int, minute as int, second as int),
{
    chrono::naive::NaiveTime::from_hms_opt(hour as u32, minute as u32, second as u32).is_some()
}

/// What the date/time decoder returns on a given payload: the payload must be
/// exactly 14 bytes of little-endian year, month, day, hour, minute, second
/// and an ignored day-of-week, and the six fields must name a valid calendar
/// moment.
pub open spec fn spec_parse_datetime(data: Seq<u8>) -> Result<DateTime, Error> {
    if data.len() != 14 {
        Err(Error::InvlidDateTime)
    } else {
        let dt = DateTime {
            year: le16(data, 0),
            month: le16(data, 2),
            day: le16(data, 4),
            hour: le16(data, 6),
            minute: le16(data, 8),
            second: le16(data, 10),
        };
        if spec_datetime_valid(dt) {
            Ok(dt)
        } else {
            Err(Error::InvlidDateTime)
        }
    }
}

/// Decodes a fixed 14-byte date/time payload.
pub fn parse_datetime(data: &[u8]) -> (r: Result<DateTime, Error>)
    ensures
        r == spec_parse_datetime(data@),
{
    if data.len() != 14 {
        return Err(Error::InvlidDateTime);
    }
    let dt = DateTime {
        year: read_le16(data, 0),
        month: read_le16(data, 2),
        day: read_le16(data, 4),
        hour: read_le16(data, 6),
        minute: read_le16(data, 8),
        second: read_le16(data, 10),
    };
    if calendar_accepts_date(dt.year, dt.month, dt.day) && calendar_accepts_time(
        dt.hour,
        dt.minute,
        dt.second,
    ) {
        Ok(dt)
    } else {
        Err(Error::InvlidDateTime)
    }
}

/// Reads the 16-bit little-endian value at offset `i` of a slice.
pub fn read_le16(data: &[u8], i: usize) -> (r: u16)
    requires
        i + 2 <= data@.len(),
    ensures
        r == le16(data@, i as int),
{
    // the slice length fits in usize, so the offsets below cannot overflow
    let _n: usize = data.len();
    let b0 = *vstd::slice::slice_index_get(data, i);
    let b1 = *vstd::slice::slice_index_get(data, i + 1);
    b0 as u16 + b1 as u16 * 0x100
}

/// Reads the 32-bit little-endian value at offset `i` of a slice.
pub fn read_le32(data: &[u8], i: usize) -> (r: u32)
    requires
        i + 4 <= data@.len(),
    ensures
        r == le32(data@, i as int),
{
    // the slice length fits in usize, so the offsets below cannot overflow
    let _n: usize = data.len();
    let b0 = *vstd::slice::slice_index_get(data, i);
    let b1 = *vstd::slice::slice_index_get(data, i + 1);
    let b2 = *vstd::slice::slice_index_get(data, i + 2);
    let b3 = *vstd::slice::slice_index_get(data, i + 3);
    b0 as u32 + b1 as u32 * 0x100 + b2 as u32 * 0x10000 + b3 as u32 * 0x1000000
}

/// Attachment type.
#[derive(Copy, Clone, Eq, PartialEq, Structural, Hash, Debug)]
pub enum AttachType {
    File,
    Ole,
}

/// Attachment data flags.
#[derive(Copy, Clone, Eq, PartialEq, Structural, Hash, Debug)]
pub enum AttachDataFlags {
    FileDataDefault,
    FileDataMacBinary,
}

/// Attachment rendering data: how an attachment should be presented.
#[derive(Copy, Clone, Eq, PartialEq, Structural, Hash, Debug)]
pub struct RendData {
    pub attach_type: AttachType,
    pub attach_position: u32,
    pub render_width: u16,
    pub render_height: u16,
    pub flags: AttachDataFlags,
}

/// What the rendering-descriptor decoder returns on a given payload: exactly
/// 14 bytes, whose type and flags words must each match one of their two
/// enumerated encodings.
pub open spec fn spec_parse_rend(data: Seq<u8>) -> Result<RendData, Error> {
    if data.len() != 14 {
        Err(Error::InvalidRendData)
    } else {
        let ty = le16(data, 0);
        let fl = le32(data, 10);
        if ty != 1 && ty != 2 {
            Err(Error::InvalidRendData)
        } else if fl != 0 && fl != 1 {
            Err(Error::InvalidRendData)
        } else {
            Ok(
                RendData {
                    attach_type: if ty == 1 {
                        AttachType::File
                    } else {
                        AttachType::Ole
                    },
                    attach_position: le32(data, 2),
                    render_width: le16(data, 6),
                    render_height: le16(data, 8),
                    flags: if fl == 0 {
                        AttachDataFlags::FileDataDefault
                    } else {
                        AttachDataFlags::FileDataMacBinary
                    },
                },
            )
        }
    }
}

impl RendData {
    /// Decodes a fixed 14-byte rendering-descriptor payload.
    pub fn parse(data: &[u8]) -> (r: Result<Self, Error>)
        ensures
            r == spec_parse_rend(data@),
    {
        if data.len() != 14 {
            return Err(Error::InvalidRendData);
        }
        let attach_type = match read_le16(data, 0) {
            0x0001 => AttachType::File,
            0x0002 => AttachType::Ole,
            _ => {
                return Err(Error::InvalidRendData);
            },
        };
        let attach_position = read_le32(data, 2);
        let render_width = read_le16(data, 6);
        let render_height = read_le16(data, 8);
        let flags = match read_le32(data, 10) {
            0x0000_0000 => AttachDataFlags::FileDataDefault,
            0x0000_0001 => AttachDataFlags::FileDataMacBinary,
            _ => {
                return Err(Error::InvalidRendData);
            },
        };
        Ok(Self { attach_type, attach_position, render_width, render_height, flags })
    }
}

/// Whether the resolver's table has a text encoding for the code page.
pub uninterp spec fn cp_supported(cp: u16) -> bool;

/// The text that the resolved encoding decodes the bytes to, with the
/// byte-order mark removed, or `None` if some byte sequence is malformed
/// under that encoding. For a supported code page the result is a function of
/// the bytes alone.
pub uninterp spec fn decoded_text(cp: u16, bytes: Seq<u8>) -> Option<Seq<char>>;

/// Relies on `codepage::to_encoding`: a fixed table decides which code pages
/// resolve to a text encoding.
#[verifier::external_body]
pub(crate) fn codepage_lookup(cp: u16) -> (r: bool)
    ensures
        r == cp_supported(cp),
{
    codepage::to_encoding(cp).is_some()
}

/// Relies on `codepage::to_encoding` and on encoding_rs's
/// `Encoding::decode_with_bom_removal`: the decode strips a leading
/// byte-order mark, reports malformed sequences through its flag, and its
/// text depends on the encoding and the bytes alone.
#[verifier::external_body]
fn decode_codepage_bytes(cp: u16, bytes: &[u8]) -> (r: Option<String>)
    ensures
        (match r {
            Some(s) => cp_supported(cp) && decoded_text(cp, bytes@) == Some(s@),
            None => !(cp_supported(cp) && decoded_text(cp, bytes@) is Some),
        }),
{
    match codepage::to_encoding(cp) {
        Some(enc) => {
            let (text, malformed) = enc.decode_with_bom_removal(bytes);
            if malformed {
                None
            } else {
                Some(text.into_owned())
            }
        },
        None => None,
    }
}

/// What the string decoder returns on a given payload and code page: the
/// payload must be non-empty and end with a single zero terminator, which is
/// stripped; the rest must decode cleanly under the code page's encoding.
pub open spec fn spec_parse_string(data: Seq<u8>, code_page: u32) -> Result<Seq<char>, Error> {
    if data.len() == 0 || data.last() != 0 {
        Err(Error::InvalidString)
    } else if !cp_supported(code_page as u16) {
        Err(Error::InvalidString)
    } else {
        match decoded_text(code_page as u16, data.drop_last()) {
            Some(text) => Ok(text),
            None => Err(Error::InvalidString),
        }
    }
}

/// Decodes a null-terminated string payload under the active code page.
pub fn parse_string(data: &[u8], code_page: u32) -> (r: Result<String, Error>)
    ensures
        (match spec_parse_string(data@, code_page) {
            Ok(text) => r matches Ok(s) && s@ == text,
            Err(e) => r == Err::<String, Error>(e),
        }),
{
    let n = data.len();
    if n == 0 || *vstd::slice::slice_index_get(data, n - 1) != 0x00 {
        return Err(Error::InvalidString);
    }
    let body = vstd::slice::slice_subrange(data, 0, n - 1);
    proof {
        assert(body@ =~= data@.drop_last());
    }
    match decode_codepage_bytes(code_page as u16, body) {
        Some(s) => Ok(s),
        None => Err(Error::InvalidString),
    }
}

} // verus!
