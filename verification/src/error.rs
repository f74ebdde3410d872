//! Error kinds surfaced by the decoder. Every error is terminal for the
//! current decode call: no partial results are handed back.
use vstd::prelude::*;

verus! {

/// The ways a decode can fail.
#[derive(Copy, Clone, Debug, PartialEq, Eq, Structural, Hash)]
pub enum Error {
    /// The leading magic constant is wrong.
    InvalidHeader,
    /// The fixed version record is wrong.
    InvalidVersion,
    /// The code-page record's framing or payload is wrong, or the code page
    /// is not a supported text encoding.
    InvalidOemCodePage,
    /// A message-level record appeared after the attachment section began.
    UnexpectedMessageAttribute,
    /// A record's trailing checksum does not equal the wrapping 16-bit sum of
    /// its payload bytes.
    ChecksumMismatch,
    /// A record's level byte is neither 1 nor 2.
    InvalidAttributeLevel(u8),
    /// An identifier code that is not a known message-section identifier.
    InvalidMessageId(u32),
    /// An identifier code that is not a known attachment-section identifier.
    InvalidAttachAttr(u32),
    /// The buffer ended before a declared length was satisfied.
    UnexpectedEof,
    /// A date/time payload is malformed or not a valid calendar moment.
    InvlidDateTime,
    /// A rendering-descriptor payload is malformed.
    InvalidRendData,
    /// A string payload is empty, lacks its zero terminator, or is malformed
    /// under the active text encoding.
    InvalidString,
    /// An attachment group broke the ordering or uniqueness rules.
    AttachmentParsingFailure,
}

impl Error {
    /// A short human-readable name for the error, for callers that report it.
    pub fn describe(&self) -> (r: String)
        ensures
            r@.len() > 0,
    {
        let s = match self {
            Error::InvalidHeader => "invalid header",
            Error::InvalidVersion => "invalid version record",
            Error::InvalidOemCodePage => "invalid or unsupported OEM code page",
            Error::UnexpectedMessageAttribute => "message attribute after attachment section",
            Error::ChecksumMismatch => "checksum mismatch",
            Error::InvalidAttributeLevel(_) => "invalid attribute level",
            Error::InvalidMessageId(_) => "unknown message attribute id",
            Error::InvalidAttachAttr(_) => "unknown attachment attribute id",
            Error::UnexpectedEof => "unexpected end of data",
            Error::InvlidDateTime => "invalid date/time field",
            Error::InvalidRendData => "invalid rendering data field",
            Error::InvalidString => "invalid string field",
            Error::AttachmentParsingFailure => "attachment assembly failure",
        };
        proof {
            reveal_strlit("invalid header");
            reveal_strlit("invalid version record");
            reveal_strlit("invalid or unsupported OEM code page");
            reveal_strlit("message attribute after attachment section");
            reveal_strlit("checksum mismatch");
            reveal_strlit("invalid attribute level");
            reveal_strlit("unknown message attribute id");
            reveal_strlit("unknown attachment attribute id");
            reveal_strlit("unexpected end of data");
            reveal_strlit("invalid date/time field");
            reveal_strlit("invalid rendering data field");
            reveal_strlit("invalid string field");
            reveal_strlit("attachment assembly failure");
        }
        s.to_string()
    }
}

} // verus!
