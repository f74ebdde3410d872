//! The streaming attribute reader: preamble validation on construction, then
//! a lazy, finite, non-restartable sequence of checksum-verified attributes.
use vstd::prelude::*;

use crate::attr_ids::AttributeId;
use crate::attr_ids::spec_attribute_id;
use crate::bytes::checksum16;
use crate::bytes::compute_checksum;
use crate::bytes::le16;
use crate::bytes::le32;
use crate::error::Error;
use crate::fields::cp_supported;

verus! {

/// The fixed magic constant that opens every TNEF buffer.
pub const TNEF_SIGNATURE: u32 = 0x223e_9f78;

/// The identifier code of the mandatory version record.
pub const VERSION_ATTR_CODE: u32 = 0x0008_9006;

/// The identifier code of the mandatory code-page record.
pub const CODEPAGE_ATTR_CODE: u32 = 0x0006_9007;

/// What one pull of the attribute stream does, as a function of the buffer,
/// the read position and the active section.
pub enum AttrStep {
    /// The buffer is exhausted with no pending record: the stream ends.
    End,
    /// A record was read and checksum-verified.
    Item { id: AttributeId, payload: Seq<u8>, next_pos: int, next_msg: bool },
    /// A validation failure; the stream surfaces it and permanently ends.
    Fail { err: Error },
}

/// One step of the attribute stream: read a level byte, enforce the one-way
/// section transition, resolve the identifier against the active section's
/// table, take the declared payload, and verify the trailing checksum.
pub open spec fn attr_step(buf: Seq<u8>, pos: int, msg: bool) -> AttrStep {
    if pos == buf.len() {
        AttrStep::End
    } else {
        let level = buf[pos];
        if level == 1 && !msg {
            AttrStep::Fail { err: Error::UnexpectedMessageAttribute }
        } else if level != 1 && level != 2 {
            AttrStep::Fail { err: Error::InvalidAttributeLevel(level) }
        } else {
            let next_msg = level == 1;
            if pos + 5 > buf.len() {
                AttrStep::Fail { err: Error::UnexpectedEof }
            } else {
                match spec_attribute_id(next_msg, le32(buf, pos + 1)) {
                    Err(e) => AttrStep::Fail { err: e },
                    Ok(id) => if pos + 9 > buf.len() {
                        AttrStep::Fail { err: Error::UnexpectedEof }
                    } else {
                        let len = le32(buf, pos + 5) as int;
                        if pos + 9 + len > buf.len() {
                            AttrStep::Fail { err: Error::UnexpectedEof }
                        } else if pos + 11 + len > buf.len() {
                            AttrStep::Fail { err: Error::UnexpectedEof }
                        } else {
                            let payload = buf.subrange(pos + 9, pos + 9 + len);
                            if checksum16(payload) != le16(buf, pos + 9 + len) {
                                AttrStep::Fail { err: Error::ChecksumMismatch }
                            } else {
                                AttrStep::Item {
                                    id,
                                    payload,
                                    next_pos: pos + 11 + len,
                                    next_msg,
                                }
                            }
                        }
                    },
                }
            }
        }
    }
}

/// What the header check does: the magic constant read little-endian from the
/// first four bytes, then two ignored legacy-key bytes. Returns the position
/// after the header.
pub open spec fn spec_read_header(buf: Seq<u8>, pos: int) -> Result<int, Error> {
    if pos + 4 > buf.len() {
        Err(Error::UnexpectedEof)
    } else if le32(buf, pos) != TNEF_SIGNATURE {
        Err(Error::InvalidHeader)
    } else if pos + 6 > buf.len() {
        Err(Error::UnexpectedEof)
    } else {
        Ok(pos + 6)
    }
}

/// What the version-record check does: a level-1 record with the version
/// identifier code, declared length exactly 4, payload exactly 0,0,1,0, and a
/// passing checksum. Returns the position after the record.
pub open spec fn spec_read_version(buf: Seq<u8>, pos: int) -> Result<int, Error> {
    if pos + 1 > buf.len() || pos + 5 > buf.len() || pos + 9 > buf.len() {
        Err(Error::UnexpectedEof)
    } else if buf[pos] != 1 || le32(buf, pos + 1) != VERSION_ATTR_CODE || le32(buf, pos + 5)
        != 4 {
        Err(Error::InvalidVersion)
    } else if pos + 13 > buf.len() {
        Err(Error::UnexpectedEof)
    } else if buf[pos + 9] != 0 || buf[pos + 10] != 0 || buf[pos + 11] != 1 || buf[pos + 12]
        != 0 {
        Err(Error::InvalidVersion)
    } else if pos + 15 > buf.len() {
        Err(Error::UnexpectedEof)
    } else if checksum16(buf.subrange(pos + 9, pos + 13)) != le16(buf, pos + 13) {
        Err(Error::ChecksumMismatch)
    } else {
        Ok(pos + 15)
    }
}

/// What the code-page-record check does: a level-1 record with the code-page
/// identifier code, declared length exactly 8, a passing checksum, a zero
/// secondary code page, and a primary code page that the resolver's table
/// supports. Returns the position after the record and the code page.
pub open spec fn spec_read_codepage(buf: Seq<u8>, pos: int) -> Result<(int, u32), Error> {
    if pos + 1 > buf.len() || pos + 5 > buf.len() || pos + 9 > buf.len() {
        Err(Error::UnexpectedEof)
    } else if buf[pos] != 1 || le32(buf, pos + 1) != CODEPAGE_ATTR_CODE || le32(buf, pos + 5)
        != 8 {
        Err(Error::InvalidOemCodePage)
    } else if pos + 17 > buf.len() {
        Err(Error::UnexpectedEof)
    } else if pos + 19 > buf.len() {
        Err(Error::UnexpectedEof)
    } else if checksum16(buf.subrange(pos + 9, pos + 17)) != le16(buf, pos + 17) {
        Err(Error::ChecksumMismatch)
    } else if le32(buf, pos + 13) != 0 {
        Err(Error::InvalidOemCodePage)
    } else if !cp_supported(le32(buf, pos + 9) as u16) {
        Err(Error::InvalidOemCodePage)
    } else {
        Ok((pos + 19, le32(buf, pos + 9)))
    }
}

/// What validating the fixed preamble does: header, version record, code-page
/// record, in that order. Returns the position of the first attribute and the
/// active code page.
pub open spec fn spec_preamble(buf: Seq<u8>) -> Result<(int, u32), Error> {
    match spec_read_header(buf, 0) {
        Err(e) => Err(e),
        Ok(p1) => match spec_read_version(buf, p1) {
            Err(e) => Err(e),
            Ok(p2) => spec_read_codepage(buf, p2),
        },
    }
}

/// TNEF reader: owns a copy of the source buffer, a forward-only read
/// position, and the section state. Construction validates the preamble;
/// `next` then yields the attributes one by one.
pub struct TnefReader {
    /// The source bytes.
    pub buf: Vec<u8>,
    /// The read position: everything before it has been consumed.
    pub pos: usize,
    /// The active code page, resolved from the preamble.
    pub code_page: u32,
    /// Whether the stream is still in the message section.
    pub msg_section: bool,
    /// Whether the stream has ended (cleanly or on an error).
    pub done: bool,
}

impl TnefReader {
    /// The reader never reads behind its position and never runs past the
    /// buffer.
    pub open spec fn wf(&self) -> bool {
        self.pos <= self.buf@.len()
    }

    /// Create a new reader from the provided buffer, validating the magic
    /// header, the version record and the code-page record, in that order.
    pub fn new(src: &[u8]) -> (r: Result<Self, Error>)
        ensures
            (match spec_preamble(src@) {
                Ok((p, cp)) => r matches Ok(rd) && rd.buf@ == src@ && rd.pos == p && rd.code_page
                    == cp && rd.msg_section && !rd.done && rd.wf(),
                Err(e) => r == Err::<TnefReader, Error>(e),
            }),
    {
        let mut ret = TnefReader {
            buf: vstd::slice::slice_to_vec(src),
            pos: 0,
            code_page: 0,
            msg_section: true,
            done: false,
        };
        match ret.read_header() {
            Ok(()) => (),
            Err(e) => {
                return Err(e);
            },
        }
        match ret.read_version() {
            Ok(()) => (),
            Err(e) => {
                return Err(e);
            },
        }
        match ret.read_oem_code_page() {
            Ok(cp) => {
                ret.code_page = cp;
            },
            Err(e) => {
                return Err(e);
            },
        }
        Ok(ret)
    }

    /// Get OEM code page.
    pub fn get_code_page(&self) -> (r: u32)
        ensures
            r == self.code_page,
    {
        self.code_page
    }

    /// Takes the next `len` bytes and advances past them, failing with an
    /// end-of-data condition if fewer than `len` bytes remain.
    fn split_at(&mut self, len: usize) -> (r: Result<Vec<u8>, Error>)
        requires
            old(self).wf(),
        ensures
            final(self).wf(),
            final(self).buf@ == old(self).buf@,
            final(self).code_page == old(self).code_page,
            final(self).msg_section == old(self).msg_section,
            final(self).done == old(self).done,
            (if old(self).pos + len <= old(self).buf@.len() {
                r matches Ok(v) && v@ == old(self).buf@.subrange(
                    old(self).pos as int,
                    old(self).pos + len,
                ) && final(self).pos == old(self).pos + len
            } else {
                r == Err::<Vec<u8>, Error>(Error::UnexpectedEof)
                    && final(self).pos == old(self).pos
            }),
    {
        let buf_len: usize = self.buf.len();
        if buf_len - self.pos < len {
            return Err(Error::UnexpectedEof);
        }
        let mut out: Vec<u8> = Vec::new();
        let mut i: usize = 0;
        while i < len
            invariant
                0 <= i <= len,
                self.pos + len <= buf_len,
                buf_len == self.buf@.len(),
                out@ == self.buf@.subrange(self.pos as int, self.pos + i),
            decreases len - i,
        {
            out.push(self.buf[self.pos + i]);
            proof {
                assert(out@ =~= self.buf@.subrange(self.pos as int, self.pos + i + 1));
            }
            i = i + 1;
        }
        self.pos = self.pos + len;
        Ok(out)
    }

    /// Reads a 16-bit little-endian integer and advances past it.
    fn read_u16(&mut self) -> (r: Result<u16, Error>)
        requires
            old(self).wf(),
        ensures
            final(self).wf(),
            final(self).buf@ == old(self).buf@,
            final(self).code_page == old(self).code_page,
            final(self).msg_section == old(self).msg_section,
            final(self).done == old(self).done,
            (if old(self).pos + 2 <= old(self).buf@.len() {
                r == Ok::<u16, Error>(le16(old(self).buf@, old(self).pos as int))
                    && final(self).pos == old(self).pos + 2
            } else {
                r == Err::<u16, Error>(Error::UnexpectedEof) && final(self).pos == old(self).pos
            }),
    {
        if self.buf.len() - self.pos < 2 {
            return Err(Error::UnexpectedEof);
        }
        let b0 = self.buf[self.pos];
        let b1 = self.buf[self.pos + 1];
        self.pos = self.pos + 2;
        Ok(b0 as u16 + b1 as u16 * 0x100)
    }

    /// Reads a 32-bit little-endian integer and advances past it.
    fn read_u32(&mut self) -> (r: Result<u32, Error>)
        requires
            old(self).wf(),
        ensures
            final(self).wf(),
            final(self).buf@ == old(self).buf@,
            final(self).code_page == old(self).code_page,
            final(self).msg_section == old(self).msg_section,
            final(self).done == old(self).done,
            (if old(self).pos + 4 <= old(self).buf@.len() {
                r == Ok::<u32, Error>(le32(old(self).buf@, old(self).pos as int))
                    && final(self).pos == old(self).pos + 4
            } else {
                r == Err::<u32, Error>(Error::UnexpectedEof) && final(self).pos == old(self).pos
            }),
    {
        if self.buf.len() - self.pos < 4 {
            return Err(Error::UnexpectedEof);
        }
        let b0 = self.buf[self.pos];
        let b1 = self.buf[self.pos + 1];
        let b2 = self.buf[self.pos + 2];
        let b3 = self.buf[self.pos + 3];
        self.pos = self.pos + 4;
        Ok(b0 as u32 + b1 as u32 * 0x100 + b2 as u32 * 0x10000 + b3 as u32 * 0x1000000)
    }

    /// Reads a record's trailing 16-bit checksum and verifies that it equals
    /// the wrapping 16-bit sum of the payload bytes.
    fn verify_checksum(&mut self, msg: &[u8]) -> (r: Result<(), Error>)
        requires
            old(self).wf(),
        ensures
            final(self).wf(),
            final(self).buf@ == old(self).buf@,
            final(self).code_page == old(self).code_page,
            final(self).msg_section == old(self).msg_section,
            final(self).done == old(self).done,
            (if old(self).pos + 2 <= old(self).buf@.len() {
                final(self).pos == old(self).pos + 2 && (if checksum16(msg@) == le16(
                    old(self).buf@,
                    old(self).pos as int,
                ) {
                    r == Ok::<(), Error>(())
                } else {
                    r == Err::<(), Error>(Error::ChecksumMismatch)
                })
            } else {
                r == Err::<(), Error>(Error::UnexpectedEof) && final(self).pos == old(self).pos
            }),
    {
        let val = match self.read_u16() {
            Ok(v) => v,
            Err(e) => {
                return Err(e);
            },
        };
        let sum = compute_checksum(msg);
        if sum != val {
            Err(Error::ChecksumMismatch)
        } else {
            Ok(())
        }
    }

    /// Validates the magic header and consumes the ignored legacy key.
    fn read_header(&mut self) -> (r: Result<(), Error>)
        requires
            old(self).wf(),
        ensures
            final(self).wf(),
            final(self).buf@ == old(self).buf@,
            final(self).code_page == old(self).code_page,
            final(self).msg_section == old(self).msg_section,
            final(self).done == old(self).done,
            (match spec_read_header(old(self).buf@, old(self).pos as int) {
                Ok(p) => r == Ok::<(), Error>(()) && final(self).pos == p,
                Err(e) => r == Err::<(), Error>(e),
            }),
    {
        let h = match self.read_u32() {
            Ok(v) => v,
            Err(e) => {
                return Err(e);
            },
        };
        if h != TNEF_SIGNATURE {
            return Err(Error::InvalidHeader);
        }
        // ignore LegacyKey
        let _ = match self.read_u16() {
            Ok(v) => v,
            Err(e) => {
                return Err(e);
            },
        };
        Ok(())
    }

    /// Validates the fixed version record.
    fn read_version(&mut self) -> (r: Result<(), Error>)
        requires
            old(self).wf(),
        ensures
            final(self).wf(),
            final(self).buf@ == old(self).buf@,
            final(self).code_page == old(self).code_page,
            final(self).msg_section == old(self).msg_section,
            final(self).done == old(self).done,
            (match spec_read_version(old(self).buf@, old(self).pos as int) {
                Ok(p) => r == Ok::<(), Error>(()) && final(self).pos == p,
                Err(e) => r == Err::<(), Error>(e),
            }),
    {
        let level_bytes = match self.split_at(1) {
            Ok(v) => v,
            Err(e) => {
                return Err(e);
            },
        };
        let level = level_bytes[0];
        let id = match self.read_u32() {
            Ok(v) => v,
            Err(e) => {
                return Err(e);
            },
        };
        let len = match self.read_u32() {
            Ok(v) => v,
            Err(e) => {
                return Err(e);
            },
        };
        if level != 0x01 || id != VERSION_ATTR_CODE || len != 4 {
            return Err(Error::InvalidVersion);
        }
        let msg = match self.split_at(4) {
            Ok(v) => v,
            Err(e) => {
                return Err(e);
            },
        };
        if msg[0] != 0 || msg[1] != 0 || msg[2] != 1 || msg[3] != 0 {
            return Err(Error::InvalidVersion);
        }
        match self.verify_checksum(msg.as_slice()) {
            Ok(()) => Ok(()),
            Err(e) => Err(e),
        }
    }

    /// Validates the code-page record and resolves the primary code page.
    fn read_oem_code_page(&mut self) -> (r: Result<u32, Error>)
        requires
            old(self).wf(),
        ensures
            final(self).wf(),
            final(self).buf@ == old(self).buf@,
            final(self).code_page == old(self).code_page,
            final(self).msg_section == old(self).msg_section,
            final(self).done == old(self).done,
            (match spec_read_codepage(old(self).buf@, old(self).pos as int) {
                Ok((p, cp)) => r == Ok::<u32, Error>(cp) && final(self).pos == p,
                Err(e) => r == Err::<u32, Error>(e),
            }),
    {
        let level_bytes = match self.split_at(1) {
            Ok(v) => v,
            Err(e) => {
                return Err(e);
            },
        };
        let level = level_bytes[0];
        let id = match self.read_u32() {
            Ok(v) => v,
            Err(e) => {
                return Err(e);
            },
        };
        let len = match self.read_u32() {
            Ok(v) => v,
            Err(e) => {
                return Err(e);
            },
        };
        if level != 0x01 || id != CODEPAGE_ATTR_CODE || len != 8 {
            return Err(Error::InvalidOemCodePage);
        }
        let msg = match self.split_at(8) {
            Ok(v) => v,
            Err(e) => {
                return Err(e);
            },
        };
        match self.verify_checksum(msg.as_slice()) {
            Ok(()) => (),
            Err(e) => {
                return Err(e);
            },
        }
        let code_page = crate::fields::read_le32(msg.as_slice(), 0);
        let sec_code_page = crate::fields::read_le32(msg.as_slice(), 4);
        if sec_code_page != 0 {
            return Err(Error::InvalidOemCodePage);
        }
        if !crate::fields::codepage_lookup(code_page as u16) {
            return Err(Error::InvalidOemCodePage);
        }
        Ok(code_page)
    }

    /// Reads the next attribute: level byte, identifier, declared-length
    /// payload, trailing checksum. Returns `Ok(None)` on clean exhaustion.
    pub fn read_attribute(&mut self) -> (r: Result<Option<(AttributeId, Vec<u8>)>, Error>)
        requires
            old(self).wf(),
        ensures
            final(self).wf(),
            final(self).buf@ == old(self).buf@,
            final(self).code_page == old(self).code_page,
            final(self).done == old(self).done,
            !old(self).msg_section ==> !final(self).msg_section,
            (match attr_step(old(self).buf@, old(self).pos as int, old(self).msg_section) {
                AttrStep::End => r matches Ok(o) && o is None && final(self).pos == old(self).pos
                    && final(self).msg_section == old(self).msg_section,
                AttrStep::Fail { err } => r == Err::<Option<(AttributeId, Vec<u8>)>, Error>(err),
                AttrStep::Item { id, payload, next_pos, next_msg } => (r matches Ok(o) && o
                    matches Some(p) && p.0 == id && p.1@ == payload) && final(self).pos == next_pos
                    && final(self).msg_section == next_msg,
            }),
    {
        if self.pos == self.buf.len() {
            return Ok(None);
        }
        let level_bytes = match self.split_at(1) {
            Ok(v) => v,
            Err(e) => {
                return Err(e);
            },
        };
        let level = level_bytes[0];
        if level == 0x01 && !self.msg_section {
            return Err(Error::UnexpectedMessageAttribute);
        }
        if level != 0x01 && level != 0x02 {
            return Err(Error::InvalidAttributeLevel(level));
        }
        if level == 0x02 {
            self.msg_section = false;
        }
        let raw_id = match self.read_u32() {
            Ok(v) => v,
            Err(e) => {
                return Err(e);
            },
        };
        let id = match AttributeId::from_u32(self.msg_section, raw_id) {
            Ok(v) => v,
            Err(e) => {
                return Err(e);
            },
        };
        let len32 = match self.read_u32() {
            Ok(v) => v,
            Err(e) => {
                return Err(e);
            },
        };
        let msg = match self.split_at(len32 as usize) {
            Ok(v) => v,
            Err(e) => {
                return Err(e);
            },
        };
        match self.verify_checksum(msg.as_slice()) {
            Ok(()) => (),
            Err(e) => {
                return Err(e);
            },
        }
        Ok(Some((id, msg)))
    }

    /// Pulls the next attribute. After the stream has ended or surfaced an
    /// error, every further pull reports end: the sequence never re-enters a
    /// working state.
    pub fn next(&mut self) -> (r: Option<Result<(AttributeId, Vec<u8>), Error>>)
        requires
            old(self).wf(),
        ensures
            final(self).wf(),
            final(self).buf@ == old(self).buf@,
            final(self).code_page == old(self).code_page,
            !old(self).msg_section ==> !final(self).msg_section,
            old(self).done ==> r is None && *final(self) == *old(self),
            !old(self).done ==> (match attr_step(
                old(self).buf@,
                old(self).pos as int,
                old(self).msg_section,
            ) {
                AttrStep::End => r is None && final(self).done,
                AttrStep::Fail { err } => r == Some(Err::<(AttributeId, Vec<u8>), Error>(err))
                    && final(self).done,
                AttrStep::Item { id, payload, next_pos, next_msg } => (r matches Some(q) && q
                    matches Ok(p) && p.0 == id && p.1@ == payload) && final(self).pos == next_pos
                    && final(self).msg_section == next_msg && !final(self).done,
            }),
    {
        if self.done {
            return None;
        }
        match self.read_attribute() {
            Ok(Some(val)) => Some(Ok(val)),
            Ok(None) => {
                self.done = true;
                None
            },
            Err(err) => {
                self.done = true;
                Some(Err(err))
            },
        }
    }
}

/// Law: for any buffer position at which the stream yields an attribute, the
/// payload's length equals the record's declared length exactly, its checksum
/// equals the wrapping 16-bit sum of its bytes, and the stream advances but
/// never past the buffer.
pub proof fn lemma_payload_matches_declaration(buf: Seq<u8>, pos: int, msg: bool)
    requires
        0 <= pos <= buf.len(),
    ensures
        (match attr_step(buf, pos, msg) {
            AttrStep::Item { id, payload, next_pos, next_msg } => payload.len() == le32(
                buf,
                pos + 5,
            ) && checksum16(payload) == le16(buf, pos + 9 + payload.len()) && pos < next_pos
                <= buf.len(),
            _ => true,
        }),
{
}

/// Law: the section transition is one-way. Once the attachment section is
/// active, a level-1 record always fails with the unexpected-message-attribute
/// kind, and no accepted record ever reactivates the message section.
pub proof fn lemma_section_monotonic(buf: Seq<u8>, pos: int)
    requires
        0 <= pos <= buf.len(),
    ensures
        pos < buf.len() && buf[pos] == 1 ==> attr_step(buf, pos, false) == (AttrStep::Fail {
            err: Error::UnexpectedMessageAttribute,
        }),
        (attr_step(buf, pos, false) matches AttrStep::Item { next_msg, .. } ==> !next_msg),
{
}

/// Law: a record that is well-formed through its declared-length field but
/// whose payload is truncated by the end of the buffer always fails with the
/// end-of-data kind; it is never misread as a shorter record.
pub proof fn lemma_truncated_declared_length(buf: Seq<u8>, pos: int, msg: bool)
    requires
        0 <= pos,
        pos + 9 <= buf.len(),
        (buf[pos] == 1 && msg) || buf[pos] == 2,
        spec_attribute_id(buf[pos] == 1, le32(buf, pos + 1)) is Ok,
        buf.len() < pos + 9 + le32(buf, pos + 5),
    ensures
        attr_step(buf, pos, msg) == (AttrStep::Fail { err: Error::UnexpectedEof }),
{
}

} // verus!
