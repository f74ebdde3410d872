//! The attachment assembler: folds the attachment-level attribute stream into
//! complete attachment records under ordering and uniqueness rules.
use vstd::prelude::*;

use crate::attachment::AttachModel;
use crate::attachment::Attachment;
use crate::bytes::checksum16;
use crate::fields::AttachDataFlags;
use crate::fields::AttachType;
use crate::fields::DateTime;
use crate::fields::cp_supported;
use crate::fields::decoded_text;
use crate::attachment::RawAttachment;
use crate::attachment::RawModel;
use crate::attachment::spec_from_raw;
use crate::attachment::spec_raw_empty;
use crate::attachment::spec_raw_is_empty;
use crate::attr_ids::AttachAttrId;
use crate::attr_ids::AttributeId;
use crate::error::Error;
use crate::fields::RendData;
use crate::fields::spec_parse_datetime;
use crate::fields::spec_parse_rend;
use crate::fields::spec_parse_string;
use crate::fields::parse_datetime;
use crate::fields::parse_string;
use crate::reader::AttrStep;
use crate::reader::TnefReader;
use crate::reader::attr_step;
use crate::reader::lemma_payload_matches_declaration;
use crate::reader::spec_preamble;

verus! {

/// What one attachment-level attribute does to the accumulator: the first
/// field of a group must be the rendering descriptor, no field may be set
/// twice, and the properties field finalizes the group, emitting a complete
/// attachment (or silently discarding an incomplete one) and resetting the
/// accumulator.
pub open spec fn asm_step(t: RawModel, id: AttachAttrId, payload: Seq<u8>, cp: u32) -> Result<
    (RawModel, Option<AttachModel>),
    Error,
> {
    if spec_raw_is_empty(t) && id != AttachAttrId::AttachRendData {
        Err(Error::AttachmentParsingFailure)
    } else {
        match id {
            AttachAttrId::AttachRendData => if t.rend_data is Some {
                Err(Error::AttachmentParsingFailure)
            } else {
                match spec_parse_rend(payload) {
                    Ok(rd) => Ok((RawModel { rend_data: Some(rd), ..t }, None)),
                    Err(e) => Err(e),
                }
            },
            AttachAttrId::Data => if t.data is Some {
                Err(Error::AttachmentParsingFailure)
            } else {
                Ok((RawModel { data: Some(payload), ..t }, None))
            },
            AttachAttrId::Title => if t.title is Some {
                Err(Error::AttachmentParsingFailure)
            } else {
                match spec_parse_string(payload, cp) {
                    Ok(s) => Ok((RawModel { title: Some(s), ..t }, None)),
                    Err(e) => Err(e),
                }
            },
            AttachAttrId::MetaFile => if t.meta is Some {
                Err(Error::AttachmentParsingFailure)
            } else {
                Ok((RawModel { meta: Some(payload), ..t }, None))
            },
            AttachAttrId::CreateDate => if t.create_date is Some {
                Err(Error::AttachmentParsingFailure)
            } else {
                match spec_parse_datetime(payload) {
                    Ok(dt) => Ok((RawModel { create_date: Some(dt), ..t }, None)),
                    Err(e) => Err(e),
                }
            },
            AttachAttrId::ModifyDate => if t.modify_date is Some {
                Err(Error::AttachmentParsingFailure)
            } else {
                match spec_parse_datetime(payload) {
                    Ok(dt) => Ok((RawModel { modify_date: Some(dt), ..t }, None)),
                    Err(e) => Err(e),
                }
            },
            AttachAttrId::TransportFilename => if t.transport_filename is Some {
                Err(Error::AttachmentParsingFailure)
            } else {
                match spec_parse_string(payload, cp) {
                    Ok(s) => Ok((RawModel { transport_filename: Some(s), ..t }, None)),
                    Err(e) => Err(e),
                }
            },
            AttachAttrId::Attachment => if t.props is Some {
                Err(Error::AttachmentParsingFailure)
            } else {
                Ok((spec_raw_empty(), spec_from_raw(RawModel { props: Some(payload), ..t })))
            },
        }
    }
}

/// The views of a sequence of attachments.
pub open spec fn views_of(s: Seq<Attachment>) -> Seq<AttachModel> {
    s.map_values(|a: Attachment| a@)
}

/// What decoding the rest of the stream yields, starting at `pos` with
/// section state `msg`, accumulator `t` and the attachments gathered so far:
/// message-level attributes are skipped untouched, attachment-level ones fold
/// through `asm_step`, the first error aborts everything, and at clean stream
/// end any in-progress accumulator is dropped.
pub open spec fn spec_decode(
    buf: Seq<u8>,
    pos: int,
    msg: bool,
    t: RawModel,
    acc: Seq<AttachModel>,
    cp: u32,
) -> Result<Seq<AttachModel>, Error>
    decreases buf.len() - pos,
    when 0 <= pos <= buf.len()
{
    match attr_step(buf, pos, msg) {
        AttrStep::End => Ok(acc),
        AttrStep::Fail { err } => Err(err),
        AttrStep::Item { id, payload, next_pos, next_msg } => {
            proof {
                lemma_payload_matches_declaration(buf, pos, msg);
            }
            match id {
                AttributeId::Message(_) => spec_decode(buf, next_pos, next_msg, t, acc, cp),
                AttributeId::Attachment(a) => match asm_step(t, a, payload, cp) {
                    Err(e) => Err(e),
                    Ok((t2, pushed)) => spec_decode(
                        buf,
                        next_pos,
                        next_msg,
                        t2,
                        (match pushed {
                            Some(m) => acc.push(m),
                            None => acc,
                        }),
                        cp,
                    ),
                },
            }
        },
    }
}

/// Applies one attachment-level attribute to the accumulator, appending a
/// finalized attachment to `out` when the properties field completes a group.
fn apply_attach_attr(
    t: &mut RawAttachment,
    id: AttachAttrId,
    data: &[u8],
    code_page: u32,
    out: &mut Vec<Attachment>,
) -> (r: Result<(), Error>)
    ensures
        (match asm_step(old(t)@, id, data@, code_page) {
            Err(e) => r == Err::<(), Error>(e),
            Ok((t2, pushed)) => r == Ok::<(), Error>(()) && final(t)@ == t2 && (match pushed {
                Some(m) => views_of(final(out)@) == views_of(old(out)@).push(m),
                None => final(out)@ == old(out)@,
            }),
        }),
{
    if t.is_default() && id != AttachAttrId::AttachRendData {
        return Err(Error::AttachmentParsingFailure);
    }
    match id {
        AttachAttrId::AttachRendData => {
            if t.rend_data.is_none() {
                match RendData::parse(data) {
                    Ok(rd) => {
                        t.rend_data = Some(rd);
                        Ok(())
                    },
                    Err(e) => Err(e),
                }
            } else {
                Err(Error::AttachmentParsingFailure)
            }
        },
        AttachAttrId::Data => {
            if t.data.is_none() {
                t.data = Some(vstd::slice::slice_to_vec(data));
                Ok(())
            } else {
                Err(Error::AttachmentParsingFailure)
            }
        },
        AttachAttrId::Title => {
            if t.title.is_none() {
                match parse_string(data, code_page) {
                    Ok(s) => {
                        t.title = Some(s);
                        Ok(())
                    },
                    Err(e) => Err(e),
                }
            } else {
                Err(Error::AttachmentParsingFailure)
            }
        },
        AttachAttrId::MetaFile => {
            if t.meta.is_none() {
                t.meta = Some(vstd::slice::slice_to_vec(data));
                Ok(())
            } else {
                Err(Error::AttachmentParsingFailure)
            }
        },
        AttachAttrId::CreateDate => {
            if t.create_date.is_none() {
                match parse_datetime(data) {
                    Ok(dt) => {
                        t.create_date = Some(dt);
                        Ok(())
                    },
                    Err(e) => Err(e),
                }
            } else {
                Err(Error::AttachmentParsingFailure)
            }
        },
        AttachAttrId::ModifyDate => {
            if t.modify_date.is_none() {
                match parse_datetime(data) {
                    Ok(dt) => {
                        t.modify_date = Some(dt);
                        Ok(())
                    },
                    Err(e) => Err(e),
                }
            } else {
                Err(Error::AttachmentParsingFailure)
            }
        },
        AttachAttrId::TransportFilename => {
            if t.transport_filename.is_none() {
                match parse_string(data, code_page) {
                    Ok(s) => {
                        t.transport_filename = Some(s);
                        Ok(())
                    },
                    Err(e) => Err(e),
                }
            } else {
                Err(Error::AttachmentParsingFailure)
            }
        },
        AttachAttrId::Attachment => {
            if t.props.is_none() {
                t.props = Some(vstd::slice::slice_to_vec(data));
                let mut finished = RawAttachment::default();
                core::mem::swap(t, &mut finished);
                match Attachment::from_raw(finished) {
                    Some(att) => {
                        let ghost prev = out@;
                        out.push(att);
                        proof {
                            assert(views_of(out@) =~= views_of(prev).push(att@));
                        }
                        Ok(())
                    },
                    None => Ok(()),
                }
            } else {
                Err(Error::AttachmentParsingFailure)
            }
        },
    }
}

/// Convenience function for extracting attachments from TNEF data.
///
/// Validates the preamble, then folds the whole attribute stream: every
/// message-level attribute is skipped, every attachment group is assembled
/// under the ordering and uniqueness rules, and a group that is missing one
/// of the six required fields at finalize time (or is still in progress at
/// stream end) contributes nothing. Any error anywhere aborts the whole call
/// and yields no attachments at all.
pub fn read_attachements(buf: &[u8]) -> (r: Result<Vec<Attachment>, Error>)
    ensures
        (match spec_preamble(buf@) {
            Err(e) => r == Err::<Vec<Attachment>, Error>(e),
            Ok((p0, cp)) => (match spec_decode(
                buf@,
                p0,
                true,
                spec_raw_empty(),
                Seq::<AttachModel>::empty(),
                cp,
            ) {
                Err(e) => r == Err::<Vec<Attachment>, Error>(e),
                Ok(models) => r matches Ok(v) && views_of(v@) == models,
            }),
        }),
{
    let mut reader = match TnefReader::new(buf) {
        Ok(rd) => rd,
        Err(e) => {
            return Err(e);
        },
    };
    let code_page = reader.get_code_page();
    let ghost p0 = reader.pos as int;
    let mut out: Vec<Attachment> = Vec::new();
    let mut t = RawAttachment::default();
    proof {
        assert(views_of(out@) =~= Seq::<AttachModel>::empty());
    }
    loop
        invariant
            reader.wf(),
            reader.buf@ == buf@,
            reader.code_page == code_page,
            spec_preamble(buf@) == Ok::<(int, u32), Error>((p0, code_page)),
            spec_decode(
                buf@,
                reader.pos as int,
                reader.msg_section,
                t@,
                views_of(out@),
                code_page,
            ) == spec_decode(
                buf@,
                p0,
                true,
                spec_raw_empty(),
                Seq::<AttachModel>::empty(),
                code_page,
            ),
        decreases buf@.len() - reader.pos,
    {
        proof {
            lemma_payload_matches_declaration(buf@, reader.pos as int, reader.msg_section);
        }
        match reader.read_attribute() {
            Err(e) => {
                return Err(e);
            },
            Ok(None) => {
                return Ok(out);
            },
            Ok(Some((id, data))) => {
                match id {
                    AttributeId::Message(_) => (),
                    AttributeId::Attachment(a) => {
                        match apply_attach_attr(&mut t, a, data.as_slice(), code_page, &mut out) {
                            Ok(()) => (),
                            Err(e) => {
                                return Err(e);
                            },
                        }
                    },
                }
            },
        }
    }
}

/// Law: an attachment group whose first observed field is not the rendering
/// descriptor yields the assembly-ordering error, never an attachment.
pub proof fn lemma_group_must_open_with_rend_data(id: AttachAttrId, payload: Seq<u8>, cp: u32)
    requires
        id != AttachAttrId::AttachRendData,
    ensures
        asm_step(spec_raw_empty(), id, payload, cp) == Err::<(RawModel, Option<AttachModel>), Error>(
            Error::AttachmentParsingFailure,
        ),
{
}

/// Law: at clean stream end the decoder returns exactly the attachments
/// already gathered: whatever in-progress accumulator remains, complete or
/// not, contributes nothing and raises no error.
pub proof fn lemma_incomplete_group_dropped_at_end(
    buf: Seq<u8>,
    pos: int,
    msg: bool,
    t: RawModel,
    acc: Seq<AttachModel>,
    cp: u32,
)
    requires
        0 <= pos <= buf.len(),
        attr_step(buf, pos, msg) is End,
    ensures
        spec_decode(buf, pos, msg, t, acc, cp) == Ok::<Seq<AttachModel>, Error>(acc),
{
}

/// Law: a group that is missing one of the six required fields when its
/// properties field arrives finalizes to nothing: the accumulator is reset
/// and no attachment is emitted, with no error raised for this case.
pub proof fn lemma_incomplete_group_dropped_at_finalize(t: RawModel, payload: Seq<u8>, cp: u32)
    requires
        t.props is None,
        !spec_raw_is_empty(t),
        !(t.title is Some && t.data is Some && t.create_date is Some && t.modify_date is Some
            && t.rend_data is Some),
    ensures
        asm_step(t, AttachAttrId::Attachment, payload, cp) == Ok::<
            (RawModel, Option<AttachModel>),
            Error,
        >((spec_raw_empty(), None)),
{
}

/// The preamble of the sample stream: the magic constant, a legacy key, the
/// fixed version record and a code-page record naming code page 1252, each
/// correctly checksummed.
pub open spec fn sample_preamble_bytes() -> Seq<u8> {
    seq![
        0x78u8, 0x9f, 0x3e, 0x22, 0x23, 0x28,
        0x01, 0x06, 0x90, 0x08, 0x00, 0x04, 0x00, 0x00, 0x00, 0x00, 0x00, 0x01, 0x00, 0x01, 0x00,
        0x01, 0x07, 0x90, 0x06, 0x00, 0x08, 0x00, 0x00, 0x00, 0xe4, 0x04, 0x00, 0x00, 0x00, 0x00,
        0x00, 0x00, 0xe8, 0x00,
    ]
}

/// A rendering descriptor for a file attachment at position 0 with no
/// dimensions and default flags.
pub open spec fn sample_rend_payload() -> Seq<u8> {
    seq![0x01u8, 0x00, 0x00, 0x00, 0x00, 0x00, 0x00, 0x00, 0x00, 0x00, 0x00, 0x00, 0x00, 0x00]
}

/// The 14-byte encoding of 2004-01-15 12:30:05.
pub open spec fn sample_date_payload() -> Seq<u8> {
    seq![0xd4u8, 0x07, 0x01, 0x00, 0x0f, 0x00, 0x0c, 0x00, 0x1e, 0x00, 0x05, 0x00, 0x00, 0x00]
}

/// The bytes of "a.txt" with the zero terminator.
pub open spec fn sample_title_payload() -> Seq<u8> {
    seq![0x61u8, 0x2e, 0x74, 0x78, 0x74, 0x00]
}

pub open spec fn sample_rend_record() -> Seq<u8> {
    seq![0x02u8, 0x02, 0x90, 0x06, 0x00, 0x0e, 0x00, 0x00, 0x00] + sample_rend_payload() + seq![
        0x01u8,
        0x00,
    ]
}

pub open spec fn sample_data_record() -> Seq<u8> {
    seq![0x02u8, 0x0f, 0x80, 0x06, 0x00, 0x02, 0x00, 0x00, 0x00] + seq![0x68u8, 0x69] + seq![
        0xd1u8,
        0x00,
    ]
}

pub open spec fn sample_title_record() -> Seq<u8> {
    seq![0x02u8, 0x10, 0x80, 0x01, 0x00, 0x06, 0x00, 0x00, 0x00] + sample_title_payload() + seq![
        0xefu8,
        0x01,
    ]
}

pub open spec fn sample_create_record() -> Seq<u8> {
    seq![0x02u8, 0x12, 0x80, 0x03, 0x00, 0x0e, 0x00, 0x00, 0x00] + sample_date_payload() + seq![
        0x1au8,
        0x01,
    ]
}

pub open spec fn sample_modify_record() -> Seq<u8> {
    seq![0x02u8, 0x13, 0x80, 0x03, 0x00, 0x0e, 0x00, 0x00, 0x00] + sample_date_payload() + seq![
        0x1au8,
        0x01,
    ]
}

pub open spec fn sample_props_record() -> Seq<u8> {
    seq![0x02u8, 0x05, 0x90, 0x06, 0x00, 0x01, 0x00, 0x00, 0x00, 0x70, 0x70, 0x00]
}

/// One complete sample stream: the preamble with code page 1252, then a
/// single attachment group: rendering descriptor, data "hi", title "a.txt",
/// matching create and modify dates, properties "p".
pub open spec fn sample_stream() -> Seq<u8> {
    sample_preamble_bytes() + sample_rend_record() + sample_data_record() + sample_title_record()
        + sample_create_record() + sample_modify_record() + sample_props_record()
}

/// The one attachment that the sample stream holds.
pub open spec fn sample_attachment() -> AttachModel {
    AttachModel {
        title: seq!['a', '.', 't', 'x', 't'],
        data: seq![0x68u8, 0x69],
        create_date: (DateTime { year: 2004, month: 1, day: 15, hour: 12, minute: 30, second: 5 }),
        modify_date: (DateTime { year: 2004, month: 1, day: 15, hour: 12, minute: 30, second: 5 }),
        rend_data: (crate::fields::RendData {
            attach_type: AttachType::File,
            attach_position: 0,
            render_width: 0,
            render_height: 0,
            flags: AttachDataFlags::FileDataDefault,
        }),
        props: seq![0x70u8],
        meta: None,
        transport_filename: None,
    }
}

/// Scenario: the sample stream decodes to exactly one attachment, with title
/// "a.txt" and data "hi". Two facts about the outside text-encoding resolver
/// stand as the hypothesis, since the contracts name them but cannot state
/// them: code page 1252 resolves, and its encoding decodes the five bytes of
/// "a.txt" to those five characters.
#[verifier::rlimit(100)]
#[verifier::spinoff_prover]
pub proof fn lemma_sample_stream_decodes_one_attachment()
    ensures
        (cp_supported(1252) && decoded_text(1252, seq![0x61u8, 0x2e, 0x74, 0x78, 0x74]) == Some(
            seq!['a', '.', 't', 'x', 't'],
        )) ==> spec_preamble(sample_stream()) == Ok::<(int, u32), Error>((40, 1252))
            && spec_decode(
            sample_stream(),
            40,
            true,
            spec_raw_empty(),
            Seq::<AttachModel>::empty(),
            1252,
        ) == Ok::<Seq<AttachModel>, Error>(seq![sample_attachment()]),
{
    if cp_supported(1252) && decoded_text(1252, seq![0x61u8, 0x2e, 0x74, 0x78, 0x74]) == Some(
        seq!['a', '.', 't', 'x', 't'],
    ) {
        reveal_with_fuel(checksum16, 16);
        let buf = sample_stream();
        assert(buf.len() == 157);

        // the checksum of each record's payload
        assert(checksum16(seq![0x00u8, 0x00, 0x01, 0x00]) == 0x01);
        assert(checksum16(seq![0xe4u8, 0x04, 0x00, 0x00, 0x00, 0x00, 0x00, 0x00]) == 0xe8);
        assert(checksum16(sample_rend_payload()) == 0x01);
        assert(checksum16(seq![0x68u8, 0x69]) == 0xd1);
        assert(checksum16(sample_title_payload()) == 0x01ef);
        assert(checksum16(sample_date_payload()) == 0x011a);
        assert(checksum16(seq![0x70u8]) == 0x70);

        // the preamble: header at 0, version record at 6, code-page record at 21
        assert(buf.subrange(15, 19) =~= seq![0x00u8, 0x00, 0x01, 0x00]);
        assert(buf.subrange(30, 38) =~= seq![0xe4u8, 0x04, 0x00, 0x00, 0x00, 0x00, 0x00, 0x00]);
        assert(crate::reader::spec_read_header(buf, 0) == Ok::<int, Error>(6));
        assert(crate::reader::spec_read_version(buf, 6) == Ok::<int, Error>(21));
        assert(crate::reader::spec_read_codepage(buf, 21) == Ok::<(int, u32), Error>((40, 1252)));

        // the six records of the attachment group
        let rend = crate::fields::RendData {
            attach_type: AttachType::File,
            attach_position: 0,
            render_width: 0,
            render_height: 0,
            flags: AttachDataFlags::FileDataDefault,
        };
        let dt = DateTime { year: 2004, month: 1, day: 15, hour: 12, minute: 30, second: 5 };

        assert(buf.subrange(49, 63) =~= sample_rend_payload());
        assert(attr_step(buf, 40, true) == (AttrStep::Item {
            id: AttributeId::Attachment(AttachAttrId::AttachRendData),
            payload: sample_rend_payload(),
            next_pos: 65,
            next_msg: false,
        }));
        assert(crate::fields::spec_parse_rend(sample_rend_payload()) == Ok::<
            crate::fields::RendData,
            Error,
        >(rend));

        assert(buf.subrange(74, 76) =~= seq![0x68u8, 0x69]);
        assert(attr_step(buf, 65, false) == (AttrStep::Item {
            id: AttributeId::Attachment(AttachAttrId::Data),
            payload: seq![0x68u8, 0x69],
            next_pos: 78,
            next_msg: false,
        }));

        assert(buf.subrange(87, 93) =~= sample_title_payload());
        assert(attr_step(buf, 78, false) == (AttrStep::Item {
            id: AttributeId::Attachment(AttachAttrId::Title),
            payload: sample_title_payload(),
            next_pos: 95,
            next_msg: false,
        }));
        assert(sample_title_payload().drop_last() =~= seq![0x61u8, 0x2e, 0x74, 0x78, 0x74]);
        assert(spec_parse_string(sample_title_payload(), 1252) == Ok::<Seq<char>, Error>(
            seq!['a', '.', 't', 'x', 't'],
        ));

        assert(buf.subrange(104, 118) =~= sample_date_payload());
        assert(attr_step(buf, 95, false) == (AttrStep::Item {
            id: AttributeId::Attachment(AttachAttrId::CreateDate),
            payload: sample_date_payload(),
            next_pos: 120,
            next_msg: false,
        }));
        assert(spec_parse_datetime(sample_date_payload()) == Ok::<DateTime, Error>(dt));

        assert(buf.subrange(129, 143) =~= sample_date_payload());
        assert(attr_step(buf, 120, false) == (AttrStep::Item {
            id: AttributeId::Attachment(AttachAttrId::ModifyDate),
            payload: sample_date_payload(),
            next_pos: 145,
            next_msg: false,
        }));

        assert(buf.subrange(154, 155) =~= seq![0x70u8]);
        assert(attr_step(buf, 145, false) == (AttrStep::Item {
            id: AttributeId::Attachment(AttachAttrId::Attachment),
            payload: seq![0x70u8],
            next_pos: 157,
            next_msg: false,
        }));
        assert(attr_step(buf, 157, false) is End);

        // the accumulator after each record
        let t0 = spec_raw_empty();
        let t1 = RawModel { rend_data: Some(rend), ..t0 };
        let t2 = RawModel { data: Some(seq![0x68u8, 0x69]), ..t1 };
        let t3 = RawModel { title: Some(seq!['a', '.', 't', 'x', 't']), ..t2 };
        let t4 = RawModel { create_date: Some(dt), ..t3 };
        let t5 = RawModel { modify_date: Some(dt), ..t4 };
        let t6 = RawModel { props: Some(seq![0x70u8]), ..t5 };
        assert(spec_from_raw(t6) == Some(sample_attachment()));

        let acc0 = Seq::<AttachModel>::empty();
        assert(asm_step(t0, AttachAttrId::AttachRendData, sample_rend_payload(), 1252) == Ok::<
            (RawModel, Option<AttachModel>),
            Error,
        >((t1, None)));
        assert(asm_step(t1, AttachAttrId::Data, seq![0x68u8, 0x69], 1252) == Ok::<
            (RawModel, Option<AttachModel>),
            Error,
        >((t2, None)));
        assert(asm_step(t2, AttachAttrId::Title, sample_title_payload(), 1252) == Ok::<
            (RawModel, Option<AttachModel>),
            Error,
        >((t3, None)));
        assert(asm_step(t3, AttachAttrId::CreateDate, sample_date_payload(), 1252) == Ok::<
            (RawModel, Option<AttachModel>),
            Error,
        >((t4, None)));
        assert(asm_step(t4, AttachAttrId::ModifyDate, sample_date_payload(), 1252) == Ok::<
            (RawModel, Option<AttachModel>),
            Error,
        >((t5, None)));
        assert(asm_step(t5, AttachAttrId::Attachment, seq![0x70u8], 1252) == Ok::<
            (RawModel, Option<AttachModel>),
            Error,
        >((t0, Some(sample_attachment()))));

        // fold the six steps
        assert(spec_decode(buf, 40, true, t0, acc0, 1252) == spec_decode(
            buf,
            65,
            false,
            t1,
            acc0,
            1252,
        ));
        assert(spec_decode(buf, 65, false, t1, acc0, 1252) == spec_decode(
            buf,
            78,
            false,
            t2,
            acc0,
            1252,
        ));
        assert(spec_decode(buf, 78, false, t2, acc0, 1252) == spec_decode(
            buf,
            95,
            false,
            t3,
            acc0,
            1252,
        ));
        assert(spec_decode(buf, 95, false, t3, acc0, 1252) == spec_decode(
            buf,
            120,
            false,
            t4,
            acc0,
            1252,
        ));
        assert(spec_decode(buf, 120, false, t4, acc0, 1252) == spec_decode(
            buf,
            145,
            false,
            t5,
            acc0,
            1252,
        ));
        assert(spec_decode(buf, 145, false, t5, acc0, 1252) == spec_decode(
            buf,
            157,
            false,
            t0,
            acc0.push(sample_attachment()),
            1252,
        ));
        assert(acc0.push(sample_attachment()) =~= seq![sample_attachment()]);
        assert(spec_decode(buf, 157, false, t0, acc0.push(sample_attachment()), 1252) == Ok::<
            Seq<AttachModel>,
            Error,
        >(seq![sample_attachment()]));
    }
}

} // verus!
