use tnef::AttachAttrId;
use tnef::AttachType;
use tnef::AttributeId;
use tnef::DateTime;
use tnef::Error;
use tnef::MessageAttrId;
use tnef::TnefReader;
use tnef::read_attachements;

const VERSION_ID: u32 = 0x0008_9006;
const CODEPAGE_ID: u32 = 0x0006_9007;
const SUBJECT_ID: u32 = 0x0001_8004;
const DATA_ID: u32 = 0x0006_800f;
const TITLE_ID: u32 = 0x0001_8010;
const CREATE_DATE_ID: u32 = 0x0003_8012;
const MODIFY_DATE_ID: u32 = 0x0003_8013;
const REND_DATA_ID: u32 = 0x0006_9002;
const PROPS_ID: u32 = 0x0006_9005;

fn record(level: u8, id: u32, payload: &[u8]) -> Vec<u8> {
    let mut v = vec![level];
    v.extend_from_slice(&id.to_le_bytes());
    v.extend_from_slice(&(payload.len() as u32).to_le_bytes());
    v.extend_from_slice(payload);
    let sum = payload.iter().fold(0u16, |s, b| s.wrapping_add(*b as u16));
    v.extend_from_slice(&sum.to_le_bytes());
    v
}

fn preamble(code_page: u32) -> Vec<u8> {
    let mut v = vec![0x78, 0x9f, 0x3e, 0x22, 0x23, 0x28];
    v.extend_from_slice(&record(1, VERSION_ID, &[0, 0, 1, 0]));
    let mut cp_payload = code_page.to_le_bytes().to_vec();
    cp_payload.extend_from_slice(&[0, 0, 0, 0]);
    v.extend_from_slice(&record(1, CODEPAGE_ID, &cp_payload));
    v
}

fn file_rend_payload() -> Vec<u8> {
    vec![0x01, 0x00, 0x00, 0x00, 0x00, 0x00, 0x00, 0x00, 0x00, 0x00, 0x00, 0x00, 0x00, 0x00]
}

fn datetime_payload() -> Vec<u8> {
    vec![0xd4, 0x07, 0x01, 0x00, 0x0f, 0x00, 0x0c, 0x00, 0x1e, 0x00, 0x05, 0x00, 0x04, 0x00]
}

fn one_group() -> Vec<u8> {
    let mut v = Vec::new();
    v.extend_from_slice(&record(2, REND_DATA_ID, &file_rend_payload()));
    v.extend_from_slice(&record(2, DATA_ID, b"hi"));
    v.extend_from_slice(&record(2, TITLE_ID, b"a.txt\x00"));
    v.extend_from_slice(&record(2, CREATE_DATE_ID, &datetime_payload()));
    v.extend_from_slice(&record(2, MODIFY_DATE_ID, &datetime_payload()));
    v.extend_from_slice(&record(2, PROPS_ID, b"p"));
    v
}

#[test]
fn whole_buffer_decodes_one_attachment() {
    let mut buf = preamble(1252);
    buf.extend_from_slice(&one_group());
    let attachments = read_attachements(&buf).unwrap();
    assert_eq!(attachments.len(), 1);
    let a = &attachments[0];
    assert_eq!(a.title, "a.txt");
    assert_eq!(a.data, b"hi");
    assert_eq!(
        a.create_date,
        DateTime { year: 2004, month: 1, day: 15, hour: 12, minute: 30, second: 5 }
    );
    assert_eq!(a.modify_date, a.create_date);
    assert_eq!(a.rend_data.attach_type, AttachType::File);
    assert_eq!(a.props, b"p");
    assert!(a.meta.is_none());
    assert!(a.transport_filename.is_none());
}

#[test]
fn message_attributes_are_skipped() {
    let mut buf = preamble(1252);
    buf.extend_from_slice(&record(1, SUBJECT_ID, b"greetings"));
    buf.extend_from_slice(&one_group());
    let attachments = read_attachements(&buf).unwrap();
    assert_eq!(attachments.len(), 1);
    assert_eq!(attachments[0].title, "a.txt");
}

#[test]
fn two_groups_keep_their_order() {
    let mut buf = preamble(1252);
    buf.extend_from_slice(&record(2, REND_DATA_ID, &file_rend_payload()));
    buf.extend_from_slice(&record(2, DATA_ID, b"one"));
    buf.extend_from_slice(&record(2, TITLE_ID, b"first\x00"));
    buf.extend_from_slice(&record(2, CREATE_DATE_ID, &datetime_payload()));
    buf.extend_from_slice(&record(2, MODIFY_DATE_ID, &datetime_payload()));
    buf.extend_from_slice(&record(2, PROPS_ID, b"p"));
    buf.extend_from_slice(&record(2, REND_DATA_ID, &file_rend_payload()));
    buf.extend_from_slice(&record(2, DATA_ID, b"two"));
    buf.extend_from_slice(&record(2, TITLE_ID, b"second\x00"));
    buf.extend_from_slice(&record(2, CREATE_DATE_ID, &datetime_payload()));
    buf.extend_from_slice(&record(2, MODIFY_DATE_ID, &datetime_payload()));
    buf.extend_from_slice(&record(2, PROPS_ID, b"q"));
    let attachments = read_attachements(&buf).unwrap();
    assert_eq!(attachments.len(), 2);
    assert_eq!(attachments[0].title, "first");
    assert_eq!(attachments[1].title, "second");
    assert_eq!(attachments[1].data, b"two");
}

#[test]
fn codepage_checksum_flip_fails_before_attributes() {
    let mut buf = preamble(1252);
    let last = buf.len() - 1;
    buf[last] ^= 0x01;
    // even with a perfectly good attribute after it
    buf.extend_from_slice(&one_group());
    assert!(matches!(TnefReader::new(&buf), Err(Error::ChecksumMismatch)));
    assert!(matches!(read_attachements(&buf), Err(Error::ChecksumMismatch)));
}

#[test]
fn data_before_rend_data_fails() {
    let mut buf = preamble(1252);
    buf.extend_from_slice(&record(2, DATA_ID, b"hi"));
    buf.extend_from_slice(&one_group());
    assert!(matches!(read_attachements(&buf), Err(Error::AttachmentParsingFailure)));
}

#[test]
fn duplicate_title_fails() {
    let mut buf = preamble(1252);
    buf.extend_from_slice(&record(2, REND_DATA_ID, &file_rend_payload()));
    buf.extend_from_slice(&record(2, TITLE_ID, b"a.txt\x00"));
    buf.extend_from_slice(&record(2, TITLE_ID, b"b.txt\x00"));
    buf.extend_from_slice(&record(2, PROPS_ID, b"p"));
    assert!(matches!(read_attachements(&buf), Err(Error::AttachmentParsingFailure)));
}

#[test]
fn duplicate_rend_data_fails() {
    let mut buf = preamble(1252);
    buf.extend_from_slice(&record(2, REND_DATA_ID, &file_rend_payload()));
    buf.extend_from_slice(&record(2, REND_DATA_ID, &file_rend_payload()));
    assert!(matches!(read_attachements(&buf), Err(Error::AttachmentParsingFailure)));
}

#[test]
fn unsupported_code_page_fails_at_init() {
    let buf = preamble(0xfffe);
    assert!(matches!(TnefReader::new(&buf), Err(Error::InvalidOemCodePage)));
    assert!(matches!(read_attachements(&buf), Err(Error::InvalidOemCodePage)));
}

#[test]
fn codepage_record_bad_framing_fails() {
    // declared length 9 instead of 8
    let mut buf = vec![0x78, 0x9f, 0x3e, 0x22, 0x00, 0x00];
    buf.extend_from_slice(&record(1, VERSION_ID, &[0, 0, 1, 0]));
    buf.extend_from_slice(&record(1, CODEPAGE_ID, &[0xe4, 0x04, 0, 0, 0, 0, 0, 0, 0]));
    assert!(matches!(TnefReader::new(&buf), Err(Error::InvalidOemCodePage)));

    // wrong identifier code in the third record
    let mut buf = vec![0x78, 0x9f, 0x3e, 0x22, 0x00, 0x00];
    buf.extend_from_slice(&record(1, VERSION_ID, &[0, 0, 1, 0]));
    buf.extend_from_slice(&record(1, 0x0006_9008, &[0xe4, 0x04, 0, 0, 0, 0, 0, 0]));
    assert!(matches!(TnefReader::new(&buf), Err(Error::InvalidOemCodePage)));

    // wrong level byte on the code-page record
    let mut buf = vec![0x78, 0x9f, 0x3e, 0x22, 0x00, 0x00];
    buf.extend_from_slice(&record(1, VERSION_ID, &[0, 0, 1, 0]));
    buf.extend_from_slice(&record(2, CODEPAGE_ID, &[0xe4, 0x04, 0, 0, 0, 0, 0, 0]));
    assert!(matches!(TnefReader::new(&buf), Err(Error::InvalidOemCodePage)));
}

#[test]
fn nonzero_secondary_code_page_fails_at_init() {
    let mut buf = vec![0x78, 0x9f, 0x3e, 0x22, 0x00, 0x00];
    buf.extend_from_slice(&record(1, VERSION_ID, &[0, 0, 1, 0]));
    buf.extend_from_slice(&record(1, CODEPAGE_ID, &[0xe4, 0x04, 0, 0, 1, 0, 0, 0]));
    assert!(matches!(TnefReader::new(&buf), Err(Error::InvalidOemCodePage)));
}

#[test]
fn bad_magic_fails() {
    let mut buf = preamble(1252);
    buf[0] = 0x79;
    assert!(matches!(TnefReader::new(&buf), Err(Error::InvalidHeader)));
}

#[test]
fn bad_version_record_fails() {
    let mut buf = vec![0x78, 0x9f, 0x3e, 0x22, 0x00, 0x00];
    buf.extend_from_slice(&record(1, VERSION_ID, &[0, 0, 2, 0]));
    assert!(matches!(TnefReader::new(&buf), Err(Error::InvalidVersion)));
}

#[test]
fn empty_buffer_fails_with_eof() {
    assert!(matches!(TnefReader::new(&[]), Err(Error::UnexpectedEof)));
}

#[test]
fn reader_reports_code_page() {
    let buf = preamble(1252);
    let reader = TnefReader::new(&buf).unwrap();
    assert_eq!(reader.get_code_page(), 1252);
}

#[test]
fn yielded_payload_has_declared_length_and_checksum() {
    let mut buf = preamble(1252);
    buf.extend_from_slice(&record(1, SUBJECT_ID, b"greetings"));
    let mut reader = TnefReader::new(&buf).unwrap();
    let (id, payload) = reader.next().unwrap().unwrap();
    assert_eq!(id, AttributeId::Message(MessageAttrId::Subject));
    assert_eq!(payload.len(), 9);
    assert_eq!(payload, b"greetings");
    assert!(reader.next().is_none());
}

#[test]
fn record_checksum_mismatch_fails() {
    let mut buf = preamble(1252);
    let mut rec = record(1, SUBJECT_ID, b"greetings");
    let last = rec.len() - 1;
    rec[last] ^= 0x40;
    buf.extend_from_slice(&rec);
    let mut reader = TnefReader::new(&buf).unwrap();
    assert!(matches!(reader.next(), Some(Err(Error::ChecksumMismatch))));
}

#[test]
fn truncated_payload_fails_with_eof() {
    let mut buf = preamble(1252);
    let rec = record(1, SUBJECT_ID, b"greetings");
    // keep the level byte, the id and the declared length, then cut the
    // payload short
    buf.extend_from_slice(&rec[..rec.len() - 4]);
    let mut reader = TnefReader::new(&buf).unwrap();
    assert!(matches!(reader.next(), Some(Err(Error::UnexpectedEof))));
    assert!(matches!(read_attachements(&buf), Err(Error::UnexpectedEof)));
}

#[test]
fn message_attribute_after_transition_fails() {
    let mut buf = preamble(1252);
    buf.extend_from_slice(&record(2, REND_DATA_ID, &file_rend_payload()));
    buf.extend_from_slice(&record(1, SUBJECT_ID, b"late"));
    let mut reader = TnefReader::new(&buf).unwrap();
    assert!(reader.next().unwrap().is_ok());
    assert!(matches!(reader.next(), Some(Err(Error::UnexpectedMessageAttribute))));
    assert!(matches!(read_attachements(&buf), Err(Error::UnexpectedMessageAttribute)));
}

#[test]
fn invalid_level_byte_fails() {
    let mut buf = preamble(1252);
    buf.extend_from_slice(&record(3, SUBJECT_ID, b"odd"));
    let mut reader = TnefReader::new(&buf).unwrap();
    assert!(matches!(reader.next(), Some(Err(Error::InvalidAttributeLevel(3)))));
}

#[test]
fn unknown_identifier_fails_for_the_active_section() {
    let mut buf = preamble(1252);
    buf.extend_from_slice(&record(1, 0x0000_0042, b"x"));
    let mut reader = TnefReader::new(&buf).unwrap();
    assert!(matches!(reader.next(), Some(Err(Error::InvalidMessageId(0x42)))));
}

#[test]
fn reader_stays_exhausted_after_an_error() {
    let mut buf = preamble(1252);
    buf.extend_from_slice(&record(3, SUBJECT_ID, b"odd"));
    buf.extend_from_slice(&record(1, SUBJECT_ID, b"fine"));
    let mut reader = TnefReader::new(&buf).unwrap();
    assert!(matches!(reader.next(), Some(Err(_))));
    assert!(reader.next().is_none());
    assert!(reader.next().is_none());
}

#[test]
fn in_progress_group_at_stream_end_is_dropped() {
    let mut buf = preamble(1252);
    buf.extend_from_slice(&one_group());
    buf.extend_from_slice(&record(2, REND_DATA_ID, &file_rend_payload()));
    buf.extend_from_slice(&record(2, DATA_ID, b"hi"));
    let attachments = read_attachements(&buf).unwrap();
    assert_eq!(attachments.len(), 1);
}

#[test]
fn group_missing_required_fields_contributes_nothing() {
    let mut buf = preamble(1252);
    // no data, title or dates: finalize drops the group without an error
    buf.extend_from_slice(&record(2, REND_DATA_ID, &file_rend_payload()));
    buf.extend_from_slice(&record(2, PROPS_ID, b"p"));
    let attachments = read_attachements(&buf).unwrap();
    assert_eq!(attachments.len(), 0);
}

#[test]
fn doc_example_buffer_has_no_attachments() {
    let tnef_data = b"\
        \x78\x9f\x3e\x22\x23\x28\x01\x06\x90\x08\x00\x04\x00\x00\x00\x00\
        \x00\x01\x00\x01\x00\x01\x07\x90\x06\x00\x08\x00\x00\x00\xe3\x04\
        \x00\x00\x00\x00\x00\x00\xe7\x00\
    ";
    let mut reader = TnefReader::new(tnef_data).unwrap();
    assert_eq!(reader.get_code_page(), 1251);
    assert!(reader.next().is_none());
    assert_eq!(read_attachements(tnef_data).unwrap().len(), 0);
}
