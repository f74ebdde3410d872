use tnef::AttachDataFlags;
use tnef::AttachType;
use tnef::Attachment;
use tnef::DateTime;
use tnef::RawAttachment;
use tnef::RendData;

fn sample_rend() -> RendData {
    RendData {
        attach_type: AttachType::File,
        attach_position: 0,
        render_width: 0,
        render_height: 0,
        flags: AttachDataFlags::FileDataDefault,
    }
}

fn sample_date() -> DateTime {
    DateTime { year: 2004, month: 1, day: 15, hour: 12, minute: 30, second: 5 }
}

fn complete_raw() -> RawAttachment {
    let mut raw = RawAttachment::default();
    raw.rend_data = Some(sample_rend());
    raw.data = Some(b"hi".to_vec());
    raw.title = Some("a.txt".to_string());
    raw.create_date = Some(sample_date());
    raw.modify_date = Some(sample_date());
    raw.props = Some(b"p".to_vec());
    raw
}

#[test]
fn default_accumulator_is_empty() {
    assert!(RawAttachment::default().is_default());
}

#[test]
fn accumulator_with_a_field_is_not_empty() {
    let mut raw = RawAttachment::default();
    raw.rend_data = Some(sample_rend());
    assert!(!raw.is_default());
}

#[test]
fn from_raw_builds_a_complete_attachment() {
    let att = Attachment::from_raw(complete_raw()).unwrap();
    assert_eq!(att.title, "a.txt");
    assert_eq!(att.data, b"hi");
    assert_eq!(att.create_date, sample_date());
    assert_eq!(att.props, b"p");
    assert!(att.meta.is_none());
    assert!(att.transport_filename.is_none());
}

#[test]
fn from_raw_keeps_the_optional_fields() {
    let mut raw = complete_raw();
    raw.meta = Some(b"m".to_vec());
    raw.transport_filename = Some("t".to_string());
    let att = Attachment::from_raw(raw).unwrap();
    assert_eq!(att.meta.as_deref(), Some(&b"m"[..]));
    assert_eq!(att.transport_filename.as_deref(), Some("t"));
}

#[test]
fn from_raw_rejects_a_missing_required_field() {
    let mut raw = complete_raw();
    raw.title = None;
    assert!(Attachment::from_raw(raw).is_none());

    let mut raw = complete_raw();
    raw.modify_date = None;
    assert!(Attachment::from_raw(raw).is_none());

    let mut raw = complete_raw();
    raw.props = None;
    assert!(Attachment::from_raw(raw).is_none());
}
