//! Decoder for the TNEF binary container format: a flat stream of leveled,
//! checksummed, tagged records ("attributes") holding a mail message and its
//! attachments.
//!
//! `TnefReader` validates the fixed preamble and then yields the attributes
//! one by one, each checksum-verified. `read_attachements` folds the
//! attachment-level attributes into complete, strongly-typed attachment
//! records.
mod assemble;
mod attachment;
mod attr_ids;
mod bytes;
mod error;
mod fields;
mod reader;

pub use assemble::asm_step;
pub use assemble::lemma_group_must_open_with_rend_data;
pub use assemble::lemma_incomplete_group_dropped_at_end;
pub use assemble::lemma_incomplete_group_dropped_at_finalize;
pub use assemble::lemma_sample_stream_decodes_one_attachment;
pub use assemble::read_attachements;
pub use assemble::sample_attachment;
pub use assemble::sample_stream;
pub use assemble::spec_decode;
pub use assemble::views_of;
pub use attachment::AttachModel;
pub use attachment::Attachment;
pub use attachment::RawAttachment;
pub use attachment::RawModel;
pub use attachment::spec_from_raw;
pub use attachment::spec_raw_empty;
pub use attachment::spec_raw_is_empty;
pub use attr_ids::AttachAttrId;
pub use attr_ids::AttributeId;
pub use attr_ids::MessageAttrId;
pub use attr_ids::spec_attach_attr_id;
pub use attr_ids::spec_attribute_id;
pub use attr_ids::spec_message_attr_id;
pub use bytes::checksum16;
pub use bytes::compute_checksum;
pub use bytes::le16;
pub use bytes::le32;
pub use error::Error;
pub use fields::AttachDataFlags;
pub use fields::AttachType;
pub use fields::DateTime;
pub use fields::RendData;
pub use fields::cp_supported;
pub use fields::days_in_month;
pub use fields::decoded_text;
pub use fields::is_leap_year;
pub use fields::parse_datetime;
pub use fields::parse_string;
pub use fields::read_le16;
pub use fields::read_le32;
pub use fields::spec_datetime_valid;
pub use fields::spec_parse_datetime;
pub use fields::spec_parse_rend;
pub use fields::spec_parse_string;
pub use fields::valid_hms;
pub use fields::valid_ymd;
pub use reader::AttrStep;
pub use reader::CODEPAGE_ATTR_CODE;
pub use reader::TNEF_SIGNATURE;
pub use reader::TnefReader;
pub use reader::VERSION_ATTR_CODE;
pub use reader::attr_step;
pub use reader::spec_preamble;
pub use reader::spec_read_codepage;
pub use reader::spec_read_header;
pub use reader::lemma_payload_matches_declaration;
pub use reader::lemma_section_monotonic;
pub use reader::lemma_truncated_declared_length;
pub use reader::spec_read_version;
