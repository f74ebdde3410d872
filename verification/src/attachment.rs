//! Attachment records: the transient per-attachment accumulator and the
//! finalized attachment.
use vstd::prelude::*;

use crate::fields::DateTime;
use crate::fields::RendData;

verus! {

/// The mathematical content of an accumulator: up to eight optional fields.
pub struct RawModel {
    pub data: Option<Seq<u8>>,
    pub title: Option<Seq<char>>,
    pub meta: Option<Seq<u8>>,
    pub create_date: Option<DateTime>,
    pub modify_date: Option<DateTime>,
    pub transport_filename: Option<Seq<char>>,
    pub rend_data: Option<RendData>,
    pub props: Option<Seq<u8>>,
}

/// The accumulator with no field set: the state in which every attachment
/// group starts.
pub open spec fn spec_raw_empty() -> RawModel {
    RawModel {
        data: None,
        title: None,
        meta: None,
        create_date: None,
        modify_date: None,
        transport_filename: None,
        rend_data: None,
        props: None,
    }
}

/// Whether an accumulator has no field set.
pub open spec fn spec_raw_is_empty(t: RawModel) -> bool {
    t.data is None && t.title is None && t.meta is None && t.create_date is None
        && t.modify_date is None && t.transport_filename is None && t.rend_data is None
        && t.props is None
}

/// TNEF attachment accumulator: holds the fields of one attachment group as
/// they arrive, each at most once.
pub struct RawAttachment {
    pub data: Option<Vec<u8>>,
    pub title: Option<String>,
    pub meta: Option<Vec<u8>>,
    pub create_date: Option<DateTime>,
    pub modify_date: Option<DateTime>,
    pub transport_filename: Option<String>,
    pub rend_data: Option<RendData>,
    pub props: Option<Vec<u8>>,
}

impl View for RawAttachment {
    type V = RawModel;

    open spec fn view(&self) -> RawModel {
        RawModel {
            data: (match self.data {
                Some(v) => Some(v@),
                None => None,
            }),
            title: (match self.title {
                Some(s) => Some(s@),
                None => None,
            }),
            meta: (match self.meta {
                Some(v) => Some(v@),
                None => None,
            }),
            create_date: self.create_date,
            modify_date: self.modify_date,
            transport_filename: (match self.transport_filename {
                Some(s) => Some(s@),
                None => None,
            }),
            rend_data: self.rend_data,
            props: (match self.props {
                Some(v) => Some(v@),
                None => None,
            }),
        }
    }
}

impl Default for RawAttachment {
    /// A fresh accumulator with no field set.
    fn default() -> (r: Self)
        ensures
            r@ == spec_raw_empty(),
    {
        RawAttachment {
            data: None,
            title: None,
            meta: None,
            create_date: None,
            modify_date: None,
            transport_filename: None,
            rend_data: None,
            props: None,
        }
    }
}

impl RawAttachment {
    /// Whether no field has been set yet.
    pub fn is_default(&self) -> (r: bool)
        ensures
            r == spec_raw_is_empty(self@),
    {
        match self {
            RawAttachment {
                data: None,
                title: None,
                meta: None,
                create_date: None,
                modify_date: None,
                transport_filename: None,
                rend_data: None,
                props: None,
            } => true,
            _ => false,
        }
    }
}

/// The mathematical content of a finalized attachment: six required fields,
/// two optional ones.
pub struct AttachModel {
    pub title: Seq<char>,
    pub data: Seq<u8>,
    pub create_date: DateTime,
    pub modify_date: DateTime,
    pub rend_data: RendData,
    pub props: Seq<u8>,
    pub meta: Option<Seq<u8>>,
    pub transport_filename: Option<Seq<char>>,
}

/// TNEF attachment: an immutable record with title, data, both timestamps,
/// rendering descriptor and properties always present.
#[derive(Debug, Clone)]
pub struct Attachment {
    pub title: String,
    pub data: Vec<u8>,
    pub create_date: DateTime,
    pub modify_date: DateTime,
    pub rend_data: RendData,
    pub props: Vec<u8>,
    pub meta: Option<Vec<u8>>,
    pub transport_filename: Option<String>,
}

impl View for Attachment {
    type V = AttachModel;

    open spec fn view(&self) -> AttachModel {
        AttachModel {
            title: self.title@,
            data: self.data@,
            create_date: self.create_date,
            modify_date: self.modify_date,
            rend_data: self.rend_data,
            props: self.props@,
            meta: (match self.meta {
                Some(v) => Some(v@),
                None => None,
            }),
            transport_filename: (match self.transport_filename {
                Some(s) => Some(s@),
                None => None,
            }),
        }
    }
}

/// What finalizing an accumulator yields: a complete attachment when all six
/// required fields are present, and nothing otherwise (the incomplete group
/// is silently discarded).
pub open spec fn spec_from_raw(t: RawModel) -> Option<AttachModel> {
    if t.title is Some && t.data is Some && t.create_date is Some && t.modify_date is Some
        && t.rend_data is Some && t.props is Some {
        Some(
            AttachModel {
                title: t.title.unwrap(),
                data: t.data.unwrap(),
                create_date: t.create_date.unwrap(),
                modify_date: t.modify_date.unwrap(),
                rend_data: t.rend_data.unwrap(),
                props: t.props.unwrap(),
                meta: t.meta,
                transport_filename: t.transport_filename,
            },
        )
    } else {
        None
    }
}

impl Attachment {
    /// Converts a complete accumulator into an attachment; an incomplete one
    /// yields nothing.
    pub fn from_raw(raw: RawAttachment) -> (r: Option<Self>)
        ensures
            (match spec_from_raw(raw@) {
                Some(m) => r matches Some(a) && a@ == m,
                None => r is None,
            }),
    {
        match raw {
            RawAttachment {
                title: Some(title),
                data: Some(data),
                create_date: Some(create_date),
                modify_date: Some(modify_date),
                rend_data: Some(rend_data),
                props: Some(props),
                meta,
                transport_filename,
            } => Some(
                Attachment {
                    title,
                    data,
                    create_date,
                    modify_date,
                    rend_data,
                    props,
                    meta,
                    transport_filename,
                },
            ),
            _ => None,
        }
    }
}

} // verus!
