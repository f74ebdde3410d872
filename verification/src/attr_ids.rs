//! The closed tables of known attribute identifiers, qualified by which
//! section of the stream is active.
use vstd::prelude::*;

use crate::error::Error;

verus! {

/// Attribute ID: a message-section identifier or an attachment-section
/// identifier, depending on which section of the stream produced it.
#[derive(Copy, Clone, Debug, PartialEq, Eq, Structural, Hash)]
pub enum AttributeId {
    /// Message level attribute IDs.
    Message(MessageAttrId),
    /// Attachment level attribute IDs.
    Attachment(AttachAttrId),
}

/// Message level attribute IDs.
#[derive(Copy, Clone, Debug, PartialEq, Eq, Structural, Hash)]
pub enum MessageAttrId {
    MessageClass,
    From,
    Subject,
    DateSent,
    DateRecd,
    MessageStatus,
    MessageID,
    ConversationID,
    Body,
    Priority,
    DateModified,
    MsgProps,
    RecipTable,
    OriginalMessageClass,
    Owner,
    SentFor,
    Delegate,
    DateStart,
    DateEnd,
    AidOwner,
    RequestRes,
}

/// Attachment level attribute IDs.
#[derive(Copy, Clone, Debug, PartialEq, Eq, Structural, Hash)]
pub enum AttachAttrId {
    Data,
    Title,
    MetaFile,
    CreateDate,
    ModifyDate,
    TransportFilename,
    AttachRendData,
    Attachment,
}

/// The message-section identifier table: which 32-bit codes are known, and
/// which identifier each resolves to.
pub open spec fn spec_message_attr_id(id: u32) -> Option<MessageAttrId> {
    if id == 0x0007_8008u32 {
        Some(MessageAttrId::MessageClass)
    } else if id == 0x0000_8000u32 {
        Some(MessageAttrId::From)
    } else if id == 0x0001_8004u32 {
        Some(MessageAttrId::Subject)
    } else if id == 0x0003_8005u32 {
        Some(MessageAttrId::DateSent)
    } else if id == 0x0003_8006u32 {
        Some(MessageAttrId::DateRecd)
    } else if id == 0x0006_8007u32 {
        Some(MessageAttrId::MessageStatus)
    } else if id == 0x0001_8009u32 {
        Some(MessageAttrId::MessageID)
    } else if id == 0x0001_800Bu32 {
        Some(MessageAttrId::ConversationID)
    } else if id == 0x0004_8020u32 {
        Some(MessageAttrId::Body)
    } else if id == 0x0004_800Du32 {
        Some(MessageAttrId::Priority)
    } else if id == 0x0003_8020u32 {
        Some(MessageAttrId::DateModified)
    } else if id == 0x0006_9003u32 {
        Some(MessageAttrId::MsgProps)
    } else if id == 0x0006_9004u32 {
        Some(MessageAttrId::RecipTable)
    } else if id == 0x0007_0600u32 {
        Some(MessageAttrId::OriginalMessageClass)
    } else if id == 0x0006_0000u32 {
        Some(MessageAttrId::Owner)
    } else if id == 0x0006_0001u32 {
        Some(MessageAttrId::SentFor)
    } else if id == 0x0006_0200u32 {
        Some(MessageAttrId::Delegate)
    } else if id == 0x0003_0006u32 {
        Some(MessageAttrId::DateStart)
    } else if id == 0x0003_0007u32 {
        Some(MessageAttrId::DateEnd)
    } else if id == 0x0005_0008u32 {
        Some(MessageAttrId::AidOwner)
    } else if id == 0x0004_0090u32 {
        Some(MessageAttrId::RequestRes)
    } else {
        None
    }
}

/// The attachment-section identifier table.
pub open spec fn spec_attach_attr_id(id: u32) -> Option<AttachAttrId> {
    if id == 0x0006_800Fu32 {
        Some(AttachAttrId::Data)
    } else if id == 0x0001_8010u32 {
        Some(AttachAttrId::Title)
    } else if id == 0x0006_8011u32 {
        Some(AttachAttrId::MetaFile)
    } else if id == 0x0003_8012u32 {
        Some(AttachAttrId::CreateDate)
    } else if id == 0x0003_8013u32 {
        Some(AttachAttrId::ModifyDate)
    } else if id == 0x0006_9001u32 {
        Some(AttachAttrId::TransportFilename)
    } else if id == 0x0006_9002u32 {
        Some(AttachAttrId::AttachRendData)
    } else if id == 0x0006_9005u32 {
        Some(AttachAttrId::Attachment)
    } else {
        None
    }
}

/// Resolution of a raw code qualified by the active section: a known code
/// resolves to its identifier, an unknown one is rejected.
pub open spec fn spec_attribute_id(is_msg: bool, id: u32) -> Result<AttributeId, Error> {
    if is_msg {
        match spec_message_attr_id(id) {
            Some(m) => Ok(AttributeId::Message(m)),
            None => Err(Error::InvalidMessageId(id)),
        }
    } else {
        match spec_attach_attr_id(id) {
            Some(a) => Ok(AttributeId::Attachment(a)),
            None => Err(Error::InvalidAttachAttr(id)),
        }
    }
}

impl MessageAttrId {
    /// Resolves a raw 32-bit code against the message-section table.
    pub fn from_u32(id: u32) -> (r: Result<Self, Error>)
        ensures
            (match spec_message_attr_id(id) {
                Some(m) => r == Ok::<MessageAttrId, Error>(m),
                None => r == Err::<MessageAttrId, Error>(Error::InvalidMessageId(id)),
            }),
    {
        Ok(
            match id {
                0x0007_8008 => MessageAttrId::MessageClass,
                0x0000_8000 => MessageAttrId::From,
                0x0001_8004 => MessageAttrId::Subject,
                0x0003_8005 => MessageAttrId::DateSent,
                0x0003_8006 => MessageAttrId::DateRecd,
                0x0006_8007 => MessageAttrId::MessageStatus,
                0x0001_8009 => MessageAttrId::MessageID,
                0x0001_800B => MessageAttrId::ConversationID,
                0x0004_8020 => MessageAttrId::Body,
                0x0004_800D => MessageAttrId::Priority,
                0x0003_8020 => MessageAttrId::DateModified,
                0x0006_9003 => MessageAttrId::MsgProps,
                0x0006_9004 => MessageAttrId::RecipTable,
                0x0007_0600 => MessageAttrId::OriginalMessageClass,
                0x0006_0000 => MessageAttrId::Owner,
                0x0006_0001 => MessageAttrId::SentFor,
                0x0006_0200 => MessageAttrId::Delegate,
                0x0003_0006 => MessageAttrId::DateStart,
                0x0003_0007 => MessageAttrId::DateEnd,
                0x0005_0008 => MessageAttrId::AidOwner,
                0x0004_0090 => MessageAttrId::RequestRes,
                _ => {
                    return Err(Error::InvalidMessageId(id));
                },
            },
        )
    }
}

impl AttachAttrId {
    /// Resolves a raw 32-bit code against the attachment-section table.
    pub fn from_u32(id: u32) -> (r: Result<Self, Error>)
        ensures
            (match spec_attach_attr_id(id) {
                Some(a) => r == Ok::<AttachAttrId, Error>(a),
                None => r == Err::<AttachAttrId, Error>(Error::InvalidAttachAttr(id)),
            }),
    {
        Ok(
            match id {
                0x0006_800F => AttachAttrId::Data,
                0x0001_8010 => AttachAttrId::Title,
                0x0006_8011 => AttachAttrId::MetaFile,
                0x0003_8012 => AttachAttrId::CreateDate,
                0x0003_8013 => AttachAttrId::ModifyDate,
                0x0006_9001 => AttachAttrId::TransportFilename,
                0x0006_9002 => AttachAttrId::AttachRendData,
                0x0006_9005 => AttachAttrId::Attachment,
                _ => {
                    return Err(Error::InvalidAttachAttr(id));
                },
            },
        )
    }
}

impl AttributeId {
    /// Resolves a raw 32-bit code qualified by the active section.
    pub fn from_u32(is_msg: bool, id: u32) -> (r: Result<Self, Error>)
        ensures
            r == spec_attribute_id(is_msg, id),
    {
        if is_msg {
            match MessageAttrId::from_u32(id) {
                Ok(m) => Ok(AttributeId::Message(m)),
                Err(e) => Err(e),
            }
        } else {
            match AttachAttrId::from_u32(id) {
                Ok(a) => Ok(AttributeId::Attachment(a)),
                Err(e) => Err(e),
            }
        }
    }
}

} // verus!
