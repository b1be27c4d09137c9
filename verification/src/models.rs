//! Plain data of the mail model: folders, message summaries, attachments.

use vstd::prelude::*;
use vstd::utf8::encode_utf8;
use crate::text::clone_opt_string;

verus! {

/// A mail folder (a mailbox on the server).
#[derive(Debug, PartialEq, Eq)]
pub struct Folder {
    pub name: String,
    /// Hierarchical path: the folder's identity within its account.
    pub path: String,
    pub unread_count: u32,
    pub total_count: u32,
    /// Opaque mailbox identity: the key that joins cache rows and live sessions.
    pub mailbox_hash: u64,
}

impl Clone for Folder {
    fn clone(&self) -> (r: Self)
        ensures
            r == *self,
    {
        Folder {
            name: self.name.clone(),
            path: self.path.clone(),
            unread_count: self.unread_count,
            total_count: self.total_count,
            mailbox_hash: self.mailbox_hash,
        }
    }
}

/// Header-only projection of a message, as shown in the list.
#[derive(Debug, PartialEq, Eq)]
pub struct MessageSummary {
    pub uid: u64,
    pub subject: String,
    pub from: String,
    pub date: String,
    pub is_read: bool,
    pub is_starred: bool,
    pub has_attachments: bool,
    pub thread_id: Option<u64>,
    /// Stable identity of the message within its account.
    pub envelope_hash: u64,
    pub timestamp: i64,
    /// Identity of the folder that holds the message.
    pub mailbox_hash: u64,
    pub message_id: String,
    pub in_reply_to: Option<String>,
    pub reply_to: Option<String>,
    /// Depth in its thread; a thread root has depth 0.
    pub thread_depth: u32,
}

impl Clone for MessageSummary {
    fn clone(&self) -> (r: Self)
        ensures
            r == *self,
    {
        MessageSummary {
            uid: self.uid,
            subject: self.subject.clone(),
            from: self.from.clone(),
            date: self.date.clone(),
            is_read: self.is_read,
            is_starred: self.is_starred,
            has_attachments: self.has_attachments,
            thread_id: self.thread_id,
            envelope_hash: self.envelope_hash,
            timestamp: self.timestamp,
            mailbox_hash: self.mailbox_hash,
            message_id: self.message_id.clone(),
            in_reply_to: clone_opt_string(&self.in_reply_to),
            reply_to: clone_opt_string(&self.reply_to),
            thread_depth: self.thread_depth,
        }
    }
}

/// Decoded attachment data for display and saving.
#[derive(Debug, PartialEq, Eq)]
pub struct AttachmentData {
    pub filename: String,
    pub mime_type: String,
    pub data: Vec<u8>,
}

impl Clone for AttachmentData {
    fn clone(&self) -> (r: Self)
        ensures
            r.filename == self.filename,
            r.mime_type == self.mime_type,
            r.data@ == self.data@,
    {
        AttachmentData {
            filename: self.filename.clone(),
            mime_type: self.mime_type.clone(),
            data: self.data.clone(),
        }
    }
}

/// An ASCII upper-case letter becomes lower case; every other byte stays.
pub open spec fn ascii_lower(b: u8) -> u8 {
    if 65 <= b <= 90 {
        (b + 32) as u8
    } else {
        b
    }
}

/// The bytes of `image/`.
pub open spec fn image_prefix() -> Seq<u8> {
    seq![105u8, 109u8, 97u8, 103u8, 101u8, 47u8]
}

/// Whether a MIME type, given by its UTF-8 bytes, starts with `image/`,
/// ASCII letters compared without regard to case.
pub open spec fn is_image_type(bytes: Seq<u8>) -> bool {
    &&& bytes.len() >= 6
    &&& forall|i: int| 0 <= i < 6 ==> ascii_lower(#[trigger] bytes[i]) == image_prefix()[i]
}

fn lower_byte(b: u8) -> (r: u8)
    ensures
        r == ascii_lower(b),
{
    if 65 <= b && b <= 90 {
        b + 32
    } else {
        b
    }
}

impl AttachmentData {
    /// Whether the attachment is an image, by its MIME type.
    pub fn is_image(&self) -> (r: bool)
        ensures
            r == is_image_type(encode_utf8(self.mime_type@)),
    {
        let bytes = self.mime_type.as_str().as_bytes();
        if bytes.len() < 6 {
            return false;
        }
        let pattern: [u8; 6] = [105u8, 109u8, 97u8, 103u8, 101u8, 47u8];
        let mut i: usize = 0;
        while i < 6
            invariant
                i <= 6,
                bytes@.len() >= 6,
                bytes@ == encode_utf8(self.mime_type@),
                pattern@ == image_prefix(),
                forall|j: int| 0 <= j < i ==> ascii_lower(#[trigger] bytes@[j]) == image_prefix()[j],
            decreases 6 - i,
        {
            if lower_byte(bytes[i]) != pattern[i] {
                return false;
            }
            i += 1;
        }
        true
    }
}

} // verus!
