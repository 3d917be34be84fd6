//! The parts of a received status that the filters and loggers read.
use vstd::prelude::*;

verus! {

/// Who can see a status.
#[derive(PartialEq, Eq, Structural, Clone, Copy, Debug)]
pub enum StatusVisibility {
    Public,
    Unlisted,
    Private,
    Direct,
    Local,
}

/// The kind of a media attachment.
#[derive(PartialEq, Eq, Structural, Clone, Copy, Debug)]
pub enum AttachmentType {
    Image,
    Gifv,
    Video,
    Audio,
    Unknown,
}

/// A media attachment of a status.
pub struct Attachment {
    pub kind: AttachmentType,
    pub url: String,
}

/// The author of a status.
pub struct Account {
    /// `user` for a local account, `user@example.tld` for a remote one.
    pub acct: String,
    pub display_name: String,
    /// URL of the avatar image.
    pub avatar: String,
}

/// A status as received from a timeline.
pub struct Status {
    pub uri: String,
    pub account: Account,
    /// The repeated status, when this status is a repeat.
    pub reblog: Option<Box<Status>>,
    /// HTML content.
    pub content: String,
    /// Plain-text content, where the server provides one.
    pub plain_content: Option<String>,
    /// Creation time in RFC 3339 form.
    pub created_at: String,
    pub visibility: StatusVisibility,
    pub media_attachments: Vec<Attachment>,
    /// Whether the status quotes another one.
    pub quote: bool,
}

} // verus!
