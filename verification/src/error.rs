//! The errors that the library's own decisions can end in.

use vstd::prelude::*;

verus! {

/// A member of a push notification that the decoder cannot do without.
/// `detail`, `action-type` and `result` are asked of every notification,
/// the five others of a successful push only.
#[derive(Clone, Copy, Debug, PartialEq, Eq, Structural)]
pub enum EventField {
    Detail,
    ActionType,
    ActionResult,
    Account,
    Region,
    RepositoryName,
    ImageDigest,
    ImageTag,
}

impl EventField {
    /// The member's name in the notification.
    pub open spec fn name(self) -> Seq<char> {
        match self {
            EventField::Detail => "detail"@,
            EventField::ActionType => "action-type"@,
            EventField::ActionResult => "result"@,
            EventField::Account => "account"@,
            EventField::Region => "region"@,
            EventField::RepositoryName => "repository-name"@,
            EventField::ImageDigest => "image-digest"@,
            EventField::ImageTag => "image-tag"@,
        }
    }

    pub fn key(self) -> (r: &'static str)
        ensures
            r@ == self.name(),
    {
        match self {
            EventField::Detail => "detail",
            EventField::ActionType => "action-type",
            EventField::ActionResult => "result",
            EventField::Account => "account",
            EventField::Region => "region",
            EventField::RepositoryName => "repository-name",
            EventField::ImageDigest => "image-digest",
            EventField::ImageTag => "image-tag",
        }
    }
}

#[derive(Debug, PartialEq, Eq)]
pub enum SeedyError {
    /// The label filter is not of the form `key=value`.
    LabelFilterError { label: String },
    /// The notification is not the text of a JSON object.
    MalformedEvent,
    /// The notification lacks a member that the decoder needs.
    MissingField { field: EventField },
    /// A member is there, but is not what it has to be: `detail` an object,
    /// each of the five strings of an event a string.
    UnexpectedType { field: EventField },
    /// The registry's authorization holds no token, or one that is not the
    /// base64 form of `username:password`.
    MalformedCredential,
}

} // verus!
