//! The ways in which loading content can fail.

use vstd::prelude::*;

verus! {

/// Why a listing or a post could not be produced.
#[derive(Clone, Copy, Debug, PartialEq, Eq, Structural)]
pub enum ContentError {
    /// The posts root, or one of the directories under it, could not be listed.
    DirectoryUnreadable,
    /// A metadata sidecar does not hold the four required text fields.
    MalformedMetadata,
    /// No regular file stands where the post's body is expected.
    PostNotFound,
    /// A file is there but could not be read.
    IoFailure,
    /// The identifier is empty, or could lead out of the posts root.
    InvalidIdentifier,
}

impl ContentError {
    /// The message of each failure, as a sequence of characters.
    pub open spec fn message(self) -> Seq<char> {
        match self {
            ContentError::DirectoryUnreadable => "posts directory could not be listed"@,
            ContentError::MalformedMetadata => "post metadata is malformed"@,
            ContentError::PostNotFound => "post not found"@,
            ContentError::IoFailure => "post could not be read"@,
            ContentError::InvalidIdentifier => "invalid post identifier"@,
        }
    }

    /// A short message for the failure, fit to show to a visitor.
    pub fn describe(&self) -> (text: &'static str)
        ensures
            text@ == self.message(),
    {
        match self {
            ContentError::DirectoryUnreadable => "posts directory could not be listed",
            ContentError::MalformedMetadata => "post metadata is malformed",
            ContentError::PostNotFound => "post not found",
            ContentError::IoFailure => "post could not be read",
            ContentError::InvalidIdentifier => "invalid post identifier",
        }
    }
}

} // verus!
