//! Whether a post goes live or is stored as a draft.

use vstd::prelude::*;

verus! {

/// The two states a post can be submitted in.
#[derive(Debug, Clone, Copy, PartialEq, Eq, Structural)]
pub enum PostStatus {
    Published,
    Draft,
}

impl PostStatus {
    /// The value of the `post-status` form field.
    pub open spec fn wire_value(self) -> Seq<char> {
        match self {
            PostStatus::Published => "published"@,
            PostStatus::Draft => "draft"@,
        }
    }

    /// What a person is told happened, as the start of a sentence.
    pub open spec fn action(self) -> Seq<char> {
        match self {
            PostStatus::Published => "Post published"@,
            PostStatus::Draft => "Draft created"@,
        }
    }

    /// The word for the thing being submitted.
    pub open spec fn noun_text(self) -> Seq<char> {
        match self {
            PostStatus::Published => "post"@,
            PostStatus::Draft => "draft"@,
        }
    }

    /// The value sent to the endpoint for this status.
    pub fn as_str(&self) -> (s: &str)
        ensures
            s@ == self.wire_value(),
    {
        match self {
            PostStatus::Published => "published",
            PostStatus::Draft => "draft",
        }
    }

    /// The human-readable account of a successful submission.
    pub fn action_description(&self) -> (s: &str)
        ensures
            s@ == self.action(),
    {
        match self {
            PostStatus::Published => "Post published",
            PostStatus::Draft => "Draft created",
        }
    }

    /// The word used for the submission in messages to the user.
    pub fn noun(&self) -> (s: &str)
        ensures
            s@ == self.noun_text(),
    {
        match self {
            PostStatus::Published => "post",
            PostStatus::Draft => "draft",
        }
    }

    pub fn is_draft(&self) -> (b: bool)
        ensures
            b == (*self == PostStatus::Draft),
    {
        match self {
            PostStatus::Draft => true,
            PostStatus::Published => false,
        }
    }
}

} // verus!
