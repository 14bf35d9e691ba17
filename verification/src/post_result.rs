//! What the endpoint answers when it has stored a post.

use vstd::prelude::*;
use vstd::string::*;
use crate::post_status::PostStatus;

verus! {

/// Where the stored post can be seen, previewed and edited, and the status
/// it was submitted with.
#[derive(Debug)]
pub struct PostResult {
    pub url: String,
    pub preview: String,
    pub edit: String,
    pub post_status: PostStatus,
}

/// What a `PostResult` holds, as plain values.
pub struct PostResultView {
    pub url: Seq<char>,
    pub preview: Seq<char>,
    pub edit: Seq<char>,
    pub post_status: PostStatus,
}

impl View for PostResult {
    type V = PostResultView;

    open spec fn view(&self) -> PostResultView {
        PostResultView {
            url: self.url@,
            preview: self.preview@,
            edit: self.edit@,
            post_status: self.post_status,
        }
    }
}

impl PostResultView {
    /// The account of the result that a person reads.
    pub open spec fn summary(self) -> Seq<char> {
        self.post_status.action() + " successfully.\n\nURL:     "@ + self.url + "\nPreview: "@
            + self.preview + "\nEdit:    "@ + self.edit
    }
}

impl PostResult {
    /// The result in words: what happened, then the three addresses, one to
    /// a line.
    pub fn as_string(&self) -> (s: String)
        ensures
            s@ == self@.summary(),
    {
        let mut s = self.post_status.action_description().to_owned();
        s.append(" successfully.\n\nURL:     ");
        s.append(self.url.as_str());
        s.append("\nPreview: ");
        s.append(self.preview.as_str());
        s.append("\nEdit:    ");
        s.append(self.edit.as_str());
        s
    }
}

} // verus!
