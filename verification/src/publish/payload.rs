//! The two documents the endpoint answers with: one when it has stored the
//! post, one when it has refused it. Both are JSON objects, and every member
//! named here must be there with a string for its value. Other members are
//! passed over.

use vstd::prelude::*;
use vstd::string::*;
use crate::json::{string_member, string_members};
use crate::post_status::PostStatus;
use crate::publish::error::{JsonError, JsonErrorView};

verus! {

/// The member `key` of `members`, if there is one.
pub open spec fn lookup(members: Map<Seq<char>, Seq<char>>, key: Seq<char>) -> Option<Seq<char>> {
    if members.contains_key(key) {
        Some(members[key])
    } else {
        None
    }
}

/// The answer to a post that was stored: where to see, preview and edit it.
#[derive(Debug)]
pub struct PostResponse {
    pub url: String,
    pub preview: String,
    pub edit: String,
}

/// What a `PostResponse` holds, as plain values.
pub struct PostResponseView {
    pub url: Seq<char>,
    pub preview: Seq<char>,
    pub edit: Seq<char>,
}

impl View for PostResponse {
    type V = PostResponseView;

    open spec fn view(&self) -> PostResponseView {
        PostResponseView { url: self.url@, preview: self.preview@, edit: self.edit@ }
    }
}

impl PostResponseView {
    /// The response made of three members, or the first of `url`, `preview`
    /// and `edit` that is missing.
    pub open spec fn of_fields(
        url: Option<Seq<char>>,
        preview: Option<Seq<char>>,
        edit: Option<Seq<char>>,
    ) -> Result<PostResponseView, JsonErrorView> {
        if url is None {
            Err(JsonErrorView::MissingField("url"@))
        } else if preview is None {
            Err(JsonErrorView::MissingField("preview"@))
        } else if edit is None {
            Err(JsonErrorView::MissingField("edit"@))
        } else {
            Ok(PostResponseView { url: url->0, preview: preview->0, edit: edit->0 })
        }
    }

    /// The response that a document with these string members holds.
    pub open spec fn of_members(members: Map<Seq<char>, Seq<char>>) -> Result<
        PostResponseView,
        JsonErrorView,
    > {
        Self::of_fields(
            lookup(members, "url"@),
            lookup(members, "preview"@),
            lookup(members, "edit"@),
        )
    }

    /// The short account of a stored post: what happened, then the three
    /// addresses, one to a line.
    pub open spec fn report(self, post_status: PostStatus) -> Seq<char> {
        post_status.action() + " successfully.\nURL: "@ + self.url + "\nPreview: "@ + self.preview
            + "\nEdit: "@ + self.edit
    }
}

impl PostResponse {
    /// Puts the response together from its three members, each as it was
    /// found or not found.
    pub fn from_fields(url: Option<String>, preview: Option<String>, edit: Option<String>) -> (res:
        Result<PostResponse, JsonError>)
        ensures
            result_view(res) == PostResponseView::of_fields(
                url.deep_view(),
                preview.deep_view(),
                edit.deep_view(),
            ),
    {
        match url {
            None => Err(JsonError::MissingField("url".to_owned())),
            Some(url) => match preview {
                None => Err(JsonError::MissingField("preview".to_owned())),
                Some(preview) => match edit {
                    None => Err(JsonError::MissingField("edit".to_owned())),
                    Some(edit) => Ok(PostResponse { url, preview, edit }),
                },
            },
        }
    }

    /// Reads the response out of a parsed document.
    pub fn from_document(doc: &serde_json::Value) -> (res: Result<PostResponse, JsonError>)
        ensures
            result_view(res) == PostResponseView::of_members(string_members(*doc)),
    {
        let url = string_member(doc, "url");
        let preview = string_member(doc, "preview");
        let edit = string_member(doc, "edit");
        PostResponse::from_fields(url, preview, edit)
    }

    /// The response in words, for a post submitted with `post_status`.
    pub fn report(&self, post_status: PostStatus) -> (s: String)
        ensures
            s@ == self@.report(post_status),
    {
        let mut s = post_status.action_description().to_owned();
        s.append(" successfully.\nURL: ");
        s.append(self.url.as_str());
        s.append("\nPreview: ");
        s.append(self.preview.as_str());
        s.append("\nEdit: ");
        s.append(self.edit.as_str());
        s
    }
}

/// The answer to a post that was refused: the endpoint's error code and its
/// description of what went wrong.
#[derive(Debug)]
pub struct ApiPostError {
    pub error: String,
    pub error_description: String,
}

/// What an `ApiPostError` holds, as plain values.
pub struct ApiPostErrorView {
    pub error: Seq<char>,
    pub error_description: Seq<char>,
}

impl View for ApiPostError {
    type V = ApiPostErrorView;

    open spec fn view(&self) -> ApiPostErrorView {
        ApiPostErrorView { error: self.error@, error_description: self.error_description@ }
    }
}

impl ApiPostErrorView {
    /// The refusal made of two members, or the first of `error` and
    /// `error_description` that is missing.
    pub open spec fn of_fields(error: Option<Seq<char>>, error_description: Option<Seq<char>>)
        -> Result<ApiPostErrorView, JsonErrorView> {
        if error is None {
            Err(JsonErrorView::MissingField("error"@))
        } else if error_description is None {
            Err(JsonErrorView::MissingField("error_description"@))
        } else {
            Ok(ApiPostErrorView { error: error->0, error_description: error_description->0 })
        }
    }

    /// The refusal that a document with these string members holds.
    pub open spec fn of_members(members: Map<Seq<char>, Seq<char>>) -> Result<
        ApiPostErrorView,
        JsonErrorView,
    > {
        Self::of_fields(lookup(members, "error"@), lookup(members, "error_description"@))
    }

    /// The short account of a refused post: the error code in a sentence,
    /// then the description on a line of its own.
    pub open spec fn report(self) -> Seq<char> {
        "Failed to publish post ("@ + self.error + ").\n"@ + self.error_description
    }
}

impl ApiPostError {
    /// Puts the refusal together from its two members, each as it was found
    /// or not found.
    pub fn from_fields(error: Option<String>, error_description: Option<String>) -> (res: Result<
        ApiPostError,
        JsonError,
    >)
        ensures
            result_view(res) == ApiPostErrorView::of_fields(
                error.deep_view(),
                error_description.deep_view(),
            ),
    {
        match error {
            None => Err(JsonError::MissingField("error".to_owned())),
            Some(error) => match error_description {
                None => Err(JsonError::MissingField("error_description".to_owned())),
                Some(error_description) => Ok(ApiPostError { error, error_description }),
            },
        }
    }

    /// Reads the refusal out of a parsed document.
    pub fn from_document(doc: &serde_json::Value) -> (res: Result<ApiPostError, JsonError>)
        ensures
            result_view(res) == ApiPostErrorView::of_members(string_members(*doc)),
    {
        let error = string_member(doc, "error");
        let error_description = string_member(doc, "error_description");
        ApiPostError::from_fields(error, error_description)
    }

    /// The refusal in words.
    pub fn report(&self) -> (s: String)
        ensures
            s@ == self@.report(),
    {
        let mut s = "Failed to publish post (".to_owned();
        s.append(self.error.as_str());
        s.append(").\n");
        s.append(self.error_description.as_str());
        s
    }
}

/// A result by the views of what it holds.
pub open spec fn result_view<T: View, E: View>(res: Result<T, E>) -> Result<T::V, E::V> {
    match res {
        Ok(value) => Ok(value@),
        Err(error) => Err(error@),
    }
}

} // verus!
