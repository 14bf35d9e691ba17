//! The request that publishes a post: a form sent by `POST` to the
//! endpoint, authorised by a bearer token.

use vstd::prelude::*;
use vstd::string::*;
use crate::configuration::microblog_service::{MicroblogService, MicroblogServiceView};
use crate::post::{Post, PostView};

verus! {

/// How long a request may take, in seconds.
pub const DEFAULT_TIMEOUT_SECS: u64 = 5;

/// Everything the transport needs to send a post: where to, with which
/// token, the form's fields in order, and the time allowed.
pub struct PublishRequest {
    pub url: String,
    pub bearer_token: String,
    pub form: Vec<(String, String)>,
    pub timeout_secs: u64,
}

/// What a `PublishRequest` holds, as plain values.
pub struct PublishRequestView {
    pub url: Seq<char>,
    pub bearer_token: Seq<char>,
    pub form: Seq<(Seq<char>, Seq<char>)>,
    pub timeout_secs: u64,
}

impl View for PublishRequest {
    type V = PublishRequestView;

    open spec fn view(&self) -> PublishRequestView {
        PublishRequestView {
            url: self.url@,
            bearer_token: self.bearer_token@,
            form: self.form.deep_view(),
            timeout_secs: self.timeout_secs,
        }
    }
}

/// The fields of the form for a post: `h`, `content` and `post-status`
/// always, `name` after them where the post has a title and not otherwise.
pub open spec fn form_fields(post: PostView) -> Seq<(Seq<char>, Seq<char>)> {
    let fixed = seq![
        ("h"@, "entry"@),
        ("content"@, post.body),
        ("post-status"@, post.status.wire_value()),
    ];
    match post.title {
        Some(title) => fixed.push(("name"@, title)),
        None => fixed,
    }
}

/// The request that publishes `post` at `service`.
pub open spec fn request_for(post: PostView, service: MicroblogServiceView) -> PublishRequestView {
    PublishRequestView {
        url: service.api_url,
        bearer_token: service.auth_token,
        form: form_fields(post),
        timeout_secs: DEFAULT_TIMEOUT_SECS,
    }
}

/// The form of every post holds `h=entry`, the body as `content`, and the
/// status as `post-status`, which is `published` or `draft`. It holds a field
/// `name` exactly when the post has a title, and then with the title for its
/// value.
pub proof fn lemma_form_fields(post: PostView)
    ensures
        form_fields(post)[0] == ("h"@, "entry"@),
        form_fields(post)[1] == ("content"@, post.body),
        form_fields(post)[2] == ("post-status"@, post.status.wire_value()),
        post.status.wire_value() == "published"@ || post.status.wire_value() == "draft"@,
        post.title is Some <==> exists|i: int|
            0 <= i < form_fields(post).len() && (#[trigger] form_fields(post)[i]).0 == "name"@,
        post.title matches Some(title) ==> form_fields(post).len() == 4 && form_fields(post)[3]
            == ("name"@, title),
        post.title is None ==> form_fields(post).len() == 3,
{
    reveal_strlit("h");
    reveal_strlit("content");
    reveal_strlit("post-status");
    reveal_strlit("name");
    let fields = form_fields(post);
    assert("h"@.len() != "name"@.len());
    assert("content"@.len() != "name"@.len());
    assert("post-status"@.len() != "name"@.len());
    if post.title is Some {
        assert(fields[3].0 == "name"@);
    }
}

/// The form's fields for a post, names and values.
pub fn form_params(post: &Post) -> (params: Vec<(String, String)>)
    ensures
        params.deep_view() == form_fields(post@),
{
    let mut params: Vec<(String, String)> = Vec::new();
    params.push(("h".to_owned(), "entry".to_owned()));
    params.push(("content".to_owned(), post.body.clone()));
    params.push(("post-status".to_owned(), post.status.as_str().to_owned()));
    match &post.title {
        Some(title) => {
            params.push(("name".to_owned(), title.clone()));
        },
        None => {},
    }
    assert(params.deep_view() =~= form_fields(post@));
    params
}

impl PublishRequest {
    /// The request for a post, whatever the post holds.
    pub fn new(post: &Post, service: &MicroblogService) -> (request: PublishRequest)
        ensures
            request@ == request_for(post@, service@),
    {
        PublishRequest {
            url: service.api_url.clone(),
            bearer_token: service.auth_token.clone(),
            form: form_params(post),
            timeout_secs: DEFAULT_TIMEOUT_SECS,
        }
    }
}

} // verus!
