//! Publishing a post: the request to send and the reading of the answer.
//!
//! One attempt is one exchange. An empty post is refused before anything is
//! sent. Otherwise the request goes to the transport once, and what comes
//! back decides: no answer is a network error; an answer with a status from
//! 200 to 299 must hold the stored post's addresses; any other answer must
//! hold the endpoint's error. Nothing is tried twice.

pub mod error;
pub mod payload;
pub mod request;

use vstd::prelude::*;
use vstd::string::*;
use crate::configuration::microblog_service::MicroblogService;
use crate::json::{diagnostic, parse, parsed_members, string_members};
use crate::post::Post;
use crate::post_result::{PostResult, PostResultView};
use crate::post_status::PostStatus;
use crate::publish::error::{JsonError, PostError, PostErrorView};
use crate::publish::payload::{
    result_view, ApiPostError, ApiPostErrorView, PostResponse, PostResponseView,
};
use crate::publish::request::{request_for, PublishRequest};

verus! {

/// What the transport hands back for a request.
#[derive(Debug)]
pub enum TransportReply {
    /// No answer: the request could not be sent or the answer could not be
    /// read. Holds the cause in words.
    Failed(String),
    /// The endpoint's answer: its HTTP status and the whole of its body.
    Response { status: u16, body: String },
}

/// What a `TransportReply` holds, as plain values.
pub enum TransportReplyView {
    Failed(Seq<char>),
    Response { status: u16, body: Seq<char> },
}

impl View for TransportReply {
    type V = TransportReplyView;

    open spec fn view(&self) -> TransportReplyView {
        match self {
            TransportReply::Failed(cause) => TransportReplyView::Failed(cause@),
            TransportReply::Response { status, body } => TransportReplyView::Response {
                status: *status,
                body: body@,
            },
        }
    }
}

/// The message of the error for a post without content.
pub open spec fn empty_post_message() -> Seq<char> {
    "Post content cannot be empty"@
}

/// The HTTP statuses that report success.
pub open spec fn is_success(status: u16) -> bool {
    200 <= status < 300
}

/// What an answer means whose body is a document with these string members.
pub open spec fn outcome(
    status: u16,
    members: Map<Seq<char>, Seq<char>>,
    post_status: PostStatus,
) -> Result<PostResultView, PostErrorView> {
    if is_success(status) {
        match PostResponseView::of_members(members) {
            Ok(response) => Ok(
                PostResultView {
                    url: response.url,
                    preview: response.preview,
                    edit: response.edit,
                    post_status,
                },
            ),
            Err(cause) => Err(PostErrorView::Json(cause)),
        }
    } else {
        match ApiPostErrorView::of_members(members) {
            Ok(refusal) => Err(
                PostErrorView::Api {
                    error: refusal.error,
                    description: refusal.error_description,
                },
            ),
            Err(cause) => Err(PostErrorView::Json(cause)),
        }
    }
}

/// `res` is what `reply` is read as, for a post submitted with
/// `post_status`. A body that is no JSON document gives a syntax error
/// whose text is the parser's.
pub open spec fn reads_as(
    res: Result<PostResult, PostError>,
    post_status: PostStatus,
    reply: TransportReplyView,
) -> bool {
    match reply {
        TransportReplyView::Failed(cause) => result_view(res) == Err::<
            PostResultView,
            PostErrorView,
        >(PostErrorView::Network(cause)),
        TransportReplyView::Response { status, body } => match parsed_members(body) {
            Some(members) => result_view(res) == outcome(status, members, post_status),
            None => res matches Err(PostError::Json(JsonError::Syntax(_))),
        },
    }
}

/// Whether an HTTP status reports success.
pub fn status_is_success(status: u16) -> (b: bool)
    ensures
        b == is_success(status),
{
    200 <= status && status < 300
}

/// Reads an answer whose body has been parsed, or has failed to parse.
pub fn interpret_document(
    status: u16,
    parsed: Result<serde_json::Value, serde_json::Error>,
    post_status: PostStatus,
) -> (res: Result<PostResult, PostError>)
    ensures
        match parsed {
            Ok(doc) => result_view(res) == outcome(status, string_members(doc), post_status),
            Err(_) => res matches Err(PostError::Json(JsonError::Syntax(_))),
        },
{
    let doc = match parsed {
        Ok(doc) => doc,
        Err(cause) => {
            return Err(PostError::Json(JsonError::Syntax(diagnostic(&cause))));
        },
    };
    if !status_is_success(status) {
        return match ApiPostError::from_document(&doc) {
            Ok(refusal) => Err(
                PostError::Api { error: refusal.error, description: refusal.error_description },
            ),
            Err(cause) => Err(PostError::Json(cause)),
        };
    }
    match PostResponse::from_document(&doc) {
        Ok(response) => Ok(
            PostResult {
                url: response.url,
                preview: response.preview,
                edit: response.edit,
                post_status,
            },
        ),
        Err(cause) => Err(PostError::Json(cause)),
    }
}

/// Reads an answer of the endpoint: its status and the text of its body.
pub fn interpret_response(status: u16, body: &str, post_status: PostStatus) -> (res: Result<
    PostResult,
    PostError,
>)
    ensures
        reads_as(res, post_status, TransportReplyView::Response { status, body: body@ }),
{
    interpret_document(status, parse(body), post_status)
}

/// Reads what the transport handed back.
pub fn publish_outcome(post_status: PostStatus, reply: TransportReply) -> (res: Result<
    PostResult,
    PostError,
>)
    ensures
        reads_as(res, post_status, reply@),
{
    match reply {
        TransportReply::Failed(cause) => Err(PostError::Network(cause)),
        TransportReply::Response { status, body } => interpret_response(
            status,
            body.as_str(),
            post_status,
        ),
    }
}

/// The request that publishes `post`, or the refusal of a post without
/// content.
pub fn publish_request(post: &Post, service: &MicroblogService) -> (res: Result<
    PublishRequest,
    PostError,
>)
    ensures
        result_view(res) == if post@.is_empty() {
            Err(PostErrorView::InvalidInput(empty_post_message()))
        } else {
            Ok(request_for(post@, service@))
        },
{
    if post.is_empty() {
        return Err(PostError::InvalidInput("Post content cannot be empty".to_owned()));
    }
    Ok(PublishRequest::new(post, service))
}

/// Publishes `post` at `service` through the transport `send`.
///
/// A post without content is refused with `InvalidInput`. For any other
/// post, `send` is handed the request for it, once, and the result is what
/// its reply is read as.
pub fn publish_post<F: FnOnce(PublishRequest) -> TransportReply>(
    post: Post,
    service: &MicroblogService,
    send: F,
) -> (res: Result<PostResult, PostError>)
    requires
        forall|request: PublishRequest|
            request@ == request_for(post@, service@) ==> call_requires(send, (request,)),
    ensures
        post@.is_empty() ==> result_view(res) == Err::<PostResultView, PostErrorView>(
            PostErrorView::InvalidInput(empty_post_message()),
        ),
        !post@.is_empty() ==> exists|request: PublishRequest, reply: TransportReply|
            request@ == request_for(post@, service@) && call_ensures(send, (request,), reply)
                && reads_as(res, post.status, reply@),
{
    let request = match publish_request(&post, service) {
        Ok(request) => request,
        Err(refusal) => {
            return Err(refusal);
        },
    };
    let reply = send(request);
    publish_outcome(post.status, reply)
}

} // verus!
