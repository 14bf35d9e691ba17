//! The ways in which publishing a post can fail.

use vstd::prelude::*;
use vstd::string::*;

verus! {

/// Why an answer of the endpoint could not be read.
#[derive(Debug)]
pub enum JsonError {
    /// The answer is not a JSON document. Holds the parser's account of why.
    Syntax(String),
    /// The document has no member of this name whose value is a string.
    MissingField(String),
}

/// What a `JsonError` holds, as plain values.
pub enum JsonErrorView {
    Syntax(Seq<char>),
    MissingField(Seq<char>),
}

impl View for JsonError {
    type V = JsonErrorView;

    open spec fn view(&self) -> JsonErrorView {
        match self {
            JsonError::Syntax(text) => JsonErrorView::Syntax(text@),
            JsonError::MissingField(name) => JsonErrorView::MissingField(name@),
        }
    }
}

impl JsonErrorView {
    pub open spec fn message(self) -> Seq<char> {
        match self {
            JsonErrorView::Syntax(text) => text,
            JsonErrorView::MissingField(name) => "missing field `"@ + name + "`"@,
        }
    }
}

impl JsonError {
    /// The error in words.
    pub fn message(&self) -> (s: String)
        ensures
            s@ == self@.message(),
    {
        match self {
            JsonError::Syntax(text) => text.clone(),
            JsonError::MissingField(name) => {
                let mut s = "missing field `".to_owned();
                s.append(name.as_str());
                s.append("`");
                s
            },
        }
    }
}

/// Every way in which an attempt to publish can fail. Each is final for
/// that attempt.
#[derive(Debug)]
pub enum PostError {
    /// No answer arrived: the connection, the timeout, TLS, or the client
    /// itself failed. Holds the cause in words.
    Network(String),
    /// The endpoint refused the post. Holds its error code and description
    /// as it sent them.
    Api { error: String, description: String },
    /// The endpoint's answer was not of the expected form.
    Json(JsonError),
    /// The post was refused before anything was sent.
    InvalidInput(String),
}

/// What a `PostError` holds, as plain values.
pub enum PostErrorView {
    Network(Seq<char>),
    Api { error: Seq<char>, description: Seq<char> },
    Json(JsonErrorView),
    InvalidInput(Seq<char>),
}

impl View for PostError {
    type V = PostErrorView;

    open spec fn view(&self) -> PostErrorView {
        match self {
            PostError::Network(cause) => PostErrorView::Network(cause@),
            PostError::Api { error, description } => PostErrorView::Api {
                error: error@,
                description: description@,
            },
            PostError::Json(cause) => PostErrorView::Json(cause@),
            PostError::InvalidInput(message) => PostErrorView::InvalidInput(message@),
        }
    }
}

impl PostErrorView {
    pub open spec fn message(self) -> Seq<char> {
        match self {
            PostErrorView::Network(cause) => "Network error: "@ + cause,
            PostErrorView::Api { error, description } => "API error: "@ + error + " - "@
                + description,
            PostErrorView::Json(cause) => "JSON parsing error: "@ + cause.message(),
            PostErrorView::InvalidInput(message) => "Invalid input: "@ + message,
        }
    }
}

impl PostError {
    /// The error in words: its kind, then what it holds.
    pub fn message(&self) -> (s: String)
        ensures
            s@ == self@.message(),
    {
        match self {
            PostError::Network(cause) => {
                let mut s = "Network error: ".to_owned();
                s.append(cause.as_str());
                s
            },
            PostError::Api { error, description } => {
                let mut s = "API error: ".to_owned();
                s.append(error.as_str());
                s.append(" - ");
                s.append(description.as_str());
                s
            },
            PostError::Json(cause) => {
                let mut s = "JSON parsing error: ".to_owned();
                let detail = cause.message();
                s.append(detail.as_str());
                s
            },
            PostError::InvalidInput(message) => {
                let mut s = "Invalid input: ".to_owned();
                s.append(message.as_str());
                s
            },
        }
    }
}

} // verus!
