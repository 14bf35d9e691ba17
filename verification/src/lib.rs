//! Publishing short text posts to a Micropub endpoint: building the post,
//! describing the request, and reading the endpoint's answer.
//!
//! The library does no input or output of its own. The caller reads the
//! text, sends the request that the library describes, and hands back what
//! the endpoint answered.

pub mod cli;
pub mod configuration;
pub mod content;
pub mod json;
pub mod post;
pub mod post_result;
pub mod post_status;
pub mod publish;
pub mod text;

pub use crate::configuration::app_config::AppConfig;
pub use crate::configuration::default_behavior::DefaultBehavior;
pub use crate::configuration::microblog_service::MicroblogService;
pub use crate::post::Post;
pub use crate::post_result::PostResult;
pub use crate::post_status::PostStatus;
pub use crate::publish::error::{JsonError, PostError};
pub use crate::publish::payload::{ApiPostError, PostResponse};
pub use crate::publish::request::PublishRequest;
pub use crate::publish::{publish_post, TransportReply};
