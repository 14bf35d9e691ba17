//! What the program is configured with: the service to publish to and the
//! behaviour wanted where the command line says nothing.

pub mod app_config;
pub mod default_behavior;
pub mod microblog_service;
