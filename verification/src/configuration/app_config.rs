//! The whole of the program's configuration.

use vstd::prelude::*;
use crate::configuration::default_behavior::DefaultBehavior;
use crate::configuration::microblog_service::{MicroblogService, MicroblogServiceView};

verus! {

/// The service to publish to and the default behaviour.
pub struct AppConfig {
    pub service: MicroblogService,
    pub default_behavior: DefaultBehavior,
}

/// What an `AppConfig` holds, as plain values.
pub struct AppConfigView {
    pub service: MicroblogServiceView,
    pub default_behavior: DefaultBehavior,
}

impl View for AppConfig {
    type V = AppConfigView;

    open spec fn view(&self) -> AppConfigView {
        AppConfigView { service: self.service@, default_behavior: self.default_behavior }
    }
}

impl AppConfig {
    pub fn new(service: MicroblogService, default_behavior: DefaultBehavior) -> (config: AppConfig)
        ensures
            config@ == (AppConfigView { service: service@, default_behavior }),
    {
        AppConfig { service, default_behavior }
    }
}

} // verus!
