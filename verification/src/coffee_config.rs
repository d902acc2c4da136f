//! Configuration data for one run: where to fetch open merge requests from
//! and where to deliver the formatted summaries.

use vstd::prelude::*;

verus! {

/// Source configuration: the API base URL, the private auth token, an
/// optional list of project identifiers (absent means one unscoped query),
/// and an optional flag to include work-in-progress items (absent means
/// they are excluded).
pub struct Gitlab {
    pub base_url: String,
    pub include_wip: Option<bool>,
    pub projects: Option<Vec<String>>,
    pub token: String,
}

/// Delivery configuration: an optional salutation line and an optional
/// webhook target per channel. A channel that is absent gets no delivery
/// attempt.
pub struct Publish {
    pub salutation: Option<String>,
    pub slack: Option<PublishChannel>,
    pub teams: Option<PublishChannel>,
}

/// A single chat-webhook target.
pub struct PublishChannel {
    pub webhook_url: String,
}

/// The whole configuration of one run: one source, one set of delivery
/// targets. Loaded once and passed by reference; nothing outlives a run.
pub struct CoffeeConfig {
    pub gitlab: Gitlab,
    pub publish: Publish,
}

} // verus!
