//! What a run is configured with.

use vstd::prelude::*;

verus! {

/// The credentials of a posting account. They are carried along with the
/// configuration; nothing in this crate reads them.
#[derive(Clone, Debug, PartialEq, Eq)]
pub struct TwitterParams {
    pub consumer_key: String,
    pub consumer_secret: String,
    pub access_key: String,
    pub access_secret: String,
}

/// The pages to visit, in the order in which they are visited, and the
/// credentials that come with them.
#[derive(Clone, Debug, PartialEq, Eq)]
pub struct AppConfig {
    pub bing_urls: Vec<String>,
    pub twitter_params: TwitterParams,
}

} // verus!
