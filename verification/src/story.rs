//! The story records returned by the discussion-site search index.

use vstd::prelude::*;

verus! {

/// One story returned by the search-by-date query.
///
/// `url` is the direct article link and may be absent, in which case
/// only the discussion page (derived from `object_id`) exists.
/// `created_at_i` is the story's creation time in epoch seconds; it
/// only ever serves the source query window and is not otherwise read.
pub struct Hit {
    pub title: String,
    pub url: Option<String>,
    pub object_id: String,
    pub author: String,
    pub created_at_i: i64,
}

/// The ordered hits of one search query; consumed by a single cycle
/// and never persisted.
pub struct Search {
    pub hits: Vec<Hit>,
}

} // verus!
