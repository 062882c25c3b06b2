//! Listing releases: the query parameters that the options give.

use vstd::prelude::*;
use crate::api::models::release::ListReleasesParams;

verus! {

pub struct ListOptions {
    pub query: Option<String>,
    pub limit: u32,
    pub all: bool,
}

/// The text that an optional string holds.
pub open spec fn opt_text(o: Option<String>) -> Option<Seq<char>> {
    match o {
        Some(s) => Some(s@),
        None => None,
    }
}

/// The query parameters for listing releases: the search query and page size as
/// given, no cursor.
pub fn list_releases_params(options: ListOptions) -> (r: ListReleasesParams)
    ensures
        opt_text(r.query) == opt_text(options.query),
        r.limit == Some(options.limit),
        r.cursor is None,
{
    ListReleasesParams { query: options.query, limit: Some(options.limit), cursor: None }
}

} // verus!
