//! Listing the events of an issue: the query parameters that the options give.

use vstd::prelude::*;
use crate::api::models::event::ListEventsParams;

verus! {

pub struct ListOptions {
    pub issue_id: String,
    pub limit: u32,
    pub all: bool,
}

/// The query parameters for listing events: the page size as given, no cursor.
pub fn list_events_params(options: &ListOptions) -> (r: ListEventsParams)
    ensures
        r.limit == Some(options.limit),
        r.cursor is None,
{
    ListEventsParams { limit: Some(options.limit), cursor: None }
}

} // verus!
