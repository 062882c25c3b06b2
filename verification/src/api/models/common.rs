//! Records shared by several API responses.

use vstd::prelude::*;

verus! {

/// A user or team that an issue can be assigned to or a comment written by.
#[derive(Debug)]
pub struct Actor {
    pub id: String,
    pub name: String,
    pub email: Option<String>,
    /// `"user"` or `"team"`, when the server says.
    pub actor_type: Option<String>,
}

/// The project that an issue belongs to.
#[derive(Debug)]
pub struct ProjectRef {
    pub id: String,
    pub name: String,
    pub slug: String,
}

/// The body of an error response.
#[derive(Debug)]
pub struct ApiError {
    pub detail: String,
}

} // verus!
