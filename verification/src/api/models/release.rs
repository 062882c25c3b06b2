//! Releases.

use vstd::prelude::*;

verus! {

#[derive(Debug)]
pub struct Release {
    pub version: String,
    pub short_version: Option<String>,
    pub date_created: String,
    pub date_released: Option<String>,
    pub new_groups: u32,
    pub last_event: Option<String>,
    pub first_event: Option<String>,
    pub last_deploy: Option<DeployInfo>,
    pub authors: Vec<Author>,
    pub projects: Vec<ProjectRef>,
}

#[derive(Debug)]
pub struct DeployInfo {
    pub id: String,
    pub environment: String,
    pub date_finished: Option<String>,
}

#[derive(Debug)]
pub struct Author {
    pub name: String,
    pub email: Option<String>,
}

#[derive(Debug)]
pub struct ProjectRef {
    pub slug: String,
    pub name: String,
}

#[derive(Debug)]
pub struct ListReleasesParams {
    pub query: Option<String>,
    pub limit: Option<u32>,
    pub cursor: Option<String>,
}

} // verus!
