pub mod models;
pub mod pagination;
pub mod query;
