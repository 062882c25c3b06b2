pub mod comment;
pub mod link;
pub mod list;
pub mod update;

pub use list::ListOptions;
