pub mod attachments;
pub mod list;

pub use list::ListOptions;
