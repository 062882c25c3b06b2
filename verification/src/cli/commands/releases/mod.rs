pub mod list;

pub use list::ListOptions;
