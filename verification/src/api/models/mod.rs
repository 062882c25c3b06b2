pub mod common;
pub mod event;
pub mod issue;
pub mod release;
