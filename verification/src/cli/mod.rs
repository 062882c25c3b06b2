pub mod args;
pub mod commands;
pub mod dispatch;
