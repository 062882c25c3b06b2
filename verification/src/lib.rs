//! A command-line client library for Sentry: data models, option handling,
//! configuration precedence and the text that the command-line tool prints.

pub mod api;
pub mod cli;
pub mod config;
pub mod error;
pub mod output;
pub mod style;
pub mod text;
pub mod time;
