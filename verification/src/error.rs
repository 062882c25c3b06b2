//! The errors that the library reports to the command-line tool.

use vstd::prelude::*;

verus! {

/// An error with the message to show the user.
#[derive(Debug)]
pub enum SentryCliError {
    /// No credentials could be found.
    Auth(String),
    /// The configuration lacks a required value.
    Config(String),
    /// An argument was given in a form that cannot be used.
    Validation(String),
    /// A requested item does not exist.
    NotFound(String),
}

impl SentryCliError {
    /// The text of the error.
    pub open spec fn message_spec(&self) -> Seq<char> {
        match self {
            SentryCliError::Auth(m) => m@,
            SentryCliError::Config(m) => m@,
            SentryCliError::Validation(m) => m@,
            SentryCliError::NotFound(m) => m@,
        }
    }

    /// The text of the error.
    pub fn message(&self) -> (r: &String)
        ensures
            r@ == self.message_spec(),
    {
        match self {
            SentryCliError::Auth(m) => m,
            SentryCliError::Config(m) => m,
            SentryCliError::Validation(m) => m,
            SentryCliError::NotFound(m) => m,
        }
    }
}

} // verus!
