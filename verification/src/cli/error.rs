//! Errors of the command line and how they are reported.

use vstd::prelude::*;

use crate::error::{StoreError, error_text};
use crate::text::append_str;

verus! {

/// Exit status of a failed command for a missing task or project.
pub const EXIT_ERR_NOT_FOUND: u8 = 2;

/// Exit status of any other failed command.
pub const EXIT_ERR_GENERAL: u8 = 1;

/// Why a command failed.
#[derive(Debug)]
pub enum CliError {
    /// A task or project lookup or operation failed.
    Store(StoreError),
    /// The command was refused, with a message.
    Message(String),
}

/// The text of a failure, without the "错误: " label.
pub open spec fn cli_error_text(e: CliError) -> Seq<char> {
    match e {
        CliError::Store(s) => error_text(s),
        CliError::Message(m) => m@,
    }
}

/// The exit status of a failure: 2 for a missing task or project, else 1.
pub open spec fn cli_exit_code(e: CliError) -> u8 {
    match e {
        CliError::Store(StoreError::NotFound(_)) => 2,
        CliError::Store(StoreError::ProjectNotFound(_)) => 2,
        _ => 1,
    }
}

impl CliError {
    /// The exit status (see `cli_exit_code`).
    pub fn exit_code(&self) -> (r: u8)
        ensures
            r == cli_exit_code(*self),
    {
        match self {
            CliError::Store(StoreError::NotFound(_)) => EXIT_ERR_NOT_FOUND,
            CliError::Store(StoreError::ProjectNotFound(_)) => EXIT_ERR_NOT_FOUND,
            _ => EXIT_ERR_GENERAL,
        }
    }

    /// The line reported on standard error: "错误: " and the failure's text.
    pub fn report(&self) -> (r: String)
        ensures
            r@ == "错误: "@ + cli_error_text(*self),
    {
        let mut out = String::from_str("错误: ");
        match self {
            CliError::Store(s) => append_str(&mut out, s.message().as_str()),
            CliError::Message(m) => append_str(&mut out, m.as_str()),
        }
        out
    }
}

/// The log level the command line starts with: debug when verbose, error
/// when quiet, else the given level or "warn".
pub open spec fn log_level_of(verbose: bool, quiet: bool, level: Option<Seq<char>>) -> Seq<char> {
    if verbose {
        "debug"@
    } else if quiet {
        "error"@
    } else {
        match level {
            Some(l) => l,
            None => "warn"@,
        }
    }
}

/// The log level the command line starts with (see `log_level_of`).
pub fn log_level<'a>(verbose: bool, quiet: bool, level: Option<&'a str>) -> (r: &'a str)
    ensures
        r@ == log_level_of(verbose, quiet, crate::models::opt_str_view(level)),
{
    if verbose {
        "debug"
    } else if quiet {
        "error"
    } else {
        match level {
            Some(l) => l,
            None => "warn",
        }
    }
}

} // verus!
