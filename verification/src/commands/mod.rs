//! Subcommand decisions and the errors that subcommands report.

use vstd::prelude::*;
use vstd::string::*;

use crate::git::{git_ss_error_text, GitSsError};
use crate::text::owned;

verus! {

/// Errors returned while running subcommands.
#[derive(Debug)]
pub enum CommandError {
    /// A Git operation failed.
    Git(GitSsError),
    /// A filesystem or output operation failed, with its text.
    Io(String),
    /// CSV output could not be written, with the error's text.
    Csv(String),
    /// JSON output could not be written, with the error's text.
    Json(String),
    /// `--include-ignored` is only valid for working-directory uploads.
    IncludeIgnoredRequiresWorkdir,
}

/// The text that a command error displays.
pub open spec fn command_error_text(e: &CommandError) -> Seq<char> {
    match e {
        CommandError::Git(g) => git_ss_error_text(g@),
        CommandError::Io(s) => s@,
        CommandError::Csv(s) => s@,
        CommandError::Json(s) => s@,
        CommandError::IncludeIgnoredRequiresWorkdir =>
            "--include-ignored can only be used with upload workdir"@,
    }
}

impl CommandError {
    /// The text that the error displays.
    pub fn message(&self) -> (r: String)
        ensures
            r@ == command_error_text(self),
    {
        match self {
            CommandError::Git(g) => g.message(),
            CommandError::Io(s) => s.clone(),
            CommandError::Csv(s) => s.clone(),
            CommandError::Json(s) => s.clone(),
            CommandError::IncludeIgnoredRequiresWorkdir => owned(
                "--include-ignored can only be used with upload workdir",
            ),
        }
    }
}

} // verus!

/// What `git-ss list` shows.
pub mod list;
/// What `git-ss upload` uploads.
pub mod upload;
/// What `git-ss clean` deletes.
pub mod clean;
