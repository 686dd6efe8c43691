//! Command-line argument types.

use vstd::prelude::*;

verus! {

/// Top-level command line.
#[derive(Debug)]
pub struct Cli {
    /// Selected subcommand and its arguments.
    pub command: Command,
}

/// Supported top-level subcommands.
#[derive(Debug)]
pub enum Command {
    /// Upload a snapshot from an existing ref or the working directory.
    Upload(UploadArgs),
    /// List remote snapshot branches for a remote.
    List(ListArgs),
    /// Download a snapshot by id into a detached HEAD checkout.
    Download(DownloadArgs),
    /// Delete all remote snapshot branches for a remote.
    Clean(CleanArgs),
}

/// Arguments for `git-ss upload`.
#[derive(Debug)]
pub struct UploadArgs {
    /// Remote to push the snapshot branch to.
    pub remote: String,
    /// Snapshot id to use instead of the timestamp-based default.
    pub id: Option<String>,
    /// Include ignored files when uploading a working-directory snapshot.
    pub include_ignored: bool,
    /// Upload target, either `workdir` or any ref expression that resolves to a commit.
    pub target: String,
}

/// Parsed upload target.
#[derive(Debug, Clone, PartialEq, Eq)]
pub enum UploadTarget<'a> {
    /// Snapshot the current working directory and index state.
    Workdir,
    /// Snapshot the tree reachable from a ref or revision expression.
    Ref(&'a str),
}

/// Whether an upload target names the working directory.
pub open spec fn is_workdir_target(target: Seq<char>) -> bool {
    target == "workdir"@
}

impl UploadArgs {
    /// Interprets the raw upload target as either `workdir` or a ref.
    pub fn parsed_target(&self) -> (r: UploadTarget<'_>)
        ensures
            is_workdir_target(self.target@) ==> r is Workdir,
            !is_workdir_target(self.target@) ==> (r matches UploadTarget::Ref(t) && t@
                == self.target@),
    {
        if crate::text::str_eq(self.target.as_str(), "workdir") {
            UploadTarget::Workdir
        } else {
            UploadTarget::Ref(self.target.as_str())
        }
    }
}

/// Arguments for `git-ss list`.
#[derive(Debug)]
pub struct ListArgs {
    /// Remote to fetch snapshot branches from.
    pub remote: String,
    /// Output format for listed snapshots.
    pub format: ListFormat,
}

/// Supported output formats for `git-ss list`.
#[derive(Debug, Clone, Copy, PartialEq, Eq, Structural)]
pub enum ListFormat {
    /// Human-readable terminal table.
    Human,
    /// Comma-separated raw snapshot data.
    Csv,
    /// JSON raw snapshot data.
    Json,
}

/// Arguments for `git-ss download`.
#[derive(Debug)]
pub struct DownloadArgs {
    /// Remote to fetch the snapshot branch from.
    pub remote: String,
    /// Overwrite local worktree changes and untracked files during checkout.
    pub force: bool,
    /// Snapshot id to download from `refs/heads/gitss/<id>` on the remote.
    pub id: String,
}

/// Arguments for `git-ss clean`.
#[derive(Debug)]
pub struct CleanArgs {
    /// Remote to delete snapshot branches from.
    pub remote: String,
}

} // verus!
