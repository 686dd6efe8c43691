//! The repository side of snapshots: errors, ref names, and the decisions of the upload,
//! download and listing flows. The Git operations themselves are performed by the caller,
//! which reports each outcome back as an event.

use vstd::prelude::*;
use vstd::string::*;

use crate::text::{concat2, concat3, concat4, owned};

pub use crate::listing::ListedSnapshot;
pub use crate::upload_flow::{SnapshotUpload, UploadResult};

verus! {

/// libgit2 error codes that the snapshot flows tell apart.
#[derive(Clone, Copy, Debug, PartialEq, Eq, Structural)]
pub enum GitErrorCode {
    /// The object, reference or path does not exist.
    NotFound,
    /// `HEAD` refers to a branch with no commits.
    UnbornBranch,
    /// A checkout conflicts with the working tree.
    Conflict,
    /// The index holds unsaved changes.
    IndexDirty,
    /// An object was modified concurrently.
    Modified,
    /// The working tree holds uncommitted changes.
    Uncommitted,
    /// Any other code.
    Other,
}

/// An error reported by libgit2: its code and its display text.
#[derive(Clone, Debug)]
pub struct GitError {
    /// The error's code.
    pub code: GitErrorCode,
    /// The error's text as libgit2 displays it.
    pub message: String,
}

/// The mathematical content of a `GitError`.
pub struct GitErrorModel {
    pub code: GitErrorCode,
    pub message: Seq<char>,
}

impl View for GitError {
    type V = GitErrorModel;

    open spec fn view(&self) -> GitErrorModel {
        GitErrorModel { code: self.code, message: self.message@ }
    }
}

/// Errors returned by snapshot Git operations.
#[derive(Clone, Debug)]
pub enum GitSsError {
    /// The starting directory is not inside a Git repository.
    NotRepository,
    /// The repository has no usable `HEAD` commit.
    UnbornHead,
    /// The selected remote is not configured in the repository.
    MissingRemote(String),
    /// The supplied snapshot id is not safe for use as a branch suffix.
    InvalidId(String),
    /// The working tree cannot be overwritten without `--force`.
    DirtyWorktree,
    /// The selected remote does not have the requested snapshot branch.
    MissingSnapshot(String),
    /// The upload source did not resolve to a commit.
    UnresolvableRef(String),
    /// The remote already contains the snapshot branch being uploaded.
    RemoteBranchExists(String),
    /// An underlying libgit2 operation failed.
    Git(GitError),
}

/// The mathematical content of a `GitSsError`.
pub enum GitSsErrorModel {
    NotRepository,
    UnbornHead,
    MissingRemote(Seq<char>),
    InvalidId(Seq<char>),
    DirtyWorktree,
    MissingSnapshot(Seq<char>),
    UnresolvableRef(Seq<char>),
    RemoteBranchExists(Seq<char>),
    Git(GitErrorModel),
}

impl View for GitSsError {
    type V = GitSsErrorModel;

    open spec fn view(&self) -> GitSsErrorModel {
        match self {
            GitSsError::NotRepository => GitSsErrorModel::NotRepository,
            GitSsError::UnbornHead => GitSsErrorModel::UnbornHead,
            GitSsError::MissingRemote(s) => GitSsErrorModel::MissingRemote(s@),
            GitSsError::InvalidId(s) => GitSsErrorModel::InvalidId(s@),
            GitSsError::DirtyWorktree => GitSsErrorModel::DirtyWorktree,
            GitSsError::MissingSnapshot(s) => GitSsErrorModel::MissingSnapshot(s@),
            GitSsError::UnresolvableRef(s) => GitSsErrorModel::UnresolvableRef(s@),
            GitSsError::RemoteBranchExists(s) => GitSsErrorModel::RemoteBranchExists(s@),
            GitSsError::Git(e) => GitSsErrorModel::Git(e@),
        }
    }
}

/// The model of a result whose two sides have views.
pub open spec fn view_result<T: View, E: View>(r: Result<T, E>) -> Result<T::V, E::V> {
    match r {
        Ok(t) => Ok(t@),
        Err(e) => Err(e@),
    }
}

/// The model of a result whose error side has a view.
pub open spec fn view_err<T, E: View>(r: Result<T, E>) -> Result<T, E::V> {
    match r {
        Ok(t) => Ok(t),
        Err(e) => Err(e@),
    }
}

/// The error for a failed repository discovery: a missing repository is reported as such.
pub fn discover_error(err: GitError) -> (r: GitSsError)
    ensures
        r@ == (if err.code == GitErrorCode::NotFound {
            GitSsErrorModel::NotRepository
        } else {
            GitSsErrorModel::Git(err@)
        }),
{
    match err.code {
        GitErrorCode::NotFound => GitSsError::NotRepository,
        _ => GitSsError::Git(err),
    }
}

/// Maps libgit2 `HEAD` lookup errors into repository state errors.
pub fn map_head_lookup(err: GitError) -> (r: GitSsError)
    ensures
        r@ == (if err.code == GitErrorCode::UnbornBranch || err.code == GitErrorCode::NotFound {
            GitSsErrorModel::UnbornHead
        } else {
            GitSsErrorModel::Git(err@)
        }),
{
    match err.code {
        GitErrorCode::UnbornBranch | GitErrorCode::NotFound => GitSsError::UnbornHead,
        _ => GitSsError::Git(err),
    }
}

/// The error for a failed remote lookup: a missing remote is reported by name.
pub fn remote_lookup_error(err: GitError, remote_name: &str) -> (r: GitSsError)
    ensures
        r@ == (if err.code == GitErrorCode::NotFound {
            GitSsErrorModel::MissingRemote(remote_name@)
        } else {
            GitSsErrorModel::Git(err@)
        }),
{
    match err.code {
        GitErrorCode::NotFound => GitSsError::MissingRemote(owned(remote_name)),
        _ => GitSsError::Git(err),
    }
}

/// Whether a checkout error means that local changes are in the way.
pub open spec fn blocks_checkout(code: GitErrorCode) -> bool {
    code == GitErrorCode::Conflict || code == GitErrorCode::IndexDirty || code
        == GitErrorCode::Modified || code == GitErrorCode::Uncommitted
}

/// Maps checkout conflict-style errors to the dirty-worktree error.
pub fn map_checkout_error(err: GitError) -> (r: GitSsError)
    ensures
        r@ == (if blocks_checkout(err.code) {
            GitSsErrorModel::DirtyWorktree
        } else {
            GitSsErrorModel::Git(err@)
        }),
{
    match err.code {
        GitErrorCode::Conflict
        | GitErrorCode::IndexDirty
        | GitErrorCode::Modified
        | GitErrorCode::Uncommitted => GitSsError::DirtyWorktree,
        _ => GitSsError::Git(err),
    }
}

/// The error for a failed snapshot fetch or lookup: a missing ref means a missing snapshot.
pub fn snapshot_lookup_error(err: GitError, id: &str) -> (r: GitSsError)
    ensures
        r@ == (if err.code == GitErrorCode::NotFound {
            GitSsErrorModel::MissingSnapshot(id@)
        } else {
            GitSsErrorModel::Git(err@)
        }),
{
    match err.code {
        GitErrorCode::NotFound => GitSsError::MissingSnapshot(owned(id)),
        _ => GitSsError::Git(err),
    }
}

/// The remote branch that holds snapshot `id`.
pub open spec fn snapshot_branch(id: Seq<char>) -> Seq<char> {
    "refs/heads/gitss/"@ + id
}

/// The local ref that holds a snapshot commit while it is pushed.
pub open spec fn temp_ref(id: Seq<char>) -> Seq<char> {
    "refs/gitss/tmp/"@ + id
}

/// The prefix of the remote-tracking refs of the snapshots of `remote`.
pub open spec fn tracking_prefix(remote: Seq<char>) -> Seq<char> {
    "refs/remotes/"@ + remote + "/gitss/"@
}

/// Builds `snapshot_branch(id)`.
pub fn snapshot_branch_name(id: &str) -> (r: String)
    ensures
        r@ == snapshot_branch(id@),
{
    concat2("refs/heads/gitss/", id)
}

/// Builds `temp_ref(id)`.
pub fn temp_ref_name(id: &str) -> (r: String)
    ensures
        r@ == temp_ref(id@),
{
    concat2("refs/gitss/tmp/", id)
}

/// Builds `tracking_prefix(remote)`.
pub fn tracking_prefix_name(remote: &str) -> (r: String)
    ensures
        r@ == tracking_prefix(remote@),
{
    concat3("refs/remotes/", remote, "/gitss/")
}

/// The remote-tracking ref of snapshot `id` of `remote`.
pub fn tracking_ref_name(remote: &str, id: &str) -> (r: String)
    ensures
        r@ == tracking_prefix(remote@) + id@,
{
    let mut r = tracking_prefix_name(remote);
    r.append(id);
    r
}

/// The glob that matches every remote-tracking snapshot ref of `remote`.
pub fn tracking_glob(remote: &str) -> (r: String)
    ensures
        r@ == tracking_prefix(remote@) + "*"@,
{
    let mut r = tracking_prefix_name(remote);
    r.append("*");
    r
}

/// The refspec that fetches every snapshot branch of `remote`, pruning deleted ones.
pub fn list_refspec(remote: &str) -> (r: String)
    ensures
        r@ == "+refs/heads/gitss/*:"@ + tracking_prefix(remote@) + "*"@,
{
    let glob = tracking_glob(remote);
    let r = concat2("+refs/heads/gitss/*:", glob.as_str());
    r
}

/// The refspec that force-fetches `source` into `destination`.
pub fn forced_refspec(source: &str, destination: &str) -> (r: String)
    ensures
        r@ == "+"@ + source@ + ":"@ + destination@,
{
    concat4("+", source, ":", destination)
}

/// The refspec that pushes `source` to `destination`.
pub fn push_refspec(source: &str, destination: &str) -> (r: String)
    ensures
        r@ == source@ + ":"@ + destination@,
{
    concat3(source, ":", destination)
}

/// The text of a push that the remote rejected.
pub open spec fn push_rejection_text(refname: Seq<char>, status: Seq<char>) -> Seq<char> {
    "failed to push "@ + refname + ": "@ + status
}

/// The outcome of a push: the push call's own failure, else the last rejection that the remote
/// reported for a ref, else success.
pub fn push_outcome(call: Result<(), GitError>, rejection: Option<(String, String)>) -> (r: Result<
    (),
    GitSsError,
>)
    ensures
        match call {
            Err(e) => r matches Err(f) && f@ == GitSsErrorModel::Git(e@),
            Ok(_) => match rejection {
                None => r is Ok,
                Some((refname, status)) => r matches Err(f) && f@ == GitSsErrorModel::Git(
                    GitErrorModel {
                        code: GitErrorCode::Other,
                        message: push_rejection_text(refname@, status@),
                    },
                ),
            },
        },
{
    match call {
        Err(e) => Err(GitSsError::Git(e)),
        Ok(()) => match rejection {
            None => Ok(()),
            Some((refname, status)) => {
                let message = concat4("failed to push ", refname.as_str(), ": ", status.as_str());
                Err(GitSsError::Git(GitError { code: GitErrorCode::Other, message }))
            },
        },
    }
}


/// The text that a snapshot Git error displays.
pub open spec fn git_ss_error_text(e: GitSsErrorModel) -> Seq<char> {
    match e {
        GitSsErrorModel::NotRepository => "not inside a Git repository"@,
        GitSsErrorModel::UnbornHead =>
            "repository has no HEAD; git-ss does not support empty repositories yet"@,
        GitSsErrorModel::MissingRemote(r) => "remote '"@ + r
            + "' is not configured; pass --remote <name> to select another remote"@,
        GitSsErrorModel::InvalidId(id) => "invalid snapshot id '"@ + id + "'"@,
        GitSsErrorModel::DirtyWorktree =>
            "working tree has local changes; use --force to overwrite them"@,
        GitSsErrorModel::MissingSnapshot(id) => "snapshot '"@ + id
            + "' was not found on the selected remote"@,
        GitSsErrorModel::UnresolvableRef(s) => "cannot resolve source ref '"@ + s
            + "' to a commit"@,
        GitSsErrorModel::RemoteBranchExists(b) => "remote snapshot branch '"@ + b
            + "' already exists"@,
        GitSsErrorModel::Git(g) => g.message,
    }
}

impl GitSsError {
    /// The text that the error displays.
    pub fn message(&self) -> (r: String)
        ensures
            r@ == git_ss_error_text(self@),
    {
        match self {
            GitSsError::NotRepository => owned("not inside a Git repository"),
            GitSsError::UnbornHead => owned(
                "repository has no HEAD; git-ss does not support empty repositories yet",
            ),
            GitSsError::MissingRemote(r) => concat3(
                "remote '",
                r.as_str(),
                "' is not configured; pass --remote <name> to select another remote",
            ),
            GitSsError::InvalidId(id) => concat3("invalid snapshot id '", id.as_str(), "'"),
            GitSsError::DirtyWorktree => owned(
                "working tree has local changes; use --force to overwrite them",
            ),
            GitSsError::MissingSnapshot(id) => concat3(
                "snapshot '",
                id.as_str(),
                "' was not found on the selected remote",
            ),
            GitSsError::UnresolvableRef(s) => concat3(
                "cannot resolve source ref '",
                s.as_str(),
                "' to a commit",
            ),
            GitSsError::RemoteBranchExists(b) => concat3(
                "remote snapshot branch '",
                b.as_str(),
                "' already exists",
            ),
            GitSsError::Git(g) => g.message.clone(),
        }
    }
}

/// Whether a remote that advertises the refs `names` advertises `remote_ref`.
pub fn advertises(names: &Vec<String>, remote_ref: &str) -> (r: bool)
    ensures
        r == exists|i: int| 0 <= i < names@.len() && #[trigger] names@[i]@ == remote_ref@,
{
    let mut i: usize = 0;
    while i < names.len()
        invariant
            i <= names@.len(),
            forall|j: int| 0 <= j < i ==> #[trigger] names@[j]@ != remote_ref@,
        decreases names@.len() - i,
    {
        if crate::text::str_eq(names[i].as_str(), remote_ref) {
            return true;
        }
        i += 1;
    }
    false
}

/// Whether a working tree whose entries have the status flags `statuses` has changes: any
/// entry with a flag set.
pub fn has_changes(statuses: &Vec<u32>) -> (r: bool)
    ensures
        r == exists|i: int| 0 <= i < statuses@.len() && #[trigger] statuses@[i] != 0,
{
    let mut i: usize = 0;
    while i < statuses.len()
        invariant
            i <= statuses@.len(),
            forall|j: int| 0 <= j < i ==> #[trigger] statuses@[j] == 0,
        decreases statuses@.len() - i,
    {
        if statuses[i] != 0 {
            return true;
        }
        i += 1;
    }
    false
}

/// The credential types that a remote accepts.
#[derive(Clone, Copy, Debug)]
pub struct CredentialTypes {
    /// A user name and password in plain text.
    pub user_pass_plaintext: bool,
    /// An SSH key.
    pub ssh_key: bool,
    /// A bare user name.
    pub username: bool,
    /// The platform's default credentials.
    pub default: bool,
}

/// The credential to fall back on after the helper and the SSH agent.
#[derive(Debug)]
pub enum FinalCredential {
    /// A bare user name.
    Username(String),
    /// The platform's default credentials.
    Default,
    /// None: the remote's credential types are unsupported.
    Unsupported,
}

/// The order in which credentials are tried: the credential helper, then the SSH agent for a
/// user, both skipped where they fail, then a final credential.
#[derive(Debug)]
pub struct CredentialPlan {
    /// Whether the configured credential helper is asked.
    pub try_helper: bool,
    /// The user for whom the SSH agent is asked, if it is.
    pub agent_user: Option<String>,
    /// The credential used where neither of the above gives one.
    pub last: FinalCredential,
}

/// Plans the credentials for a remote that accepts `allowed`, for the user named in its URL.
/// The helper serves plain-text user and password; the agent serves SSH keys for the URL's
/// user or `git`; then a named user, then default credentials.
pub fn credential_plan(allowed: CredentialTypes, username_from_url: Option<&str>) -> (r:
    CredentialPlan)
    ensures
        r.try_helper == allowed.user_pass_plaintext,
        allowed.ssh_key ==> (r.agent_user matches Some(u) && u@ == (match username_from_url {
            Some(n) => n@,
            None => "git"@,
        })),
        !allowed.ssh_key ==> r.agent_user is None,
        (allowed.username && username_from_url is Some) ==> (r.last matches FinalCredential::Username(
            u,
        ) && u@ == username_from_url->Some_0@),
        !(allowed.username && username_from_url is Some) && allowed.default ==> r.last is Default,
        !(allowed.username && username_from_url is Some) && !allowed.default ==> r.last is Unsupported,
{
    let agent_user = if allowed.ssh_key {
        Some(
            match username_from_url {
                Some(n) => owned(n),
                None => owned("git"),
            },
        )
    } else {
        None
    };
    let last = match username_from_url {
        Some(n) if allowed.username => FinalCredential::Username(owned(n)),
        _ => if allowed.default {
            FinalCredential::Default
        } else {
            FinalCredential::Unsupported
        },
    };
    CredentialPlan { try_helper: allowed.user_pass_plaintext, agent_user, last }
}

} // verus!
