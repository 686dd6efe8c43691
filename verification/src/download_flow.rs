//! The decisions of a snapshot download, as a state machine that the caller drives: the
//! caller performs each step that the machine asks for and reports the outcome as an event.

use vstd::prelude::*;
use vstd::string::*;

use crate::git::{
    view_err, view_result,
    blocks_checkout, forced_refspec, map_checkout_error, snapshot_branch, snapshot_branch_name,
    snapshot_lookup_error, tracking_prefix, tracking_ref_name, GitError, GitErrorCode,
    GitErrorModel, GitSsError, GitSsErrorModel,
};
use crate::metadata::{validate_id, valid_id};
use crate::text::owned;

verus! {

/// Why fetching the snapshot branch failed.
#[derive(Debug)]
pub enum FetchFailure {
    /// The remote callbacks could not be set up.
    Setup(GitError),
    /// The fetch itself failed.
    Transfer(GitError),
}

/// Why reading the fetched snapshot failed.
#[derive(Debug)]
pub enum ReadFailure {
    /// The remote-tracking ref could not be found.
    Lookup(GitError),
    /// The ref did not lead to a commit.
    Peel(GitError),
}

/// The mathematical content of a `FetchFailure` or a `ReadFailure`.
pub enum StepFailureModel {
    First(GitErrorModel),
    Second(GitErrorModel),
}

impl View for FetchFailure {
    type V = StepFailureModel;

    open spec fn view(&self) -> StepFailureModel {
        match self {
            FetchFailure::Setup(e) => StepFailureModel::First(e@),
            FetchFailure::Transfer(e) => StepFailureModel::Second(e@),
        }
    }
}

impl View for ReadFailure {
    type V = StepFailureModel;

    open spec fn view(&self) -> StepFailureModel {
        match self {
            ReadFailure::Lookup(e) => StepFailureModel::First(e@),
            ReadFailure::Peel(e) => StepFailureModel::Second(e@),
        }
    }
}

/// The outcome of the step that the download asked for last.
#[derive(Debug)]
pub enum DownloadEvent {
    /// The remote was found, or not.
    Remote(Result<(), GitSsError>),
    /// The remote-tracking ref was found (`Ok`), or its lookup failed.
    TrackingLookup(Result<(), GitError>),
    /// The stale remote-tracking ref was deleted.
    TrackingDeleted(Result<(), GitError>),
    /// The snapshot branch was fetched into the remote-tracking ref.
    Fetched(Result<(), FetchFailure>),
    /// The remote-tracking ref led to the snapshot commit (its id).
    SnapshotRead(Result<String, ReadFailure>),
    /// Whether the working tree has changes, untracked files included.
    Worktree(Result<bool, GitError>),
    /// The safe checkout dry run passed.
    DryRun(Result<(), GitError>),
    /// The snapshot tree was checked out.
    CheckedOut(Result<(), GitError>),
    /// `HEAD` was detached at the snapshot commit.
    Detached(Result<(), GitError>),
}

/// The mathematical content of a `DownloadEvent`.
pub enum DownloadEventModel {
    Remote(Result<(), GitSsErrorModel>),
    TrackingLookup(Result<(), GitErrorModel>),
    TrackingDeleted(Result<(), GitErrorModel>),
    Fetched(Result<(), StepFailureModel>),
    SnapshotRead(Result<Seq<char>, StepFailureModel>),
    Worktree(Result<bool, GitErrorModel>),
    DryRun(Result<(), GitErrorModel>),
    CheckedOut(Result<(), GitErrorModel>),
    Detached(Result<(), GitErrorModel>),
}

impl View for DownloadEvent {
    type V = DownloadEventModel;

    open spec fn view(&self) -> DownloadEventModel {
        match self {
            DownloadEvent::Remote(r) => DownloadEventModel::Remote(view_err(*r)),
            DownloadEvent::TrackingLookup(r) => DownloadEventModel::TrackingLookup(view_err(*r)),
            DownloadEvent::TrackingDeleted(r) => DownloadEventModel::TrackingDeleted(view_err(*r)),
            DownloadEvent::Fetched(r) => DownloadEventModel::Fetched(view_err(*r)),
            DownloadEvent::SnapshotRead(r) => DownloadEventModel::SnapshotRead(view_result(*r)),
            DownloadEvent::Worktree(r) => DownloadEventModel::Worktree(view_err(*r)),
            DownloadEvent::DryRun(r) => DownloadEventModel::DryRun(view_err(*r)),
            DownloadEvent::CheckedOut(r) => DownloadEventModel::CheckedOut(view_err(*r)),
            DownloadEvent::Detached(r) => DownloadEventModel::Detached(view_err(*r)),
        }
    }
}

/// What the caller of a download does next.
#[derive(Debug)]
pub enum DownloadStep {
    /// Open the configured remote of this name.
    ResolveRemote { remote: String },
    /// Look up this local ref.
    FindTrackingRef { name: String },
    /// Delete this local ref.
    DeleteTrackingRef { name: String },
    /// Fetch with this refspec, using the credential callbacks.
    Fetch { refspec: String },
    /// Look up this local ref and peel it to a commit.
    ReadSnapshot { name: String },
    /// Ask whether the working tree has changes, untracked files included.
    CheckWorktree,
    /// Dry-run a safe checkout of this commit's tree that keeps ignored files.
    DryRunCheckout { commit: String },
    /// Check out this commit's tree: forcibly, removing untracked files, or safely, keeping
    /// ignored files.
    Checkout { commit: String, force: bool },
    /// Detach `HEAD` at this commit.
    DetachHead { commit: String },
    /// The download is over, with the snapshot commit or an error.
    Done(Result<String, GitSsError>),
}

/// The mathematical content of a `DownloadStep`.
pub enum DownloadStepModel {
    ResolveRemote { remote: Seq<char> },
    FindTrackingRef { name: Seq<char> },
    DeleteTrackingRef { name: Seq<char> },
    Fetch { refspec: Seq<char> },
    ReadSnapshot { name: Seq<char> },
    CheckWorktree,
    DryRunCheckout { commit: Seq<char> },
    Checkout { commit: Seq<char>, force: bool },
    DetachHead { commit: Seq<char> },
    Done(Result<Seq<char>, GitSsErrorModel>),
}

impl View for DownloadStep {
    type V = DownloadStepModel;

    open spec fn view(&self) -> DownloadStepModel {
        match self {
            DownloadStep::ResolveRemote { remote } => DownloadStepModel::ResolveRemote {
                remote: remote@,
            },
            DownloadStep::FindTrackingRef { name } => DownloadStepModel::FindTrackingRef {
                name: name@,
            },
            DownloadStep::DeleteTrackingRef { name } => DownloadStepModel::DeleteTrackingRef {
                name: name@,
            },
            DownloadStep::Fetch { refspec } => DownloadStepModel::Fetch { refspec: refspec@ },
            DownloadStep::ReadSnapshot { name } => DownloadStepModel::ReadSnapshot { name: name@ },
            DownloadStep::CheckWorktree => DownloadStepModel::CheckWorktree,
            DownloadStep::DryRunCheckout { commit } => DownloadStepModel::DryRunCheckout {
                commit: commit@,
            },
            DownloadStep::Checkout { commit, force } => DownloadStepModel::Checkout {
                commit: commit@,
                force: *force,
            },
            DownloadStep::DetachHead { commit } => DownloadStepModel::DetachHead {
                commit: commit@,
            },
            DownloadStep::Done(r) => DownloadStepModel::Done(view_result(*r)),
        }
    }
}

/// The outcome that a download waits for.
#[derive(Clone, Copy, Debug, PartialEq, Eq, Structural)]
pub enum DownloadStage {
    Remote,
    Lookup,
    Delete,
    Fetch,
    Read,
    Worktree,
    DryRun,
    Checkout,
    Detach,
    Finished,
}

/// A snapshot download in progress.
pub struct DownloadFlow {
    id: String,
    remote: String,
    force: bool,
    stage: DownloadStage,
    commit: String,
}

/// The mathematical content of a `DownloadFlow`.
pub struct DownloadFlowModel {
    /// Snapshot id.
    pub id: Seq<char>,
    /// Remote fetched from.
    pub remote: Seq<char>,
    /// Whether local changes and untracked files may be overwritten.
    pub force: bool,
    /// The outcome waited for.
    pub stage: DownloadStage,
    /// The snapshot commit, once read.
    pub commit: Seq<char>,
}

impl View for DownloadFlow {
    type V = DownloadFlowModel;

    closed spec fn view(&self) -> DownloadFlowModel {
        DownloadFlowModel {
            id: self.id@,
            remote: self.remote@,
            force: self.force,
            stage: self.stage,
            commit: self.commit@,
        }
    }
}

/// The local ref that a download fetches the snapshot branch into.
pub open spec fn download_tracking_ref(f: DownloadFlowModel) -> Seq<char> {
    tracking_prefix(f.remote) + f.id
}

/// The refspec that force-fetches the snapshot branch into the remote-tracking ref.
pub open spec fn download_refspec(f: DownloadFlowModel) -> Seq<char> {
    "+"@ + snapshot_branch(f.id) + ":"@ + download_tracking_ref(f)
}

/// How a download begins: an invalid id ends it, anything else first opens the remote.
pub open spec fn download_start(remote: Seq<char>, id: Seq<char>, force: bool) -> (
    DownloadFlowModel,
    DownloadStepModel,
) {
    let f = DownloadFlowModel {
        id,
        remote,
        force,
        stage: DownloadStage::Remote,
        commit: Seq::empty(),
    };
    if valid_id(id) {
        (f, DownloadStepModel::ResolveRemote { remote })
    } else {
        (
            DownloadFlowModel { stage: DownloadStage::Finished, ..f },
            DownloadStepModel::Done(Err(GitSsErrorModel::InvalidId(id))),
        )
    }
}

/// Whether an event reports the outcome that the download waits for.
pub open spec fn download_accepts(stage: DownloadStage, e: DownloadEventModel) -> bool {
    match e {
        DownloadEventModel::Remote(_) => stage == DownloadStage::Remote,
        DownloadEventModel::TrackingLookup(_) => stage == DownloadStage::Lookup,
        DownloadEventModel::TrackingDeleted(_) => stage == DownloadStage::Delete,
        DownloadEventModel::Fetched(_) => stage == DownloadStage::Fetch,
        DownloadEventModel::SnapshotRead(_) => stage == DownloadStage::Read,
        DownloadEventModel::Worktree(_) => stage == DownloadStage::Worktree,
        DownloadEventModel::DryRun(_) => stage == DownloadStage::DryRun,
        DownloadEventModel::CheckedOut(_) => stage == DownloadStage::Checkout,
        DownloadEventModel::Detached(_) => stage == DownloadStage::Detach,
    }
}

/// Ends a download with an error.
pub open spec fn download_fail(f: DownloadFlowModel, e: GitSsErrorModel) -> (
    DownloadFlowModel,
    DownloadStepModel,
) {
    (DownloadFlowModel { stage: DownloadStage::Finished, ..f }, DownloadStepModel::Done(Err(e)))
}

/// The error for a failed fetch or lookup of the snapshot branch.
pub open spec fn missing_snapshot_or(f: DownloadFlowModel, e: GitErrorModel) -> GitSsErrorModel {
    if e.code == GitErrorCode::NotFound {
        GitSsErrorModel::MissingSnapshot(f.id)
    } else {
        GitSsErrorModel::Git(e)
    }
}

/// The error for a failed checkout.
pub open spec fn checkout_error(e: GitErrorModel) -> GitSsErrorModel {
    if blocks_checkout(e.code) {
        GitSsErrorModel::DirtyWorktree
    } else {
        GitSsErrorModel::Git(e)
    }
}

/// How a download proceeds on the outcome of its last step.
pub open spec fn download_next(f: DownloadFlowModel, e: DownloadEventModel) -> (
    DownloadFlowModel,
    DownloadStepModel,
) {
    match e {
        DownloadEventModel::Remote(Ok(_)) => (
            DownloadFlowModel { stage: DownloadStage::Lookup, ..f },
            DownloadStepModel::FindTrackingRef { name: download_tracking_ref(f) },
        ),
        DownloadEventModel::Remote(Err(x)) => download_fail(f, x),
        DownloadEventModel::TrackingLookup(Ok(_)) => (
            DownloadFlowModel { stage: DownloadStage::Delete, ..f },
            DownloadStepModel::DeleteTrackingRef { name: download_tracking_ref(f) },
        ),
        DownloadEventModel::TrackingLookup(Err(x)) => if x.code == GitErrorCode::NotFound {
            (
                DownloadFlowModel { stage: DownloadStage::Fetch, ..f },
                DownloadStepModel::Fetch { refspec: download_refspec(f) },
            )
        } else {
            download_fail(f, GitSsErrorModel::Git(x))
        },
        DownloadEventModel::TrackingDeleted(Ok(_)) => (
            DownloadFlowModel { stage: DownloadStage::Fetch, ..f },
            DownloadStepModel::Fetch { refspec: download_refspec(f) },
        ),
        DownloadEventModel::TrackingDeleted(Err(x)) => download_fail(f, GitSsErrorModel::Git(x)),
        DownloadEventModel::Fetched(Ok(_)) => (
            DownloadFlowModel { stage: DownloadStage::Read, ..f },
            DownloadStepModel::ReadSnapshot { name: download_tracking_ref(f) },
        ),
        DownloadEventModel::Fetched(Err(StepFailureModel::First(x))) => download_fail(
            f,
            GitSsErrorModel::Git(x),
        ),
        DownloadEventModel::Fetched(Err(StepFailureModel::Second(x))) => download_fail(
            f,
            missing_snapshot_or(f, x),
        ),
        DownloadEventModel::SnapshotRead(Ok(commit)) => if f.force {
            (
                DownloadFlowModel { stage: DownloadStage::Checkout, commit, ..f },
                DownloadStepModel::Checkout { commit, force: true },
            )
        } else {
            (
                DownloadFlowModel { stage: DownloadStage::Worktree, commit, ..f },
                DownloadStepModel::CheckWorktree,
            )
        },
        DownloadEventModel::SnapshotRead(Err(StepFailureModel::First(x))) => download_fail(
            f,
            missing_snapshot_or(f, x),
        ),
        DownloadEventModel::SnapshotRead(Err(StepFailureModel::Second(x))) => download_fail(
            f,
            GitSsErrorModel::Git(x),
        ),
        DownloadEventModel::Worktree(Ok(true)) => download_fail(f, GitSsErrorModel::DirtyWorktree),
        DownloadEventModel::Worktree(Ok(false)) => (
            DownloadFlowModel { stage: DownloadStage::DryRun, ..f },
            DownloadStepModel::DryRunCheckout { commit: f.commit },
        ),
        DownloadEventModel::Worktree(Err(x)) => download_fail(f, GitSsErrorModel::Git(x)),
        DownloadEventModel::DryRun(Ok(_)) => (
            DownloadFlowModel { stage: DownloadStage::Checkout, ..f },
            DownloadStepModel::Checkout { commit: f.commit, force: false },
        ),
        DownloadEventModel::DryRun(Err(x)) => download_fail(f, checkout_error(x)),
        DownloadEventModel::CheckedOut(Ok(_)) => (
            DownloadFlowModel { stage: DownloadStage::Detach, ..f },
            DownloadStepModel::DetachHead { commit: f.commit },
        ),
        DownloadEventModel::CheckedOut(Err(x)) => download_fail(f, checkout_error(x)),
        DownloadEventModel::Detached(Ok(_)) => (
            DownloadFlowModel { stage: DownloadStage::Finished, ..f },
            DownloadStepModel::Done(Ok(f.commit)),
        ),
        DownloadEventModel::Detached(Err(x)) => download_fail(f, GitSsErrorModel::Git(x)),
    }
}


/// A snapshot id that is not safe as a branch suffix ends the download before any Git step.
pub proof fn lemma_download_rejects_invalid_id(remote: Seq<char>, id: Seq<char>, force: bool)
    requires
        !valid_id(id),
    ensures
        download_start(remote, id, force).1 == DownloadStepModel::Done(
            Err(GitSsErrorModel::InvalidId(id)),
        ),
{
}

/// Every step keeps what the download is about, and only the reading of the snapshot sets
/// the snapshot commit.
pub proof fn lemma_download_keeps_request(f: DownloadFlowModel, e: DownloadEventModel)
    ensures
        ({
            let g = download_next(f, e).0;
            &&& g.id == f.id
            &&& g.remote == f.remote
            &&& g.force == f.force
            &&& (!(e is SnapshotRead) ==> g.commit == f.commit)
        }),
{
}

/// A snapshot branch that the remote lacks is reported as a missing snapshot.
pub proof fn lemma_missing_snapshot_reported(f: DownloadFlowModel, x: GitErrorModel)
    requires
        f.stage == DownloadStage::Fetch,
        x.code == GitErrorCode::NotFound,
    ensures
        download_next(f, DownloadEventModel::Fetched(Err(StepFailureModel::Second(x)))).1
            == DownloadStepModel::Done(Err(GitSsErrorModel::MissingSnapshot(f.id))),
{
}

/// Without `force`, the working tree is only overwritten after it was found clean and a safe
/// dry run passed; changes in it end the download.
pub proof fn lemma_safe_download(f: DownloadFlowModel, e: DownloadEventModel)
    requires
        !f.force,
        download_accepts(f.stage, e),
    ensures
        download_next(f, e).1 is Checkout ==> f.stage == DownloadStage::DryRun && (e matches DownloadEventModel::DryRun(Ok(_))),
        download_next(f, e).1 is Checkout ==> download_next(f, e).1->Checkout_force == false,
        e == DownloadEventModel::Worktree(Ok(true)) ==> download_next(f, e).1
            == DownloadStepModel::Done(Err(GitSsErrorModel::DirtyWorktree)),
        (e matches DownloadEventModel::SnapshotRead(Ok(_))) ==> download_next(f, e).1
            == DownloadStepModel::CheckWorktree,
{
}

/// With `force`, the snapshot is checked out forcibly as soon as it is read.
pub proof fn lemma_forced_download(f: DownloadFlowModel, commit: Seq<char>)
    requires
        f.force,
        f.stage == DownloadStage::Read,
    ensures
        download_next(f, DownloadEventModel::SnapshotRead(Ok(commit))).1 == (DownloadStepModel::Checkout {
            commit,
            force: true,
        }),
{
}

/// A download succeeds only once `HEAD` is detached, and reports the commit that the
/// remote-tracking ref led to; `HEAD` is detached at that same commit.
pub proof fn lemma_download_success(f: DownloadFlowModel, e: DownloadEventModel, c: Seq<char>)
    requires
        download_next(f, e).1 == DownloadStepModel::Done(Ok::<Seq<char>, GitSsErrorModel>(c)),
    ensures
        f.stage == DownloadStage::Detach || !download_accepts(f.stage, e),
        (e matches DownloadEventModel::Detached(Ok(_))),
        c == f.commit,
{
}

/// The fetch replaces the remote-tracking ref only after a stale one was removed or found
/// absent, and it force-fetches `refs/heads/gitss/<id>` into `refs/remotes/<remote>/gitss/<id>`.
pub proof fn lemma_fetch_after_cleanup(f: DownloadFlowModel, e: DownloadEventModel)
    requires
        download_accepts(f.stage, e),
        download_next(f, e).1 is Fetch,
    ensures
        (e matches DownloadEventModel::TrackingDeleted(Ok(_))) || (e matches DownloadEventModel::TrackingLookup(Err(x)) && x.code == GitErrorCode::NotFound),
        download_next(f, e).1->Fetch_refspec == "+"@ + snapshot_branch(f.id) + ":"@
            + tracking_prefix(f.remote) + f.id,
{
}

/// The snapshot a download reads is the ref its fetch wrote: once the remote is open, the
/// download looks up `refs/remotes/<remote>/gitss/<id>`, deletes it if it was there, fetches
/// `refs/heads/gitss/<id>` into it by force, and after the fetch reads that same ref.
pub proof fn lemma_reads_what_was_fetched(
    f: DownloadFlowModel,
    x: GitErrorModel,
)
    requires
        f.stage == DownloadStage::Remote,
        x.code == GitErrorCode::NotFound,
    ensures
        ({
            let dest = "refs/remotes/"@ + f.remote + "/gitss/"@ + f.id;
            let refspec = "+"@ + ("refs/heads/gitss/"@ + f.id) + ":"@ + dest;
            let (g1, s1) = download_next(f, DownloadEventModel::Remote(Ok(())));
            let (g2, s2) = download_next(g1, DownloadEventModel::TrackingLookup(Err(x)));
            let (g3, s3) = download_next(g2, DownloadEventModel::Fetched(Ok(())));
            let (h2, t2) = download_next(g1, DownloadEventModel::TrackingLookup(Ok(())));
            let (h3, t3) = download_next(h2, DownloadEventModel::TrackingDeleted(Ok(())));
            let (h4, t4) = download_next(h3, DownloadEventModel::Fetched(Ok(())));
            &&& s1 == (DownloadStepModel::FindTrackingRef { name: dest })
            &&& s2 == (DownloadStepModel::Fetch { refspec })
            &&& s3 == (DownloadStepModel::ReadSnapshot { name: dest })
            &&& t2 == (DownloadStepModel::DeleteTrackingRef { name: dest })
            &&& t3 == (DownloadStepModel::Fetch { refspec })
            &&& t4 == (DownloadStepModel::ReadSnapshot { name: dest })
        }),
{
    let dest = "refs/remotes/"@ + f.remote + "/gitss/"@ + f.id;
    assert(tracking_prefix(f.remote) + f.id =~= dest);
}

impl DownloadFlow {
    /// Begins the download of snapshot `id` from `remote` and returns it with its first step.
    pub fn start(remote: &str, id: &str, force: bool) -> (r: (DownloadFlow, DownloadStep))
        ensures
            (r.0@, r.1@) == download_start(remote@, id@, force),
    {
        let mut f = DownloadFlow {
            id: owned(id),
            remote: owned(remote),
            force,
            stage: DownloadStage::Remote,
            commit: String::new(),
        };
        match validate_id(id) {
            Ok(_) => (f, DownloadStep::ResolveRemote { remote: owned(remote) }),
            Err(_) => {
                f.stage = DownloadStage::Finished;
                (f, DownloadStep::Done(Err(GitSsError::InvalidId(owned(id)))))
            },
        }
    }

    /// Whether `event` reports the outcome that this download waits for.
    pub fn accepts(&self, event: &DownloadEvent) -> (b: bool)
        ensures
            b == download_accepts(self@.stage, event@),
    {
        match event {
            DownloadEvent::Remote(_) => self.stage == DownloadStage::Remote,
            DownloadEvent::TrackingLookup(_) => self.stage == DownloadStage::Lookup,
            DownloadEvent::TrackingDeleted(_) => self.stage == DownloadStage::Delete,
            DownloadEvent::Fetched(_) => self.stage == DownloadStage::Fetch,
            DownloadEvent::SnapshotRead(_) => self.stage == DownloadStage::Read,
            DownloadEvent::Worktree(_) => self.stage == DownloadStage::Worktree,
            DownloadEvent::DryRun(_) => self.stage == DownloadStage::DryRun,
            DownloadEvent::CheckedOut(_) => self.stage == DownloadStage::Checkout,
            DownloadEvent::Detached(_) => self.stage == DownloadStage::Detach,
        }
    }

    fn fail(&mut self, e: GitSsError) -> (r: DownloadStep)
        ensures
            (final(self)@, r@) == download_fail(old(self)@, e@),
    {
        self.stage = DownloadStage::Finished;
        DownloadStep::Done(Err(e))
    }

    fn tracking_ref(&self) -> (r: String)
        ensures
            r@ == download_tracking_ref(self@),
    {
        tracking_ref_name(self.remote.as_str(), self.id.as_str())
    }

    fn fetch_step(&self) -> (r: DownloadStep)
        ensures
            r@ == (DownloadStepModel::Fetch { refspec: download_refspec(self@) }),
    {
        let branch = snapshot_branch_name(self.id.as_str());
        let tracking = self.tracking_ref();
        DownloadStep::Fetch { refspec: forced_refspec(branch.as_str(), tracking.as_str()) }
    }

    /// Advances the download on the outcome of its last step and returns the next step.
    pub fn step(&mut self, event: DownloadEvent) -> (r: DownloadStep)
        requires
            download_accepts(old(self)@.stage, event@),
        ensures
            (final(self)@, r@) == download_next(old(self)@, event@),
    {
        match event {
            DownloadEvent::Remote(Ok(())) => {
                self.stage = DownloadStage::Lookup;
                DownloadStep::FindTrackingRef { name: self.tracking_ref() }
            },
            DownloadEvent::Remote(Err(x)) => self.fail(x),
            DownloadEvent::TrackingLookup(Ok(())) => {
                self.stage = DownloadStage::Delete;
                DownloadStep::DeleteTrackingRef { name: self.tracking_ref() }
            },
            DownloadEvent::TrackingLookup(Err(x)) => {
                if x.code == GitErrorCode::NotFound {
                    self.stage = DownloadStage::Fetch;
                    self.fetch_step()
                } else {
                    self.fail(GitSsError::Git(x))
                }
            },
            DownloadEvent::TrackingDeleted(Ok(())) => {
                self.stage = DownloadStage::Fetch;
                self.fetch_step()
            },
            DownloadEvent::TrackingDeleted(Err(x)) => self.fail(GitSsError::Git(x)),
            DownloadEvent::Fetched(Ok(())) => {
                self.stage = DownloadStage::Read;
                DownloadStep::ReadSnapshot { name: self.tracking_ref() }
            },
            DownloadEvent::Fetched(Err(FetchFailure::Setup(x))) => self.fail(GitSsError::Git(x)),
            DownloadEvent::Fetched(Err(FetchFailure::Transfer(x))) => {
                let err = snapshot_lookup_error(x, self.id.as_str());
                self.fail(err)
            },
            DownloadEvent::SnapshotRead(Ok(commit)) => {
                self.commit = commit.clone();
                if self.force {
                    self.stage = DownloadStage::Checkout;
                    DownloadStep::Checkout { commit, force: true }
                } else {
                    self.stage = DownloadStage::Worktree;
                    DownloadStep::CheckWorktree
                }
            },
            DownloadEvent::SnapshotRead(Err(ReadFailure::Lookup(x))) => {
                let err = snapshot_lookup_error(x, self.id.as_str());
                self.fail(err)
            },
            DownloadEvent::SnapshotRead(Err(ReadFailure::Peel(x))) => self.fail(GitSsError::Git(x)),
            DownloadEvent::Worktree(Ok(dirty)) => {
                if dirty {
                    self.fail(GitSsError::DirtyWorktree)
                } else {
                    self.stage = DownloadStage::DryRun;
                    DownloadStep::DryRunCheckout { commit: self.commit.clone() }
                }
            },
            DownloadEvent::Worktree(Err(x)) => self.fail(GitSsError::Git(x)),
            DownloadEvent::DryRun(Ok(())) => {
                self.stage = DownloadStage::Checkout;
                DownloadStep::Checkout { commit: self.commit.clone(), force: false }
            },
            DownloadEvent::DryRun(Err(x)) => {
                let err = map_checkout_error(x);
                self.fail(err)
            },
            DownloadEvent::CheckedOut(Ok(())) => {
                self.stage = DownloadStage::Detach;
                DownloadStep::DetachHead { commit: self.commit.clone() }
            },
            DownloadEvent::CheckedOut(Err(x)) => {
                let err = map_checkout_error(x);
                self.fail(err)
            },
            DownloadEvent::Detached(Ok(())) => {
                self.stage = DownloadStage::Finished;
                DownloadStep::Done(Ok(self.commit.clone()))
            },
            DownloadEvent::Detached(Err(x)) => self.fail(GitSsError::Git(x)),
        }
    }
}

} // verus!
