//! The decisions of a snapshot upload, as a state machine that the caller drives: the caller
//! performs each step that the machine asks for and reports the outcome as an event.

use vstd::prelude::*;
use vstd::string::*;

use crate::git::{
    view_err, view_result,
    snapshot_branch, snapshot_branch_name, temp_ref, temp_ref_name, GitError, GitErrorModel,
    GitSsError, GitSsErrorModel,
};
use crate::metadata::{
    commit_message, created_text_reads_back, lemma_message_round_trip, renders_back, parsed_metadata, validate_id, valid_id, MetadataErrorModel,
    MetadataModel, SnapshotMetadata, UploadKind,
};
use crate::text::owned;
use crate::time::Timestamp;

verus! {

/// Parameters used when creating and uploading a snapshot.
pub struct SnapshotUpload<'a> {
    /// Snapshot id and remote branch suffix.
    pub id: &'a str,
    /// Remote name to push to.
    pub remote: &'a str,
    /// Source ref or logical source name recorded in metadata.
    pub source: &'a str,
    /// Whether ignored files should be included for working-directory snapshots.
    pub include_ignored: bool,
}

/// Result returned after a snapshot upload succeeds.
#[derive(Debug)]
pub struct UploadResult {
    /// Snapshot id that was uploaded.
    pub id: String,
    /// Fully qualified remote branch ref that was created.
    pub remote_ref: String,
    /// Snapshot commit id, in hexadecimal.
    pub commit: String,
}

/// The mathematical content of an `UploadResult`.
pub struct UploadResultModel {
    pub id: Seq<char>,
    pub remote_ref: Seq<char>,
    pub commit: Seq<char>,
}

impl View for UploadResult {
    type V = UploadResultModel;

    open spec fn view(&self) -> UploadResultModel {
        UploadResultModel { id: self.id@, remote_ref: self.remote_ref@, commit: self.commit@ }
    }
}

/// Why resolving the source of a ref snapshot failed.
#[derive(Debug)]
pub enum SourceFailure {
    /// The source did not resolve to a commit.
    Unresolvable,
    /// The commit's tree could not be read.
    Tree(GitError),
}

/// The mathematical content of a `SourceFailure`.
pub enum SourceFailureModel {
    Unresolvable,
    Tree(GitErrorModel),
}

impl View for SourceFailure {
    type V = SourceFailureModel;

    open spec fn view(&self) -> SourceFailureModel {
        match self {
            SourceFailure::Unresolvable => SourceFailureModel::Unresolvable,
            SourceFailure::Tree(e) => SourceFailureModel::Tree(e@),
        }
    }
}

/// The outcome of the step that the upload asked for last.
#[derive(Debug)]
pub enum UploadEvent {
    /// `HEAD` resolved to a commit (its id), or did not.
    Head(Result<String, GitSsError>),
    /// The remote was found, or not.
    Remote(Result<(), GitSsError>),
    /// Whether the remote advertises the snapshot branch.
    BranchExists(Result<bool, GitSsError>),
    /// The source of a ref snapshot resolved to a commit (its id) with a readable tree.
    Source(Result<String, SourceFailure>),
    /// The working directory was staged into a tree.
    Staged(Result<(), GitError>),
    /// The snapshot commit was created (its id).
    Committed(Result<String, GitError>),
    /// The temporary ref was created.
    TempRefCreated(Result<(), GitError>),
    /// The temporary ref was pushed to the snapshot branch.
    Pushed(Result<(), GitSsError>),
    /// The temporary ref was deleted.
    TempRefDeleted(Result<(), GitError>),
}

/// The mathematical content of an `UploadEvent`.
pub enum UploadEventModel {
    Head(Result<Seq<char>, GitSsErrorModel>),
    Remote(Result<(), GitSsErrorModel>),
    BranchExists(Result<bool, GitSsErrorModel>),
    Source(Result<Seq<char>, SourceFailureModel>),
    Staged(Result<(), GitErrorModel>),
    Committed(Result<Seq<char>, GitErrorModel>),
    TempRefCreated(Result<(), GitErrorModel>),
    Pushed(Result<(), GitSsErrorModel>),
    TempRefDeleted(Result<(), GitErrorModel>),
}

impl View for UploadEvent {
    type V = UploadEventModel;

    open spec fn view(&self) -> UploadEventModel {
        match self {
            UploadEvent::Head(r) => UploadEventModel::Head(view_result(*r)),
            UploadEvent::Remote(r) => UploadEventModel::Remote(view_err(*r)),
            UploadEvent::BranchExists(r) => UploadEventModel::BranchExists(view_err(*r)),
            UploadEvent::Source(r) => UploadEventModel::Source(view_result(*r)),
            UploadEvent::Staged(r) => UploadEventModel::Staged(view_err(*r)),
            UploadEvent::Committed(r) => UploadEventModel::Committed(view_result(*r)),
            UploadEvent::TempRefCreated(r) => UploadEventModel::TempRefCreated(view_err(*r)),
            UploadEvent::Pushed(r) => UploadEventModel::Pushed(view_err(*r)),
            UploadEvent::TempRefDeleted(r) => UploadEventModel::TempRefDeleted(view_err(*r)),
        }
    }
}

/// What the caller of an upload does next.
#[derive(Debug)]
pub enum UploadStep {
    /// Resolve `HEAD` to a commit.
    RequireHead,
    /// Open the configured remote of this name.
    ResolveRemote { remote: String },
    /// Ask the remote whether it advertises this ref.
    CheckRemoteBranch { remote_ref: String },
    /// Resolve this revision to a commit and read its tree.
    ResolveSource { source: String },
    /// Stage the working directory on top of this commit into a tree, with or without the
    /// ignored files.
    StageWorkdir { head: String, include_ignored: bool },
    /// Commit the tree from the previous step with this message and this parent.
    CreateCommit { message: String, parent: String },
    /// Point this local ref at this commit, overwriting it, with this reflog message.
    CreateTempRef { name: String, commit: String, log_message: String },
    /// Push this local ref to this remote ref.
    Push { source_ref: String, remote_ref: String },
    /// Delete this local ref.
    DeleteTempRef { name: String },
    /// The upload is over, with this result.
    Done(Result<UploadResult, GitSsError>),
}

/// The mathematical content of an `UploadStep`.
pub enum UploadStepModel {
    RequireHead,
    ResolveRemote { remote: Seq<char> },
    CheckRemoteBranch { remote_ref: Seq<char> },
    ResolveSource { source: Seq<char> },
    StageWorkdir { head: Seq<char>, include_ignored: bool },
    CreateCommit { message: Seq<char>, parent: Seq<char> },
    CreateTempRef { name: Seq<char>, commit: Seq<char>, log_message: Seq<char> },
    Push { source_ref: Seq<char>, remote_ref: Seq<char> },
    DeleteTempRef { name: Seq<char> },
    Done(Result<UploadResultModel, GitSsErrorModel>),
}

impl View for UploadStep {
    type V = UploadStepModel;

    open spec fn view(&self) -> UploadStepModel {
        match self {
            UploadStep::RequireHead => UploadStepModel::RequireHead,
            UploadStep::ResolveRemote { remote } => UploadStepModel::ResolveRemote {
                remote: remote@,
            },
            UploadStep::CheckRemoteBranch { remote_ref } => UploadStepModel::CheckRemoteBranch {
                remote_ref: remote_ref@,
            },
            UploadStep::ResolveSource { source } => UploadStepModel::ResolveSource {
                source: source@,
            },
            UploadStep::StageWorkdir { head, include_ignored } => UploadStepModel::StageWorkdir {
                head: head@,
                include_ignored: *include_ignored,
            },
            UploadStep::CreateCommit { message, parent } => UploadStepModel::CreateCommit {
                message: message@,
                parent: parent@,
            },
            UploadStep::CreateTempRef { name, commit, log_message } =>
                UploadStepModel::CreateTempRef {
                name: name@,
                commit: commit@,
                log_message: log_message@,
            },
            UploadStep::Push { source_ref, remote_ref } => UploadStepModel::Push {
                source_ref: source_ref@,
                remote_ref: remote_ref@,
            },
            UploadStep::DeleteTempRef { name } => UploadStepModel::DeleteTempRef { name: name@ },
            UploadStep::Done(r) => UploadStepModel::Done(view_result(*r)),
        }
    }
}

/// The outcome that an upload waits for.
#[derive(Clone, Copy, Debug, PartialEq, Eq, Structural)]
pub enum UploadStage {
    Head,
    Remote,
    Branch,
    Source,
    Stage,
    Commit,
    TempRef,
    Push,
    Delete,
    Finished,
}

/// A snapshot upload in progress.
pub struct UploadFlow {
    id: String,
    remote: String,
    source: String,
    kind: UploadKind,
    include_ignored: bool,
    created_at: Timestamp,
    tool_version: String,
    stage: UploadStage,
    head: String,
    base: String,
    commit: String,
    push_error: Option<GitSsError>,
}

/// The mathematical content of an `UploadFlow`.
pub struct UploadFlowModel {
    /// Snapshot id.
    pub id: Seq<char>,
    /// Remote pushed to.
    pub remote: Seq<char>,
    /// Source recorded in the metadata (and resolved, for a ref snapshot).
    pub source: Seq<char>,
    /// Kind of snapshot.
    pub kind: UploadKind,
    /// Whether ignored files are included (never for a ref snapshot).
    pub include_ignored: bool,
    /// Creation time recorded in the metadata.
    pub created_at: (i64, u32, i32),
    /// Tool version recorded in the metadata.
    pub tool_version: Seq<char>,
    /// The outcome waited for.
    pub stage: UploadStage,
    /// The commit that `HEAD` resolved to.
    pub head: Seq<char>,
    /// The commit the snapshot is based on.
    pub base: Seq<char>,
    /// The snapshot commit.
    pub commit: Seq<char>,
    /// The push failure, kept while the temporary ref is deleted.
    pub push_error: Option<GitSsErrorModel>,
}

impl View for UploadFlow {
    type V = UploadFlowModel;

    closed spec fn view(&self) -> UploadFlowModel {
        UploadFlowModel {
            id: self.id@,
            remote: self.remote@,
            source: self.source@,
            kind: self.kind,
            include_ignored: self.include_ignored,
            created_at: self.created_at@,
            tool_version: self.tool_version@,
            stage: self.stage,
            head: self.head@,
            base: self.base@,
            commit: self.commit@,
            push_error: match self.push_error {
                Some(e) => Some(e@),
                None => None,
            },
        }
    }
}

/// The metadata that the snapshot commit of an upload records.
pub open spec fn upload_metadata(f: UploadFlowModel) -> MetadataModel {
    MetadataModel {
        id: f.id,
        kind: f.kind,
        source: f.source,
        source_commit: f.base,
        created_at: f.created_at,
        remote: f.remote,
        include_ignored: f.include_ignored,
        tool_version: f.tool_version,
    }
}

/// The reflog message of the temporary ref.
pub open spec fn upload_log_message() -> Seq<char> {
    "git-ss snapshot upload"@
}

/// How an upload begins: an invalid id ends it, anything else first resolves `HEAD`.
/// A working-directory snapshot records `HEAD` as its source; a ref snapshot never
/// includes ignored files.
pub open spec fn upload_start(
    id: Seq<char>,
    remote: Seq<char>,
    source: Seq<char>,
    include_ignored: bool,
    kind: UploadKind,
    created_at: (i64, u32, i32),
    tool_version: Seq<char>,
) -> (UploadFlowModel, UploadStepModel) {
    let f = UploadFlowModel {
        id,
        remote,
        source: if kind == UploadKind::Workdir {
            "HEAD"@
        } else {
            source
        },
        kind,
        include_ignored: kind == UploadKind::Workdir && include_ignored,
        created_at,
        tool_version,
        stage: UploadStage::Head,
        head: Seq::empty(),
        base: Seq::empty(),
        commit: Seq::empty(),
        push_error: None,
    };
    if valid_id(id) {
        (f, UploadStepModel::RequireHead)
    } else {
        (
            UploadFlowModel { stage: UploadStage::Finished, ..f },
            UploadStepModel::Done(Err(GitSsErrorModel::InvalidId(id))),
        )
    }
}

/// Whether an event reports the outcome that the upload waits for.
pub open spec fn upload_accepts(stage: UploadStage, e: UploadEventModel) -> bool {
    match e {
        UploadEventModel::Head(_) => stage == UploadStage::Head,
        UploadEventModel::Remote(_) => stage == UploadStage::Remote,
        UploadEventModel::BranchExists(_) => stage == UploadStage::Branch,
        UploadEventModel::Source(_) => stage == UploadStage::Source,
        UploadEventModel::Staged(_) => stage == UploadStage::Stage,
        UploadEventModel::Committed(_) => stage == UploadStage::Commit,
        UploadEventModel::TempRefCreated(_) => stage == UploadStage::TempRef,
        UploadEventModel::Pushed(_) => stage == UploadStage::Push,
        UploadEventModel::TempRefDeleted(_) => stage == UploadStage::Delete,
    }
}

/// Ends an upload with an error.
pub open spec fn upload_fail(f: UploadFlowModel, e: GitSsErrorModel) -> (
    UploadFlowModel,
    UploadStepModel,
) {
    (UploadFlowModel { stage: UploadStage::Finished, ..f }, UploadStepModel::Done(Err(e)))
}

/// The step that creates the snapshot commit on top of the base commit.
pub open spec fn commit_step(f: UploadFlowModel) -> UploadStepModel {
    UploadStepModel::CreateCommit { message: commit_message(upload_metadata(f)), parent: f.base }
}

/// How an upload proceeds on the outcome of its last step.
pub open spec fn upload_next(f: UploadFlowModel, e: UploadEventModel) -> (
    UploadFlowModel,
    UploadStepModel,
) {
    match e {
        UploadEventModel::Head(Ok(head)) => (
            UploadFlowModel { stage: UploadStage::Remote, head, ..f },
            UploadStepModel::ResolveRemote { remote: f.remote },
        ),
        UploadEventModel::Head(Err(x)) => upload_fail(f, x),
        UploadEventModel::Remote(Ok(_)) => (
            UploadFlowModel { stage: UploadStage::Branch, ..f },
            UploadStepModel::CheckRemoteBranch { remote_ref: snapshot_branch(f.id) },
        ),
        UploadEventModel::Remote(Err(x)) => upload_fail(f, x),
        UploadEventModel::BranchExists(Ok(true)) => upload_fail(
            f,
            GitSsErrorModel::RemoteBranchExists(snapshot_branch(f.id)),
        ),
        UploadEventModel::BranchExists(Ok(false)) => if f.kind == UploadKind::Ref {
            (
                UploadFlowModel { stage: UploadStage::Source, ..f },
                UploadStepModel::ResolveSource { source: f.source },
            )
        } else {
            (
                UploadFlowModel { stage: UploadStage::Stage, base: f.head, ..f },
                UploadStepModel::StageWorkdir { head: f.head, include_ignored: f.include_ignored },
            )
        },
        UploadEventModel::BranchExists(Err(x)) => upload_fail(f, x),
        UploadEventModel::Source(Ok(base)) => {
            let g = UploadFlowModel { stage: UploadStage::Commit, base, ..f };
            (g, commit_step(g))
        },
        UploadEventModel::Source(Err(SourceFailureModel::Unresolvable)) => upload_fail(
            f,
            GitSsErrorModel::UnresolvableRef(f.source),
        ),
        UploadEventModel::Source(Err(SourceFailureModel::Tree(x))) => upload_fail(
            f,
            GitSsErrorModel::Git(x),
        ),
        UploadEventModel::Staged(Ok(_)) => {
            let g = UploadFlowModel { stage: UploadStage::Commit, ..f };
            (g, commit_step(g))
        },
        UploadEventModel::Staged(Err(x)) => upload_fail(f, GitSsErrorModel::Git(x)),
        UploadEventModel::Committed(Ok(commit)) => (
            UploadFlowModel { stage: UploadStage::TempRef, commit, ..f },
            UploadStepModel::CreateTempRef {
                name: temp_ref(f.id),
                commit,
                log_message: upload_log_message(),
            },
        ),
        UploadEventModel::Committed(Err(x)) => upload_fail(f, GitSsErrorModel::Git(x)),
        UploadEventModel::TempRefCreated(Ok(_)) => (
            UploadFlowModel { stage: UploadStage::Push, ..f },
            UploadStepModel::Push { source_ref: temp_ref(f.id), remote_ref: snapshot_branch(f.id) },
        ),
        UploadEventModel::TempRefCreated(Err(x)) => upload_fail(f, GitSsErrorModel::Git(x)),
        UploadEventModel::Pushed(r) => (
            UploadFlowModel {
                stage: UploadStage::Delete,
                push_error: match r {
                    Ok(_) => None,
                    Err(x) => Some(x),
                },
                ..f
            },
            UploadStepModel::DeleteTempRef { name: temp_ref(f.id) },
        ),
        UploadEventModel::TempRefDeleted(r) => match f.push_error {
            Some(x) => upload_fail(UploadFlowModel { push_error: None, ..f }, x),
            None => match r {
                Err(x) => upload_fail(f, GitSsErrorModel::Git(x)),
                Ok(_) => (
                    UploadFlowModel { stage: UploadStage::Finished, ..f },
                    UploadStepModel::Done(
                        Ok(
                            UploadResultModel {
                                id: f.id,
                                remote_ref: snapshot_branch(f.id),
                                commit: f.commit,
                            },
                        ),
                    ),
                ),
            },
        },
    }
}



/// A snapshot id that is not safe as a branch suffix ends the upload before any Git step.
pub proof fn lemma_upload_rejects_invalid_id(
    id: Seq<char>,
    remote: Seq<char>,
    source: Seq<char>,
    include_ignored: bool,
    kind: UploadKind,
    created_at: (i64, u32, i32),
    tool_version: Seq<char>,
)
    requires
        !valid_id(id),
    ensures
        upload_start(id, remote, source, include_ignored, kind, created_at, tool_version).1
            == UploadStepModel::Done(Err(GitSsErrorModel::InvalidId(id))),
{
}

/// A ref snapshot never includes ignored files, and a working-directory snapshot records
/// `HEAD` as its source.
pub proof fn lemma_upload_start_normalizes(
    id: Seq<char>,
    remote: Seq<char>,
    source: Seq<char>,
    include_ignored: bool,
    kind: UploadKind,
    created_at: (i64, u32, i32),
    tool_version: Seq<char>,
)
    ensures
        ({
            let f = upload_start(id, remote, source, include_ignored, kind, created_at, tool_version).0;
            &&& kind == UploadKind::Ref ==> !f.include_ignored && f.source == source
            &&& kind == UploadKind::Workdir ==> f.source == "HEAD"@ && f.include_ignored
                == include_ignored
        }),
{
}

/// Every step keeps what the upload is about: its id, remote, source, kind, flag, time and
/// tool version.
pub proof fn lemma_upload_keeps_request(f: UploadFlowModel, e: UploadEventModel)
    ensures
        ({
            let g = upload_next(f, e).0;
            &&& g.id == f.id
            &&& g.remote == f.remote
            &&& g.source == f.source
            &&& g.kind == f.kind
            &&& g.include_ignored == f.include_ignored
            &&& g.created_at == f.created_at
            &&& g.tool_version == f.tool_version
        }),
{
}

/// A remote that already has the snapshot branch ends the upload with that branch named,
/// before any commit is created.
pub proof fn lemma_existing_branch_rejected(f: UploadFlowModel)
    requires
        f.stage == UploadStage::Branch,
    ensures
        upload_next(f, UploadEventModel::BranchExists(Ok(true))).1 == UploadStepModel::Done(
            Err(GitSsErrorModel::RemoteBranchExists(snapshot_branch(f.id))),
        ),
{
}

/// A working-directory snapshot is staged on top of `HEAD` and based on it.
pub proof fn lemma_workdir_based_on_head(f: UploadFlowModel)
    requires
        f.stage == UploadStage::Branch,
        f.kind == UploadKind::Workdir,
    ensures
        ({
            let (g, s) = upload_next(f, UploadEventModel::BranchExists(Ok(false)));
            &&& s == UploadStepModel::StageWorkdir {
                head: f.head,
                include_ignored: f.include_ignored,
            }
            &&& g.base == f.head
        }),
{
}

/// The snapshot commit of a ref snapshot has the resolved source commit as its parent and
/// records it as the source commit.
pub proof fn lemma_ref_snapshot_parent(f: UploadFlowModel, base: Seq<char>)
    requires
        f.stage == UploadStage::Source,
    ensures
        ({
            let (g, s) = upload_next(f, UploadEventModel::Source(Ok(base)));
            &&& s == UploadStepModel::CreateCommit {
                message: commit_message(upload_metadata(g)),
                parent: base,
            }
            &&& upload_metadata(g).source_commit == base
        }),
{
}

/// A push attempt, failed or not, is followed by the deletion of the temporary ref.
pub proof fn lemma_push_then_cleanup(f: UploadFlowModel, r: Result<(), GitSsErrorModel>)
    requires
        f.stage == UploadStage::Push,
    ensures
        upload_next(f, UploadEventModel::Pushed(r)).1 == (UploadStepModel::DeleteTempRef {
            name: temp_ref(f.id),
        }),
        upload_next(f, UploadEventModel::Pushed(r)).0.stage == UploadStage::Delete,
{
}

/// A failed push is what the upload reports, whatever the deletion of the temporary ref gives.
pub proof fn lemma_push_failure_reported(
    f: UploadFlowModel,
    d: Result<(), GitErrorModel>,
    x: GitSsErrorModel,
)
    requires
        f.stage == UploadStage::Push,
    ensures
        upload_next(
            upload_next(f, UploadEventModel::Pushed(Err(x))).0,
            UploadEventModel::TempRefDeleted(d),
        ).1 == UploadStepModel::Done(Err::<UploadResultModel, GitSsErrorModel>(x)),
{
}

/// An upload succeeds only once the temporary ref is deleted after a successful push, and
/// then reports the snapshot branch `refs/heads/gitss/<id>` and the snapshot commit.
pub proof fn lemma_upload_success(f: UploadFlowModel, e: UploadEventModel, r: UploadResultModel)
    requires
        upload_next(f, e).1 == UploadStepModel::Done(Ok::<UploadResultModel, GitSsErrorModel>(r)),
    ensures
        f.push_error is None,
        (e matches UploadEventModel::TempRefDeleted(Ok(_))),
        r == (UploadResultModel { id: f.id, remote_ref: snapshot_branch(f.id), commit: f.commit }),
{
}

/// The state of an upload, and the step it asks for, after it was handed `events` one by one
/// from `start`.
pub open spec fn upload_run(
    start: (UploadFlowModel, UploadStepModel),
    events: Seq<UploadEventModel>,
) -> (UploadFlowModel, UploadStepModel)
    decreases events.len(),
{
    if events.len() == 0 {
        start
    } else {
        upload_next(upload_run(start, events.drop_last()).0, events.last())
    }
}

/// Whether each of `events` reported the outcome that the upload waited for when it came.
pub open spec fn upload_run_accepted(
    start: (UploadFlowModel, UploadStepModel),
    events: Seq<UploadEventModel>,
) -> bool {
    forall|i: int|
        0 <= i < events.len() ==> upload_accepts(
            #[trigger] upload_run(start, events.take(i)).0.stage,
            events[i],
        )
}

/// The metadata of a ref snapshot of `source`, based on the commit `base`.
pub open spec fn ref_snapshot_metadata(
    id: Seq<char>,
    remote: Seq<char>,
    source: Seq<char>,
    base: Seq<char>,
    created_at: (i64, u32, i32),
    tool_version: Seq<char>,
) -> MetadataModel {
    MetadataModel {
        id,
        kind: UploadKind::Ref,
        source,
        source_commit: base,
        created_at,
        remote,
        include_ignored: false,
        tool_version,
    }
}

/// In a run, event `i` reported the source resolved to the commit `m.source_commit`, the
/// upload then asked for the snapshot commit on top of it with the message of `m`, and event
/// `i + 1` reported that commit created as `commit`.
pub open spec fn snapshot_committed(
    start: (UploadFlowModel, UploadStepModel),
    events: Seq<UploadEventModel>,
    i: int,
    m: MetadataModel,
    commit: Seq<char>,
) -> bool {
    &&& 0 <= i
    &&& i + 1 < events.len()
    &&& events[i] == UploadEventModel::Source(Ok(m.source_commit))
    &&& upload_run(start, events.take(i + 1)).1 == (UploadStepModel::CreateCommit {
        message: commit_message(m),
        parent: m.source_commit,
    })
    &&& events[i + 1] == UploadEventModel::Committed(Ok(commit))
}

/// In a run, the upload asked for the push of its temporary ref to its snapshot branch before
/// event `i`, and event `i` reported the push done.
pub open spec fn snapshot_pushed(
    start: (UploadFlowModel, UploadStepModel),
    events: Seq<UploadEventModel>,
    i: int,
) -> bool {
    &&& 0 <= i < events.len()
    &&& upload_run(start, events.take(i)).1 == (UploadStepModel::Push {
        source_ref: temp_ref(start.0.id),
        remote_ref: snapshot_branch(start.0.id),
    })
    &&& events[i] matches UploadEventModel::Pushed(Ok(_))
}

/// What holds of an upload after any accepted run from its start.
spec fn upload_run_inv(
    start: (UploadFlowModel, UploadStepModel),
    events: Seq<UploadEventModel>,
) -> bool {
    let f0 = start.0;
    let g = upload_run(start, events).0;
    let s = upload_run(start, events).1;
    &&& g.id == f0.id
    &&& g.remote == f0.remote
    &&& g.source == f0.source
    &&& g.kind == f0.kind
    &&& g.include_ignored == f0.include_ignored
    &&& g.created_at == f0.created_at
    &&& g.tool_version == f0.tool_version
    &&& (g.kind == UploadKind::Ref ==> g.stage != UploadStage::Stage && !g.include_ignored)
    &&& (g.stage == UploadStage::Branch ==> s == (UploadStepModel::CheckRemoteBranch {
        remote_ref: snapshot_branch(g.id),
    }))
    &&& (g.stage == UploadStage::Commit && g.kind == UploadKind::Ref ==> {
        &&& events.len() > 0
        &&& events.last() == UploadEventModel::Source(Ok(g.base))
        &&& s == commit_step(g)
    })
    &&& (g.kind == UploadKind::Ref && (g.stage == UploadStage::TempRef || g.stage
        == UploadStage::Push || g.stage == UploadStage::Delete || s matches UploadStepModel::Done(
        Ok(_),
    )) ==> exists|i: int| #[trigger]
        snapshot_committed(start, events, i, upload_metadata(g), g.commit))
    &&& (g.stage == UploadStage::Push ==> s == (UploadStepModel::Push {
        source_ref: temp_ref(g.id),
        remote_ref: snapshot_branch(g.id),
    }))
    &&& (g.stage == UploadStage::Delete && g.push_error is None ==> {
        &&& events.len() > 0
        &&& events.last() matches UploadEventModel::Pushed(Ok(_))
        &&& upload_run(start, events.drop_last()).1 == (UploadStepModel::Push {
            source_ref: temp_ref(g.id),
            remote_ref: snapshot_branch(g.id),
        })
    })
    &&& (s matches UploadStepModel::Done(Ok(r)) ==> {
        &&& r == (UploadResultModel { id: g.id, remote_ref: snapshot_branch(g.id), commit: g.commit })
        &&& exists|i: int| #[trigger] snapshot_pushed(start, events, i)
    })
    &&& (s is Done <==> g.stage == UploadStage::Finished)
    &&& (g.stage != UploadStage::Finished ==> valid_id(g.id))
}

/// A prefix of an accepted run is accepted, and runs the same.
proof fn lemma_upload_run_prefix(
    start: (UploadFlowModel, UploadStepModel),
    events: Seq<UploadEventModel>,
    n: int,
)
    requires
        upload_run_accepted(start, events),
        0 <= n <= events.len(),
    ensures
        upload_run_accepted(start, events.take(n)),
        forall|j: int|
            0 <= j <= n ==> #[trigger] events.take(n).take(j) == events.take(j),
{
    assert forall|j: int| 0 <= j <= n implies #[trigger] events.take(n).take(j) == events.take(
        j,
    ) by {
        assert(events.take(n).take(j) =~= events.take(j));
    }
    assert forall|i: int| 0 <= i < events.take(n).len() implies upload_accepts(
        #[trigger] upload_run(start, events.take(n).take(i)).0.stage,
        events.take(n)[i],
    ) by {
        assert(events.take(n).take(i) =~= events.take(i));
        assert(upload_run(start, events.take(i)) == upload_run(start, events.take(n).take(i)));
    }
}

/// A witness of the snapshot commit stays one when the run goes on.
proof fn lemma_committed_extends(
    start: (UploadFlowModel, UploadStepModel),
    events: Seq<UploadEventModel>,
    e: UploadEventModel,
    i: int,
    m: MetadataModel,
    commit: Seq<char>,
)
    requires
        snapshot_committed(start, events, i, m, commit),
    ensures
        snapshot_committed(start, events.push(e), i, m, commit),
{
    assert(events.push(e).take(i + 1) =~= events.take(i + 1));
}

#[verifier::rlimit(60)]
proof fn lemma_upload_run_inv(
    start: (UploadFlowModel, UploadStepModel),
    events: Seq<UploadEventModel>,
)
    requires
        start == upload_start(
            start.0.id,
            start.0.remote,
            start.0.source,
            start.0.include_ignored,
            start.0.kind,
            start.0.created_at,
            start.0.tool_version,
        ),
        upload_run_accepted(start, events),
    ensures
        upload_run_inv(start, events),
    decreases events.len(),
{
    if events.len() > 0 {
        let n = events.len() - 1;
        let prev = events.drop_last();
        let e = events.last();
        assert(events.take(n) =~= prev);
        lemma_upload_run_prefix(start, events, n);
        lemma_upload_run_inv(start, prev);
        let g = upload_run(start, prev).0;
        let s = upload_run(start, prev).1;
        assert(upload_accepts(upload_run(start, events.take(n)).0.stage, events[n]));
        assert(upload_accepts(g.stage, e));
        assert(events =~= prev.push(e));
        lemma_upload_keeps_request(g, e);
        let g2 = upload_next(g, e).0;
        let s2 = upload_next(g, e).1;
        if g.kind == UploadKind::Ref && (g.stage == UploadStage::TempRef || g.stage
            == UploadStage::Push || g.stage == UploadStage::Delete) {
            let i = choose|i: int| #[trigger]
                snapshot_committed(start, prev, i, upload_metadata(g), g.commit);
            lemma_committed_extends(start, prev, e, i, upload_metadata(g), g.commit);
            assert(upload_metadata(g2) == upload_metadata(g));
        }
        if g.kind == UploadKind::Ref && g.stage == UploadStage::Commit {
            if let UploadEventModel::Committed(Ok(c)) = e {
                assert(upload_metadata(g2) == upload_metadata(g));
                assert(events[n - 1] == prev.last());
                assert(events[n] == e);
                assert(events.take((n - 1) + 1) == prev);
                assert(upload_run(start, events.take((n - 1) + 1)).1 == commit_step(g));
                assert(snapshot_committed(start, events, n - 1, upload_metadata(g2), g2.commit));
            }
        }
        if g.stage == UploadStage::Delete && g.push_error is None {
            assert(events.take(n - 1) =~= prev.drop_last());
            assert(events[n - 1] == prev.last());
            if s2 matches UploadStepModel::Done(Ok(_)) {
                assert(snapshot_pushed(start, events, n - 1));
            }
        }
    }
}

/// A ref upload that succeeds has a valid id, reports it with the branch
/// `refs/heads/gitss/<id>`, and on its way asked for the snapshot commit on top of the commit
/// its source resolved to, with a message that records the id, the `ref` kind, the source,
/// that commit, the remote, no ignored files, the creation time and the tool version, and
/// parses back to them where they render back and chrono reads the creation time back; the
/// reported commit is the one created then.
pub proof fn lemma_ref_upload_outcome(
    id: Seq<char>,
    remote: Seq<char>,
    source: Seq<char>,
    include_ignored: bool,
    created_at: (i64, u32, i32),
    tool_version: Seq<char>,
    events: Seq<UploadEventModel>,
    r: UploadResultModel,
)
    requires
        upload_run_accepted(
            upload_start(id, remote, source, include_ignored, UploadKind::Ref, created_at, tool_version),
            events,
        ),
        upload_run(
            upload_start(id, remote, source, include_ignored, UploadKind::Ref, created_at, tool_version),
            events,
        ).1 == UploadStepModel::Done(Ok::<UploadResultModel, GitSsErrorModel>(r)),
    ensures
        valid_id(id),
        r.id == id,
        r.remote_ref == snapshot_branch(id),
        exists|i: int, base: Seq<char>|
            {
                let m = ref_snapshot_metadata(id, remote, source, base, created_at, tool_version);
                &&& #[trigger] snapshot_committed(
                    upload_start(id, remote, source, include_ignored, UploadKind::Ref, created_at, tool_version),
                    events,
                    i,
                    ref_snapshot_metadata(id, remote, source, base, created_at, tool_version),
                    r.commit,
                )
                &&& (renders_back(m) && created_text_reads_back(created_at) ==> parsed_metadata(
                    commit_message(m),
                ) == Ok::<MetadataModel, MetadataErrorModel>(m))
            },
{
    let start = upload_start(id, remote, source, include_ignored, UploadKind::Ref, created_at, tool_version);
    lemma_upload_run_inv(start, events);
    let g = upload_run(start, events).0;
    if events.len() == 0 {
        assert(!valid_id(id));
    }
    assert(valid_id(id)) by {
        if !valid_id(id) {
            assert(start.0.stage == UploadStage::Finished);
            assert(events.take(0) =~= Seq::<UploadEventModel>::empty());
            assert(upload_run(start, events.take(0)) == start);
            assert(!upload_accepts(start.0.stage, events[0]));
        }
    }
    let i = choose|i: int| #[trigger] snapshot_committed(start, events, i, upload_metadata(g), g.commit);
    let m = ref_snapshot_metadata(id, remote, source, g.base, created_at, tool_version);
    assert(upload_metadata(g) == m);
    if renders_back(m) && created_text_reads_back(created_at) {
        lemma_message_round_trip(m);
    }
    assert(snapshot_committed(start, events, i, m, r.commit));
}

/// An upload whose remote answers that it has the snapshot branch, each time it is asked,
/// asks for no commit and no push, and ends refused with the branch named once answered.
proof fn lemma_refused_run(
    start: (UploadFlowModel, UploadStepModel),
    events: Seq<UploadEventModel>,
)
    requires
        start == upload_start(
            start.0.id,
            start.0.remote,
            start.0.source,
            start.0.include_ignored,
            start.0.kind,
            start.0.created_at,
            start.0.tool_version,
        ),
        upload_run_accepted(start, events),
        forall|j: int|
            0 <= j < events.len() && #[trigger] upload_run(start, events.take(j)).1 == (
            UploadStepModel::CheckRemoteBranch { remote_ref: snapshot_branch(start.0.id) })
                ==> events[j] == UploadEventModel::BranchExists(Ok(true)),
    ensures
        ({
            let g = upload_run(start, events).0;
            let s = upload_run(start, events).1;
            &&& g.stage == UploadStage::Head || g.stage == UploadStage::Remote || g.stage
                == UploadStage::Branch || g.stage == UploadStage::Finished
            &&& !(s is Push)
            &&& !(s is CreateCommit)
            &&& (events.len() > 0 && events.last() is BranchExists ==> s == UploadStepModel::Done(
                Err::<UploadResultModel, GitSsErrorModel>(
                    GitSsErrorModel::RemoteBranchExists(snapshot_branch(start.0.id)),
                ),
            ))
        }),
    decreases events.len(),
{
    if events.len() > 0 {
        let n = events.len() - 1;
        let prev = events.drop_last();
        let e = events.last();
        assert(events.take(n) =~= prev);
        lemma_upload_run_prefix(start, events, n);
        assert forall|j: int|
            0 <= j < prev.len() && #[trigger] upload_run(start, prev.take(j)).1 == (
            UploadStepModel::CheckRemoteBranch {
                remote_ref: snapshot_branch(start.0.id),
            }) implies prev[j] == UploadEventModel::BranchExists(Ok(true)) by {
            assert(events.take(n).take(j) == events.take(j));
            assert(events[j] == prev[j]);
        }
        lemma_refused_run(start, prev);
        lemma_upload_run_inv(start, prev);
        let g = upload_run(start, prev).0;
        assert(upload_accepts(upload_run(start, events.take(n)).0.stage, events[n]));
        if g.stage == UploadStage::Branch {
            assert(events[n] == UploadEventModel::BranchExists(Ok(true)));
        }
    }
}

/// Once an upload has succeeded it has pushed to its snapshot branch, the branch it reports;
/// a later upload of the same id to a remote that advertises that branch asks for no commit
/// and no push, and ends refused with that branch named once the remote has answered.
pub proof fn lemma_second_upload_refused(
    id: Seq<char>,
    remote: Seq<char>,
    source: Seq<char>,
    include_ignored: bool,
    kind: UploadKind,
    tool_version: Seq<char>,
    first_created_at: (i64, u32, i32),
    second_created_at: (i64, u32, i32),
    first: Seq<UploadEventModel>,
    second: Seq<UploadEventModel>,
    r: UploadResultModel,
)
    requires
        upload_run_accepted(
            upload_start(id, remote, source, include_ignored, kind, first_created_at, tool_version),
            first,
        ),
        upload_run(
            upload_start(id, remote, source, include_ignored, kind, first_created_at, tool_version),
            first,
        ).1 == UploadStepModel::Done(Ok::<UploadResultModel, GitSsErrorModel>(r)),
        upload_run_accepted(
            upload_start(id, remote, source, include_ignored, kind, second_created_at, tool_version),
            second,
        ),
        forall|j: int|
            0 <= j < second.len() && #[trigger] upload_run(
                upload_start(id, remote, source, include_ignored, kind, second_created_at, tool_version),
                second.take(j),
            ).1 == (UploadStepModel::CheckRemoteBranch { remote_ref: r.remote_ref })
                ==> second[j] == UploadEventModel::BranchExists(Ok(true)),
    ensures
        r.remote_ref == snapshot_branch(id),
        exists|i: int|
            #[trigger] snapshot_pushed(
                upload_start(id, remote, source, include_ignored, kind, first_created_at, tool_version),
                first,
                i,
            ),
        forall|j: int|
            0 <= j <= second.len() ==> {
                let s = #[trigger] upload_run(
                    upload_start(id, remote, source, include_ignored, kind, second_created_at, tool_version),
                    second.take(j),
                ).1;
                !(s is Push) && !(s is CreateCommit)
            },
        forall|j: int|
            0 <= j < second.len() && (#[trigger] second[j]) is BranchExists ==> upload_run(
                upload_start(id, remote, source, include_ignored, kind, second_created_at, tool_version),
                second.take(j + 1),
            ).1 == UploadStepModel::Done(
                Err::<UploadResultModel, GitSsErrorModel>(
                    GitSsErrorModel::RemoteBranchExists(r.remote_ref),
                ),
            ),
{
    let start1 = upload_start(id, remote, source, include_ignored, kind, first_created_at, tool_version);
    let start2 = upload_start(id, remote, source, include_ignored, kind, second_created_at, tool_version);
    lemma_upload_run_inv(start1, first);
    assert forall|j: int| 0 <= j <= second.len() implies {
        let s = #[trigger] upload_run(start2, second.take(j)).1;
        &&& !(s is Push)
        &&& !(s is CreateCommit)
        &&& (j > 0 && second[j - 1] is BranchExists ==> s == UploadStepModel::Done(
            Err::<UploadResultModel, GitSsErrorModel>(
                GitSsErrorModel::RemoteBranchExists(r.remote_ref),
            ),
        ))
    } by {
        lemma_upload_run_prefix(start2, second, j);
        let t = second.take(j);
        assert forall|k: int|
            0 <= k < t.len() && #[trigger] upload_run(start2, t.take(k)).1 == (
            UploadStepModel::CheckRemoteBranch {
                remote_ref: snapshot_branch(start2.0.id),
            }) implies t[k] == UploadEventModel::BranchExists(Ok(true)) by {
            assert(second.take(j).take(k) == second.take(k));
            assert(t[k] == second[k]);
        }
        lemma_refused_run(start2, t);
        if j > 0 {
            assert(t.last() == second[j - 1]);
        }
    }
    assert forall|j: int|
        0 <= j < second.len() && (#[trigger] second[j]) is BranchExists implies upload_run(
            start2,
            second.take(j + 1),
        ).1 == UploadStepModel::Done(
            Err::<UploadResultModel, GitSsErrorModel>(
                GitSsErrorModel::RemoteBranchExists(r.remote_ref),
            ),
        ) by {
        let s = upload_run(start2, second.take(j + 1)).1;
        assert(second[(j + 1) - 1] == second[j]);
    }
}

/// Whatever the kind of upload, the commit that the commit step reports is the commit the
/// temporary ref `refs/gitss/tmp/<id>` is created at, the ref that is then pushed to
/// `refs/heads/gitss/<id>` and deleted, and the commit that the upload reports once done.
pub proof fn lemma_temp_ref_holds_snapshot_commit(f: UploadFlowModel, c: Seq<char>)
    requires
        f.stage == UploadStage::Commit,
    ensures
        ({
            let tmp = "refs/gitss/tmp/"@ + f.id;
            let branch = "refs/heads/gitss/"@ + f.id;
            let (g1, s1) = upload_next(f, UploadEventModel::Committed(Ok(c)));
            let (g2, s2) = upload_next(g1, UploadEventModel::TempRefCreated(Ok(())));
            let (g3, s3) = upload_next(g2, UploadEventModel::Pushed(Ok(())));
            let (g4, s4) = upload_next(g3, UploadEventModel::TempRefDeleted(Ok(())));
            &&& s1 == (UploadStepModel::CreateTempRef {
                name: tmp,
                commit: c,
                log_message: "git-ss snapshot upload"@,
            })
            &&& s2 == (UploadStepModel::Push { source_ref: tmp, remote_ref: branch })
            &&& s3 == (UploadStepModel::DeleteTempRef { name: tmp })
            &&& s4 == UploadStepModel::Done(
                Ok::<UploadResultModel, GitSsErrorModel>(
                    UploadResultModel { id: f.id, remote_ref: branch, commit: c },
                ),
            )
        }),
{
}

impl UploadFlow {
    /// Begins an upload of a snapshot of this kind, created at `created_at` by tool version
    /// `tool_version`, and returns it with its first step.
    pub fn start(
        input: SnapshotUpload<'_>,
        kind: UploadKind,
        created_at: Timestamp,
        tool_version: &str,
    ) -> (r: (UploadFlow, UploadStep))
        ensures
            (r.0@, r.1@) == upload_start(
                input.id@,
                input.remote@,
                input.source@,
                input.include_ignored,
                kind,
                created_at@,
                tool_version@,
            ),
    {
        let workdir = kind == UploadKind::Workdir;
        let mut f = UploadFlow {
            id: owned(input.id),
            remote: owned(input.remote),
            source: if workdir {
                owned("HEAD")
            } else {
                owned(input.source)
            },
            kind,
            include_ignored: workdir && input.include_ignored,
            created_at,
            tool_version: owned(tool_version),
            stage: UploadStage::Head,
            head: String::new(),
            base: String::new(),
            commit: String::new(),
            push_error: None,
        };
        match validate_id(input.id) {
            Ok(_) => (f, UploadStep::RequireHead),
            Err(_) => {
                f.stage = UploadStage::Finished;
                (f, UploadStep::Done(Err(GitSsError::InvalidId(owned(input.id)))))
            },
        }
    }

    /// Whether `event` reports the outcome that this upload waits for.
    pub fn accepts(&self, event: &UploadEvent) -> (b: bool)
        ensures
            b == upload_accepts(self@.stage, event@),
    {
        match event {
            UploadEvent::Head(_) => self.stage == UploadStage::Head,
            UploadEvent::Remote(_) => self.stage == UploadStage::Remote,
            UploadEvent::BranchExists(_) => self.stage == UploadStage::Branch,
            UploadEvent::Source(_) => self.stage == UploadStage::Source,
            UploadEvent::Staged(_) => self.stage == UploadStage::Stage,
            UploadEvent::Committed(_) => self.stage == UploadStage::Commit,
            UploadEvent::TempRefCreated(_) => self.stage == UploadStage::TempRef,
            UploadEvent::Pushed(_) => self.stage == UploadStage::Push,
            UploadEvent::TempRefDeleted(_) => self.stage == UploadStage::Delete,
        }
    }

    fn fail(&mut self, e: GitSsError) -> (r: UploadStep)
        ensures
            (final(self)@, r@) == upload_fail(old(self)@, e@),
    {
        self.stage = UploadStage::Finished;
        UploadStep::Done(Err(e))
    }

    fn metadata(&self) -> (m: SnapshotMetadata)
        ensures
            m@ == upload_metadata(self@),
    {
        SnapshotMetadata {
            id: self.id.clone(),
            kind: self.kind,
            source: self.source.clone(),
            source_commit: self.base.clone(),
            created_at: self.created_at,
            remote: self.remote.clone(),
            include_ignored: self.include_ignored,
            tool_version: self.tool_version.clone(),
        }
    }

    fn commit_step(&self) -> (r: UploadStep)
        ensures
            r@ == commit_step(self@),
            renders_back(upload_metadata(self@)) ==> parsed_metadata(commit_message(
                upload_metadata(self@),
            )) == Ok::<MetadataModel, MetadataErrorModel>(upload_metadata(self@)),
    {
        let m = self.metadata();
        UploadStep::CreateCommit { message: m.to_commit_message(), parent: self.base.clone() }
    }

    /// Advances the upload on the outcome of its last step and returns the next step. The
    /// commit message that it hands over parses back to the snapshot's metadata wherever that
    /// metadata renders back.
    pub fn step(&mut self, event: UploadEvent) -> (r: UploadStep)
        requires
            upload_accepts(old(self)@.stage, event@),
        ensures
            (final(self)@, r@) == upload_next(old(self)@, event@),
            r@ is CreateCommit && renders_back(upload_metadata(final(self)@)) ==> parsed_metadata(
                r@->CreateCommit_message,
            ) == Ok::<MetadataModel, MetadataErrorModel>(upload_metadata(final(self)@)),
    {
        match event {
            UploadEvent::Head(Ok(head)) => {
                self.stage = UploadStage::Remote;
                self.head = head;
                UploadStep::ResolveRemote { remote: self.remote.clone() }
            },
            UploadEvent::Head(Err(x)) => self.fail(x),
            UploadEvent::Remote(Ok(())) => {
                self.stage = UploadStage::Branch;
                UploadStep::CheckRemoteBranch { remote_ref: snapshot_branch_name(self.id.as_str()) }
            },
            UploadEvent::Remote(Err(x)) => self.fail(x),
            UploadEvent::BranchExists(Ok(exists)) => {
                if exists {
                    let branch = snapshot_branch_name(self.id.as_str());
                    self.fail(GitSsError::RemoteBranchExists(branch))
                } else if self.kind == UploadKind::Ref {
                    self.stage = UploadStage::Source;
                    UploadStep::ResolveSource { source: self.source.clone() }
                } else {
                    self.stage = UploadStage::Stage;
                    self.base = self.head.clone();
                    UploadStep::StageWorkdir {
                        head: self.head.clone(),
                        include_ignored: self.include_ignored,
                    }
                }
            },
            UploadEvent::BranchExists(Err(x)) => self.fail(x),
            UploadEvent::Source(Ok(base)) => {
                self.stage = UploadStage::Commit;
                self.base = base;
                self.commit_step()
            },
            UploadEvent::Source(Err(SourceFailure::Unresolvable)) => {
                let source = self.source.clone();
                self.fail(GitSsError::UnresolvableRef(source))
            },
            UploadEvent::Source(Err(SourceFailure::Tree(x))) => self.fail(GitSsError::Git(x)),
            UploadEvent::Staged(Ok(())) => {
                self.stage = UploadStage::Commit;
                self.commit_step()
            },
            UploadEvent::Staged(Err(x)) => self.fail(GitSsError::Git(x)),
            UploadEvent::Committed(Ok(commit)) => {
                self.stage = UploadStage::TempRef;
                self.commit = commit.clone();
                UploadStep::CreateTempRef {
                    name: temp_ref_name(self.id.as_str()),
                    commit,
                    log_message: owned("git-ss snapshot upload"),
                }
            },
            UploadEvent::Committed(Err(x)) => self.fail(GitSsError::Git(x)),
            UploadEvent::TempRefCreated(Ok(())) => {
                self.stage = UploadStage::Push;
                UploadStep::Push {
                    source_ref: temp_ref_name(self.id.as_str()),
                    remote_ref: snapshot_branch_name(self.id.as_str()),
                }
            },
            UploadEvent::TempRefCreated(Err(x)) => self.fail(GitSsError::Git(x)),
            UploadEvent::Pushed(r) => {
                self.stage = UploadStage::Delete;
                self.push_error = match r {
                    Ok(()) => None,
                    Err(x) => Some(x),
                };
                UploadStep::DeleteTempRef { name: temp_ref_name(self.id.as_str()) }
            },
            UploadEvent::TempRefDeleted(r) => {
                let pending = self.push_error.take();
                match pending {
                    Some(x) => self.fail(x),
                    None => match r {
                        Err(x) => self.fail(GitSsError::Git(x)),
                        Ok(()) => {
                            self.stage = UploadStage::Finished;
                            UploadStep::Done(
                                Ok(
                                    UploadResult {
                                        id: self.id.clone(),
                                        remote_ref: snapshot_branch_name(self.id.as_str()),
                                        commit: self.commit.clone(),
                                    },
                                ),
                            )
                        },
                    },
                }
            },
        }
    }
}

} // verus!
