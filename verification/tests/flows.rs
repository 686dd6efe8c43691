use git_ss::download_flow::{DownloadEvent, DownloadFlow, DownloadStep, FetchFailure, ReadFailure};
use git_ss::git::{
    advertises, credential_plan, discover_error, has_changes, list_refspec, map_checkout_error,
    map_head_lookup, push_outcome, remote_lookup_error, snapshot_lookup_error, tracking_glob,
    tracking_prefix_name, CredentialTypes, FinalCredential, GitError, GitErrorCode, GitSsError,
};
use git_ss::metadata::{parse_metadata, UploadKind};
use git_ss::time::Timestamp;
use git_ss::upload_flow::{SnapshotUpload, SourceFailure, UploadEvent, UploadFlow, UploadStep};

fn git_error(code: GitErrorCode, message: &str) -> GitError {
    GitError { code, message: message.to_string() }
}

fn upload_input<'a>(id: &'a str, source: &'a str, include_ignored: bool) -> SnapshotUpload<'a> {
    SnapshotUpload { id, remote: "origin", source, include_ignored }
}

fn created() -> Timestamp {
    Timestamp::new(1_779_953_412, 0, 8 * 3600).unwrap()
}

fn feed(flow: &mut UploadFlow, event: UploadEvent) -> UploadStep {
    assert!(flow.accepts(&event));
    flow.step(event)
}

#[test]
fn ref_upload_walks_every_step() {
    let (mut flow, step) =
        UploadFlow::start(upload_input("ref-demo", "HEAD~1", true), UploadKind::Ref, created(), "0.1.0");
    assert!(matches!(step, UploadStep::RequireHead));

    let step = feed(&mut flow, UploadEvent::Head(Ok("1111".to_string())));
    assert!(matches!(step, UploadStep::ResolveRemote { ref remote } if remote == "origin"));

    let step = feed(&mut flow, UploadEvent::Remote(Ok(())));
    assert!(
        matches!(step, UploadStep::CheckRemoteBranch { ref remote_ref } if remote_ref == "refs/heads/gitss/ref-demo")
    );

    let step = feed(&mut flow, UploadEvent::BranchExists(Ok(false)));
    assert!(matches!(step, UploadStep::ResolveSource { ref source } if source == "HEAD~1"));

    let step = feed(&mut flow, UploadEvent::Source(Ok("2222".to_string())));
    let message = match step {
        UploadStep::CreateCommit { message, parent } => {
            assert_eq!(parent, "2222");
            message
        }
        other => panic!("unexpected {other:?}"),
    };
    assert!(message.contains("Git-SS-Id: ref-demo\n"));
    assert!(message.contains("Git-SS-Type: ref\n"));
    assert!(message.contains("Git-SS-Source: HEAD~1\n"));
    let parsed = parse_metadata(&message).expect("message parses");
    assert_eq!(parsed.source_commit, "2222");
    assert!(!parsed.include_ignored);
    assert_eq!(parsed.created_at, created());

    let step = feed(&mut flow, UploadEvent::Committed(Ok("3333".to_string())));
    match step {
        UploadStep::CreateTempRef { name, commit, log_message } => {
            assert_eq!(name, "refs/gitss/tmp/ref-demo");
            assert_eq!(commit, "3333");
            assert_eq!(log_message, "git-ss snapshot upload");
        }
        other => panic!("unexpected {other:?}"),
    }

    let step = feed(&mut flow, UploadEvent::TempRefCreated(Ok(())));
    match step {
        UploadStep::Push { source_ref, remote_ref } => {
            assert_eq!(source_ref, "refs/gitss/tmp/ref-demo");
            assert_eq!(remote_ref, "refs/heads/gitss/ref-demo");
        }
        other => panic!("unexpected {other:?}"),
    }

    let step = feed(&mut flow, UploadEvent::Pushed(Ok(())));
    assert!(matches!(step, UploadStep::DeleteTempRef { ref name } if name == "refs/gitss/tmp/ref-demo"));

    match feed(&mut flow, UploadEvent::TempRefDeleted(Ok(()))) {
        UploadStep::Done(Ok(result)) => {
            assert_eq!(result.id, "ref-demo");
            assert_eq!(result.remote_ref, "refs/heads/gitss/ref-demo");
            assert_eq!(result.commit, "3333");
        }
        other => panic!("unexpected {other:?}"),
    }
    assert!(!flow.accepts(&UploadEvent::Pushed(Ok(()))));
}

#[test]
fn workdir_upload_stages_on_head() {
    let (mut flow, _) =
        UploadFlow::start(upload_input("wd", "ignored-source", true), UploadKind::Workdir, created(), "0.1.0");
    feed(&mut flow, UploadEvent::Head(Ok("abcd".to_string())));
    feed(&mut flow, UploadEvent::Remote(Ok(())));
    match feed(&mut flow, UploadEvent::BranchExists(Ok(false))) {
        UploadStep::StageWorkdir { head, include_ignored } => {
            assert_eq!(head, "abcd");
            assert!(include_ignored);
        }
        other => panic!("unexpected {other:?}"),
    }
    match feed(&mut flow, UploadEvent::Staged(Ok(()))) {
        UploadStep::CreateCommit { message, parent } => {
            assert_eq!(parent, "abcd");
            assert!(message.contains("Git-SS-Source: HEAD\n"));
            assert!(message.contains("Git-SS-Include-Ignored: true\n"));
            assert!(message.contains("Git-SS-Type: workdir\n"));
        }
        other => panic!("unexpected {other:?}"),
    }
}

#[test]
fn upload_rejects_invalid_id_and_existing_branch() {
    let (_, step) =
        UploadFlow::start(upload_input("bad id", "HEAD", false), UploadKind::Ref, created(), "0.1.0");
    assert!(matches!(step, UploadStep::Done(Err(GitSsError::InvalidId(ref id))) if id == "bad id"));

    let (mut flow, _) =
        UploadFlow::start(upload_input("duplicate", "HEAD", false), UploadKind::Ref, created(), "0.1.0");
    feed(&mut flow, UploadEvent::Head(Ok("1".to_string())));
    feed(&mut flow, UploadEvent::Remote(Ok(())));
    match feed(&mut flow, UploadEvent::BranchExists(Ok(true))) {
        UploadStep::Done(Err(err)) => assert_eq!(
            err.message(),
            "remote snapshot branch 'refs/heads/gitss/duplicate' already exists"
        ),
        other => panic!("unexpected {other:?}"),
    }
}

#[test]
fn upload_reports_push_failure_after_cleanup() {
    let (mut flow, _) =
        UploadFlow::start(upload_input("p", "main", false), UploadKind::Ref, created(), "0.1.0");
    feed(&mut flow, UploadEvent::Head(Ok("1".to_string())));
    feed(&mut flow, UploadEvent::Remote(Ok(())));
    feed(&mut flow, UploadEvent::BranchExists(Ok(false)));
    feed(&mut flow, UploadEvent::Source(Ok("2".to_string())));
    feed(&mut flow, UploadEvent::Committed(Ok("3".to_string())));
    feed(&mut flow, UploadEvent::TempRefCreated(Ok(())));
    let rejected = push_outcome(Ok(()), Some(("refs/heads/gitss/p".to_string(), "denied".to_string())));
    let step = feed(&mut flow, UploadEvent::Pushed(rejected));
    assert!(matches!(step, UploadStep::DeleteTempRef { .. }));
    match feed(&mut flow, UploadEvent::TempRefDeleted(Err(git_error(GitErrorCode::Other, "gone")))) {
        UploadStep::Done(Err(err)) => {
            assert_eq!(err.message(), "failed to push refs/heads/gitss/p: denied")
        }
        other => panic!("unexpected {other:?}"),
    }
}

#[test]
fn upload_reports_unresolvable_source() {
    let (mut flow, _) =
        UploadFlow::start(upload_input("u", "nope", false), UploadKind::Ref, created(), "0.1.0");
    feed(&mut flow, UploadEvent::Head(Ok("1".to_string())));
    feed(&mut flow, UploadEvent::Remote(Ok(())));
    feed(&mut flow, UploadEvent::BranchExists(Ok(false)));
    match feed(&mut flow, UploadEvent::Source(Err(SourceFailure::Unresolvable))) {
        UploadStep::Done(Err(err)) => {
            assert_eq!(err.message(), "cannot resolve source ref 'nope' to a commit")
        }
        other => panic!("unexpected {other:?}"),
    }
}

fn dfeed(flow: &mut DownloadFlow, event: DownloadEvent) -> DownloadStep {
    assert!(flow.accepts(&event));
    flow.step(event)
}

#[test]
fn safe_download_checks_worktree_first() {
    let (mut flow, step) = DownloadFlow::start("origin", "20260528-153012", false);
    assert!(matches!(step, DownloadStep::ResolveRemote { ref remote } if remote == "origin"));
    let step = dfeed(&mut flow, DownloadEvent::Remote(Ok(())));
    assert!(
        matches!(step, DownloadStep::FindTrackingRef { ref name } if name == "refs/remotes/origin/gitss/20260528-153012")
    );
    let step = dfeed(
        &mut flow,
        DownloadEvent::TrackingLookup(Err(git_error(GitErrorCode::NotFound, "no ref"))),
    );
    match step {
        DownloadStep::Fetch { refspec } => assert_eq!(
            refspec,
            "+refs/heads/gitss/20260528-153012:refs/remotes/origin/gitss/20260528-153012"
        ),
        other => panic!("unexpected {other:?}"),
    }
    let step = dfeed(&mut flow, DownloadEvent::Fetched(Ok(())));
    assert!(matches!(step, DownloadStep::ReadSnapshot { .. }));
    let step = dfeed(&mut flow, DownloadEvent::SnapshotRead(Ok("c0ffee".to_string())));
    assert!(matches!(step, DownloadStep::CheckWorktree));
    let step = dfeed(&mut flow, DownloadEvent::Worktree(Ok(false)));
    assert!(matches!(step, DownloadStep::DryRunCheckout { ref commit } if commit == "c0ffee"));
    let step = dfeed(&mut flow, DownloadEvent::DryRun(Ok(())));
    assert!(matches!(step, DownloadStep::Checkout { ref commit, force: false } if commit == "c0ffee"));
    let step = dfeed(&mut flow, DownloadEvent::CheckedOut(Ok(())));
    assert!(matches!(step, DownloadStep::DetachHead { ref commit } if commit == "c0ffee"));
    let step = dfeed(&mut flow, DownloadEvent::Detached(Ok(())));
    assert!(matches!(step, DownloadStep::Done(Ok(ref commit)) if commit == "c0ffee"));
}

#[test]
fn download_refuses_dirty_worktree_and_missing_snapshot() {
    let (mut flow, _) = DownloadFlow::start("origin", "x", false);
    dfeed(&mut flow, DownloadEvent::Remote(Ok(())));
    let step = dfeed(&mut flow, DownloadEvent::TrackingLookup(Ok(())));
    assert!(matches!(step, DownloadStep::DeleteTrackingRef { .. }));
    dfeed(&mut flow, DownloadEvent::TrackingDeleted(Ok(())));
    dfeed(&mut flow, DownloadEvent::Fetched(Ok(())));
    dfeed(&mut flow, DownloadEvent::SnapshotRead(Ok("c".to_string())));
    let step = dfeed(&mut flow, DownloadEvent::Worktree(Ok(true)));
    assert!(matches!(step, DownloadStep::Done(Err(GitSsError::DirtyWorktree))));

    let (mut flow, _) = DownloadFlow::start("origin", "gone", false);
    dfeed(&mut flow, DownloadEvent::Remote(Ok(())));
    dfeed(&mut flow, DownloadEvent::TrackingLookup(Err(git_error(GitErrorCode::NotFound, "-"))));
    let step = dfeed(
        &mut flow,
        DownloadEvent::Fetched(Err(FetchFailure::Transfer(git_error(GitErrorCode::NotFound, "-")))),
    );
    match step {
        DownloadStep::Done(Err(err)) => {
            assert_eq!(err.message(), "snapshot 'gone' was not found on the selected remote")
        }
        other => panic!("unexpected {other:?}"),
    }

    let (_, step) = DownloadFlow::start("origin", "", true);
    assert!(matches!(step, DownloadStep::Done(Err(GitSsError::InvalidId(_)))));
}

#[test]
fn forced_download_checks_out_at_once() {
    let (mut flow, _) = DownloadFlow::start("fork", "f", true);
    dfeed(&mut flow, DownloadEvent::Remote(Ok(())));
    dfeed(&mut flow, DownloadEvent::TrackingLookup(Err(git_error(GitErrorCode::NotFound, "-"))));
    dfeed(&mut flow, DownloadEvent::Fetched(Ok(())));
    let step = dfeed(&mut flow, DownloadEvent::SnapshotRead(Ok("d".to_string())));
    assert!(matches!(step, DownloadStep::Checkout { ref commit, force: true } if commit == "d"));
    let step = dfeed(
        &mut flow,
        DownloadEvent::CheckedOut(Err(git_error(GitErrorCode::Conflict, "conflict"))),
    );
    assert!(matches!(step, DownloadStep::Done(Err(GitSsError::DirtyWorktree))));

    let (mut flow, _) = DownloadFlow::start("fork", "f", true);
    dfeed(&mut flow, DownloadEvent::Remote(Ok(())));
    dfeed(&mut flow, DownloadEvent::TrackingLookup(Err(git_error(GitErrorCode::NotFound, "-"))));
    dfeed(&mut flow, DownloadEvent::Fetched(Ok(())));
    let step = dfeed(
        &mut flow,
        DownloadEvent::SnapshotRead(Err(ReadFailure::Peel(git_error(GitErrorCode::Other, "peel")))),
    );
    assert!(matches!(step, DownloadStep::Done(Err(GitSsError::Git(ref e))) if e.message == "peel"));
}

#[test]
fn error_mappings_and_messages() {
    assert!(matches!(
        discover_error(git_error(GitErrorCode::NotFound, "x")),
        GitSsError::NotRepository
    ));
    assert_eq!(
        discover_error(git_error(GitErrorCode::NotFound, "x")).message(),
        "not inside a Git repository"
    );
    assert!(matches!(discover_error(git_error(GitErrorCode::Other, "x")), GitSsError::Git(_)));
    assert_eq!(
        map_head_lookup(git_error(GitErrorCode::UnbornBranch, "x")).message(),
        "repository has no HEAD; git-ss does not support empty repositories yet"
    );
    assert!(matches!(map_head_lookup(git_error(GitErrorCode::Other, "x")), GitSsError::Git(_)));
    let missing = remote_lookup_error(git_error(GitErrorCode::NotFound, "x"), "origin");
    assert!(missing.message().contains("remote 'origin' is not configured"));
    assert!(missing.message().contains("--remote <name>"));
    assert!(matches!(
        map_checkout_error(git_error(GitErrorCode::Uncommitted, "x")),
        GitSsError::DirtyWorktree
    ));
    assert_eq!(
        map_checkout_error(git_error(GitErrorCode::Other, "boom")).message(),
        "boom"
    );
    assert!(matches!(
        snapshot_lookup_error(git_error(GitErrorCode::NotFound, "x"), "id"),
        GitSsError::MissingSnapshot(_)
    ));
    assert_eq!(
        GitSsError::InvalidId("a b".to_string()).message(),
        "invalid snapshot id 'a b'"
    );
}

#[test]
fn refspecs_and_names() {
    assert_eq!(list_refspec("origin"), "+refs/heads/gitss/*:refs/remotes/origin/gitss/*");
    assert_eq!(tracking_prefix_name("fork"), "refs/remotes/fork/gitss/");
    assert_eq!(tracking_glob("fork"), "refs/remotes/fork/gitss/*");
    let names = vec!["refs/heads/main".to_string(), "refs/heads/gitss/a".to_string()];
    assert!(advertises(&names, "refs/heads/gitss/a"));
    assert!(!advertises(&names, "refs/heads/gitss/b"));
    assert!(has_changes(&vec![0, 0, 4]));
    assert!(!has_changes(&vec![0, 0]));
    assert!(push_outcome(Ok(()), None).is_ok());
    assert!(matches!(
        push_outcome(Err(git_error(GitErrorCode::Other, "net")), None),
        Err(GitSsError::Git(ref e)) if e.message == "net"
    ));
}

#[test]
fn credentials_are_tried_in_order() {
    let all = CredentialTypes { user_pass_plaintext: true, ssh_key: true, username: true, default: true };
    let plan = credential_plan(all, Some("alice"));
    assert!(plan.try_helper);
    assert_eq!(plan.agent_user.as_deref(), Some("alice"));
    assert!(matches!(plan.last, FinalCredential::Username(ref u) if u == "alice"));

    let ssh = CredentialTypes { user_pass_plaintext: false, ssh_key: true, username: true, default: false };
    let plan = credential_plan(ssh, None);
    assert!(!plan.try_helper);
    assert_eq!(plan.agent_user.as_deref(), Some("git"));
    assert!(matches!(plan.last, FinalCredential::Unsupported));

    let default = CredentialTypes { user_pass_plaintext: false, ssh_key: false, username: false, default: true };
    let plan = credential_plan(default, Some("bob"));
    assert!(plan.agent_user.is_none());
    assert!(matches!(plan.last, FinalCredential::Default));
}
