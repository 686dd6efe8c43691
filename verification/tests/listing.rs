use git_ss::cli::{UploadArgs, UploadTarget};
use git_ss::commands::list::{
    changes_summary, clean_cell, column_limits, commit_label, compact_duration,
    format_age_at, format_age_seconds, format_created, human_header, human_row, human_row_at, format_age,
    output_snapshot, output_snapshots, short_text, upload_kind_name, ChangeStats,
};
use git_ss::commands::clean::{clean_refspecs, deleted_message};
use git_ss::commands::upload::upload_plan;
use git_ss::commands::CommandError;
use git_ss::listing::{compare_snapshots, listed_snapshot, sort_listing, ListedSnapshot, ListingOrder};
use git_ss::metadata::{SnapshotMetadata, UploadKind};
use git_ss::time::Timestamp;

fn metadata(id: &str, secs: i64) -> SnapshotMetadata {
    SnapshotMetadata {
        id: id.to_string(),
        kind: UploadKind::Workdir,
        source: "HEAD".to_string(),
        source_commit: "0123456789abcdef".to_string(),
        created_at: Timestamp::new(secs, 0, 0).unwrap(),
        remote: "origin".to_string(),
        include_ignored: true,
        tool_version: "0.1.0".to_string(),
    }
}

fn listed(id: &str, secs: Option<i64>) -> ListedSnapshot {
    ListedSnapshot {
        id: id.to_string(),
        remote_ref: format!("refs/remotes/origin/gitss/{id}"),
        commit: "fedcba9876543210".to_string(),
        metadata: match secs {
            Some(s) => Ok(metadata(id, s)),
            None => Err("missing metadata field Git-SS-Id".to_string()),
        },
    }
}

#[test]
fn compact_durations() {
    assert_eq!(compact_duration(0), "0s");
    assert_eq!(compact_duration(59), "59s");
    assert_eq!(compact_duration(-7), "-7s");
    assert_eq!(compact_duration(60), "1m");
    assert_eq!(compact_duration(3_599), "59m");
    assert_eq!(compact_duration(3_600), "1h");
    assert_eq!(compact_duration(86_399), "23h");
    assert_eq!(compact_duration(86_400), "1d");
    assert_eq!(compact_duration(2_592_000), "1mo");
    assert_eq!(compact_duration(31_535_999), "12mo");
    assert_eq!(compact_duration(31_536_000), "1y");
    assert_eq!(compact_duration(i64::MAX), "292471208677y");
}

#[test]
fn ages_in_past_and_future() {
    assert_eq!(format_age_seconds(90), "1m ago");
    assert_eq!(format_age_seconds(0), "0s ago");
    assert_eq!(format_age_seconds(-7_200), "in 2h");
    assert_eq!(format_age_seconds(i64::MIN), "in 292471208677y");
    let created = Timestamp::new(1_000, 0, 0).unwrap();
    let now = Timestamp::new(1_000 + 3 * 86_400 + 5, 0, 3_600).unwrap();
    assert_eq!(format_age_at(&created, &now), "3d ago");
    assert_eq!(format_age_at(&now, &created), "in 3d");
}

#[test]
fn cells_and_labels() {
    assert_eq!(short_text("0123456789abcdef"), "0123456");
    assert_eq!(short_text("abc"), "abc");
    assert_eq!(clean_cell("  a\tb \n\n c  "), "a b c");
    assert_eq!(clean_cell(" \u{3000} "), "");
    assert_eq!(commit_label("0123456789", None), "0123456");
    assert_eq!(commit_label("0123456789", Some("   ")), "0123456");
    assert_eq!(commit_label("0123456789", Some(" fix:\n the  bug ")), "0123456 fix: the bug");
    assert_eq!(changes_summary(None), "unknown");
    let none = ChangeStats { files_changed: 0, insertions: 3, deletions: 1 };
    assert_eq!(changes_summary(Some(none)), "no changes");
    let one = ChangeStats { files_changed: 1, insertions: 3, deletions: 0 };
    assert_eq!(changes_summary(Some(one)), "1 file, +3 -0");
    let many = ChangeStats { files_changed: 12, insertions: 100, deletions: 7 };
    assert_eq!(changes_summary(Some(many)), "12 files, +100 -7");
    assert_eq!(upload_kind_name(&UploadKind::Ref), "ref");
    assert_eq!(human_header().len(), 9);
    assert_eq!(column_limits(), vec![(0, 24), (4, 24), (6, 40), (8, 32)]);
    let t = Timestamp::new(1_779_953_412, 0, 8 * 3600).unwrap();
    assert_eq!(format_created(t), "2026-05-28 15:30:12 +08:00");
}

#[test]
fn listed_snapshot_strips_prefix_and_keeps_errors() {
    let good = metadata("a", 10).to_commit_message();
    let s = listed_snapshot(
        "refs/remotes/origin/gitss/",
        "refs/remotes/origin/gitss/a",
        "c1".to_string(),
        Ok(good.as_str()),
    );
    assert_eq!(s.id, "a");
    assert_eq!(s.remote_ref, "refs/remotes/origin/gitss/a");
    assert!(s.metadata.is_ok());

    let s = listed_snapshot("refs/x/", "refs/y/b", "c2".to_string(), Ok("no metadata"));
    assert_eq!(s.id, "refs/y/b");
    assert_eq!(s.metadata.unwrap_err(), "missing metadata field Git-SS-Id");

    let s = listed_snapshot("refs/x/", "refs/x/c", "c3".to_string(), Err("bad utf-8".to_string()));
    assert_eq!(s.metadata.unwrap_err(), "bad utf-8");
}

#[test]
fn listing_orders() {
    let mut v = vec![listed("b", None), listed("c", Some(5)), listed("a", Some(9)), listed("d", None), listed("e", Some(5))];
    sort_listing(&mut v, ListingOrder::ById);
    let ids: Vec<&str> = v.iter().map(|s| s.id.as_str()).collect();
    assert_eq!(ids, vec!["a", "b", "c", "d", "e"]);
    sort_listing(&mut v, ListingOrder::NewestFirst);
    let ids: Vec<&str> = v.iter().map(|s| s.id.as_str()).collect();
    assert_eq!(ids, vec!["a", "e", "c", "d", "b"]);
    assert_eq!(compare_snapshots(&v[0], &v[1]), std::cmp::Ordering::Less);
    assert_eq!(compare_snapshots(&v[4], &v[3]), std::cmp::Ordering::Greater);
    assert_eq!(compare_snapshots(&v[2], &v[2]), std::cmp::Ordering::Equal);
}

#[test]
fn human_rows_and_output_records() {
    let now = Timestamp::new(70, 0, 0).unwrap();
    let row = human_row_at(&listed("a", Some(10)), &now, Some("base commit"), None);
    assert_eq!(
        row,
        vec![
            "a", "1970-01-01 00:00:10 +00:00", "1m ago", "workdir", "HEAD", "yes",
            "0123456 base commit", "fedcba9", "unknown"
        ]
    );
    let row = human_row_at(&listed("b", None), &now, None, None);
    assert_eq!(
        row,
        vec![
            "b", "WARN", "WARN", "WARN", "WARN", "WARN", "WARN", "fedcba9",
            "missing metadata field Git-SS-Id"
        ]
    );
    let stats = ChangeStats { files_changed: 2, insertions: 5, deletions: 1 };
    let out = output_snapshot(listed("a", Some(10)), Some(stats));
    assert_eq!(out.snapshot_type.as_deref(), Some("workdir"));
    assert_eq!(out.created_at.as_deref(), Some("1970-01-01T00:00:10+00:00"));
    assert_eq!(out.files_changed, Some(2));
    assert!(out.metadata_error.is_none());
    let live = human_row(&listed("c", Some(10)), None, None);
    assert_eq!(live.len(), 9);
    assert!(live[2].ends_with(" ago"));
    assert!(format_age(&Timestamp::new(10, 0, 0).unwrap()).ends_with("y ago"));
    let outs = output_snapshots(vec![listed("x", None)], vec![None]);
    assert_eq!(outs.len(), 1);
    assert_eq!(outs[0].metadata_error.as_deref(), Some("missing metadata field Git-SS-Id"));
    assert!(outs[0].source.is_none());
}

#[test]
fn upload_plans() {
    let args = UploadArgs {
        remote: "origin".to_string(),
        id: None,
        include_ignored: true,
        target: "HEAD".to_string(),
    };
    let err = upload_plan(&args).unwrap_err();
    assert!(matches!(err, CommandError::IncludeIgnoredRequiresWorkdir));
    assert_eq!(err.message(), "--include-ignored can only be used with upload workdir");

    let args = UploadArgs { target: "workdir".to_string(), ..args };
    assert_eq!(args.parsed_target(), UploadTarget::Workdir);
    let plan = upload_plan(&args).unwrap();
    assert_eq!(plan.kind, UploadKind::Workdir);
    assert_eq!(plan.source, "HEAD");
    assert_eq!(plan.id.len(), 15);
    assert_eq!(plan.id.as_bytes()[8], b'-');

    let args = UploadArgs {
        remote: "fork".to_string(),
        id: Some("mine".to_string()),
        include_ignored: false,
        target: "main".to_string(),
    };
    assert_eq!(args.parsed_target(), UploadTarget::Ref("main"));
    let plan = upload_plan(&args).unwrap();
    assert_eq!(plan.kind, UploadKind::Ref);
    assert_eq!((plan.id.as_str(), plan.source.as_str(), plan.remote.as_str()), ("mine", "main", "fork"));
}

#[test]
fn clean_deletes_only_snapshot_branches() {
    let names = vec![
        "refs/heads/main".to_string(),
        "refs/heads/gitss/a".to_string(),
        "refs/heads/gitssx".to_string(),
        "refs/heads/gitss/b.c".to_string(),
        "refs/tags/gitss/a".to_string(),
    ];
    assert_eq!(clean_refspecs(&names), vec![":refs/heads/gitss/a", ":refs/heads/gitss/b.c"]);
    assert!(clean_refspecs(&vec![]).is_empty());
    assert_eq!(deleted_message(0), "deleted 0 snapshot branches");
    assert_eq!(deleted_message(2), "deleted 2 snapshot branches");
}

#[test]
fn newest_first_keeps_order_of_equal_entries() {
    let mut first = listed("same", None);
    first.commit = "1111111".to_string();
    let mut second = listed("same", None);
    second.commit = "2222222".to_string();
    let mut v = vec![first, listed("zzz", Some(1)), second];
    sort_listing(&mut v, ListingOrder::NewestFirst);
    let commits: Vec<&str> = v.iter().map(|s| s.commit.as_str()).collect();
    assert_eq!(commits, vec!["fedcba9876543210", "1111111", "2222222"]);
}

#[test]
fn command_error_messages_pass_texts_through() {
    assert_eq!(CommandError::Io("disk full".to_string()).message(), "disk full");
    assert_eq!(CommandError::Csv("bad csv".to_string()).message(), "bad csv");
    assert_eq!(CommandError::Json("bad json".to_string()).message(), "bad json");
    let git = CommandError::Git(git_ss::git::GitSsError::DirtyWorktree);
    assert_eq!(git.message(), "working tree has local changes; use --force to overwrite them");
}

#[test]
fn include_ignored_is_rejected_for_ref_uploads() {
    let args = UploadArgs {
        remote: "origin".to_string(),
        id: None,
        include_ignored: true,
        target: "HEAD".to_string(),
    };
    let err = upload_plan(&args).unwrap_err();
    assert!(err
        .message()
        .contains("--include-ignored can only be used with upload workdir"));
}

#[test]
fn created_times_across_the_calendar() {
    let early = Timestamp::new(-30_636_365_033, 0, -19_800).unwrap();
    assert_eq!(format_created(early), "0999-03-04 05:06:07 -05:30");
    let leap = Timestamp::new(1_483_228_799, 1_500_000_000, 0).unwrap();
    assert_eq!(format_created(leap), "2016-12-31 23:59:60 +00:00");
    let far = Timestamp::new(253_402_300_800, 0, 0).unwrap();
    assert_eq!(format_created(far), "+10000-01-01 00:00:00 +00:00");
    let leap_day = Timestamp::new(-62_162_078_400 - 45, 0, 45).unwrap();
    assert_eq!(format_created(leap_day), "0000-02-29 12:00:00 +00:01");
}

#[test]
fn ages_truncate_toward_zero_and_count_leap_seconds() {
    let created = Timestamp::new(100, 500_000_000, 0).unwrap();
    let now = Timestamp::new(99, 0, 0).unwrap();
    assert_eq!(format_age_at(&created, &now), "in 1s");
    let in_leap = Timestamp::new(59, 1_000_000_000, 0).unwrap();
    let after = Timestamp::new(60, 0, 0).unwrap();
    assert_eq!(format_age_at(&in_leap, &after), "1s ago");
}
