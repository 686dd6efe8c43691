use chrono::{FixedOffset, TimeZone};
use git_ss::metadata::{
    format_default_id, parse_metadata, validate_id, MetadataError, SnapshotMetadata, UploadKind,
};
use git_ss::time::Timestamp;

fn timestamp_of(dt: chrono::DateTime<FixedOffset>) -> Timestamp {
    Timestamp::new(
        dt.timestamp(),
        dt.timestamp_subsec_nanos(),
        dt.offset().local_minus_utc(),
    )
    .expect("valid timestamp")
}

fn sample_time() -> Timestamp {
    let offset = FixedOffset::east_opt(8 * 3600).unwrap();
    timestamp_of(offset.with_ymd_and_hms(2026, 5, 28, 15, 30, 12).unwrap())
}

fn sample_metadata() -> SnapshotMetadata {
    SnapshotMetadata {
        id: "20260528-153012".to_string(),
        kind: UploadKind::Workdir,
        source: "HEAD".to_string(),
        source_commit: "0123456789abcdef0123456789abcdef01234567".to_string(),
        created_at: sample_time(),
        remote: "origin".to_string(),
        include_ignored: false,
        tool_version: "0.1.0".to_string(),
    }
}

#[test]
fn formats_default_id_as_local_date_time() {
    let offset = FixedOffset::east_opt(8 * 3600).unwrap();
    let now = timestamp_of(offset.with_ymd_and_hms(2026, 5, 28, 15, 30, 12).unwrap());
    assert_eq!(format_default_id(now), "20260528-153012");
}

#[test]
fn validates_safe_ids() {
    assert!(validate_id("20260528-153012").is_ok());
    assert!(validate_id("my_test.1").is_ok());
    assert!(validate_id("has/slash").is_err());
    assert!(validate_id("has space").is_err());
    assert!(validate_id("").is_err());
}

#[test]
fn renders_and_parses_workdir_metadata() {
    let metadata = sample_metadata();

    let message = metadata.to_commit_message();
    assert!(message.contains("git-ss snapshot"));
    assert!(message.contains("Git-SS-Id: 20260528-153012"));
    assert!(message.contains("Git-SS-Type: workdir"));

    let parsed = parse_metadata(&message).expect("metadata parses");
    assert_eq!(parsed.id, metadata.id);
    assert_eq!(parsed.kind, metadata.kind);
    assert_eq!(parsed.source, metadata.source);
    assert_eq!(parsed.include_ignored, metadata.include_ignored);
}

#[test]
fn validate_id_reports_first_invalid_character() {
    assert!(matches!(validate_id(""), Err(MetadataError::EmptyId)));
    assert!(matches!(validate_id("a/b c"), Err(MetadataError::InvalidIdChar('/'))));
    assert!(matches!(validate_id("ok id"), Err(MetadataError::InvalidIdChar(' '))));
    assert!(validate_id("A-Z_a-z.0-9").is_ok());
}

#[test]
fn commit_message_has_every_field_on_its_own_line() {
    let message = sample_metadata().to_commit_message();
    assert_eq!(
        message,
        "git-ss snapshot\n\nGit-SS-Id: 20260528-153012\nGit-SS-Type: workdir\nGit-SS-Source: HEAD\nGit-SS-Source-Commit: 0123456789abcdef0123456789abcdef01234567\nGit-SS-Created-At: 2026-05-28T15:30:12+08:00\nGit-SS-Remote: origin\nGit-SS-Include-Ignored: false\nGit-SS-Tool-Version: 0.1.0\n"
    );
}

#[test]
fn ref_metadata_round_trips_through_the_message() {
    let offset = FixedOffset::west_opt(5 * 3600 + 30 * 60).unwrap();
    let created =
        timestamp_of(offset.with_ymd_and_hms(1999, 12, 31, 23, 59, 58).unwrap());
    let metadata = SnapshotMetadata {
        id: "release.check_1".to_string(),
        kind: UploadKind::Ref,
        source: "origin/main~2".to_string(),
        source_commit: "fedcba9876543210fedcba9876543210fedcba98".to_string(),
        created_at: created,
        remote: "fork".to_string(),
        include_ignored: true,
        tool_version: "9.9.9-beta".to_string(),
    };
    let parsed = parse_metadata(&metadata.to_commit_message()).expect("parses");
    assert_eq!(parsed.id, metadata.id);
    assert_eq!(parsed.kind, UploadKind::Ref);
    assert_eq!(parsed.source, metadata.source);
    assert_eq!(parsed.source_commit, metadata.source_commit);
    assert_eq!(parsed.created_at, created);
    assert_eq!(parsed.remote, metadata.remote);
    assert!(parsed.include_ignored);
    assert_eq!(parsed.tool_version, metadata.tool_version);
}

#[test]
fn parse_metadata_reports_each_error() {
    let good = sample_metadata().to_commit_message();

    let missing = good.replace("Git-SS-Remote: origin\n", "");
    assert!(matches!(
        parse_metadata(&missing),
        Err(MetadataError::MissingField("Git-SS-Remote"))
    ));

    let bad_type = good.replace("Git-SS-Type: workdir", "Git-SS-Type: tarball");
    match parse_metadata(&bad_type) {
        Err(MetadataError::InvalidField { field, value }) => {
            assert_eq!(field, "Git-SS-Type");
            assert_eq!(value, "tarball");
        }
        other => panic!("unexpected {other:?}"),
    }

    let bad_time = good.replace("2026-05-28T15:30:12+08:00", "yesterday");
    assert!(matches!(
        parse_metadata(&bad_time),
        Err(MetadataError::InvalidField { field: "Git-SS-Created-At", .. })
    ));

    let bad_flag = good.replace("Git-SS-Include-Ignored: false", "Git-SS-Include-Ignored: no");
    assert!(matches!(
        parse_metadata(&bad_flag),
        Err(MetadataError::InvalidField { field: "Git-SS-Include-Ignored", .. })
    ));

    let bad_id = good.replace("Git-SS-Id: 20260528-153012", "Git-SS-Id: a/b");
    assert!(matches!(parse_metadata(&bad_id), Err(MetadataError::InvalidIdChar('/'))));

    assert!(matches!(parse_metadata(""), Err(MetadataError::MissingField("Git-SS-Id"))));
}

#[test]
fn parse_metadata_reads_first_matching_line_and_trims_leading_space() {
    let message = "Git-SS-Id:   first\r\nGit-SS-Id: second\nGit-SS-Type:ref\nGit-SS-Created-At: 2026-05-28T07:30:12Z\nGit-SS-Include-Ignored: true\nGit-SS-Source: \nGit-SS-Source-Commit: abc\nGit-SS-Remote: up\nGit-SS-Tool-Version: 1";
    let parsed = parse_metadata(message).expect("parses");
    assert_eq!(parsed.id, "first");
    assert_eq!(parsed.kind, UploadKind::Ref);
    assert_eq!(parsed.source, "");
    assert_eq!(parsed.tool_version, "1");
    assert!(parsed.include_ignored);
    assert_eq!(parsed.created_at.secs(), sample_time().secs());
    assert_eq!(parsed.created_at.offset(), 0);
}

#[test]
fn metadata_error_messages() {
    assert_eq!(MetadataError::EmptyId.message(), "snapshot id cannot be empty");
    assert_eq!(
        MetadataError::InvalidIdChar('/').message(),
        "snapshot id contains invalid character '/'"
    );
    assert_eq!(
        MetadataError::MissingField("Git-SS-Id").message(),
        "missing metadata field Git-SS-Id"
    );
    assert_eq!(
        MetadataError::InvalidField { field: "Git-SS-Type", value: "x".to_string() }.message(),
        "invalid metadata field Git-SS-Type: x"
    );
}

#[test]
fn timestamp_new_checks_its_parts() {
    assert!(Timestamp::new(0, 0, 0).is_some());
    assert!(Timestamp::new(0, 0, 86_400).is_none());
    assert!(Timestamp::new(0, 1_000_000_000, 0).is_none());
    assert!(Timestamp::new(59, 1_500_000_000, 0).is_some());
    assert!(Timestamp::new(-1, 1_500_000_000, 0).is_some());
    assert!(Timestamp::new(9_000_000_000_000, 0, 0).is_none());
    let t = Timestamp::new(12, 34, -56).unwrap();
    assert_eq!((t.secs(), t.nanos(), t.offset()), (12, 34, -56));
}

#[test]
fn default_ids_across_the_calendar() {
    let early = Timestamp::new(-30_636_365_033, 0, -19_800).unwrap();
    assert_eq!(format_default_id(early), "09990304-050607");
    let leap = Timestamp::new(1_483_228_799, 1_500_000_000, 0).unwrap();
    assert_eq!(format_default_id(leap), "20161231-235960");
    let far = Timestamp::new(253_402_300_800, 0, 0).unwrap();
    assert_eq!(format_default_id(far), "+100000101-000000");
    let before_zero = Timestamp::new(-62_198_755_200, 0, 0).unwrap();
    assert_eq!(format_default_id(before_zero), "-00010101-000000");
    assert!(validate_id(&format_default_id(early)).is_ok());
}
