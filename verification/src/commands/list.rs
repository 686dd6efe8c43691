//! What `git-ss list` shows: the cells of the human-readable table and the records of the
//! machine-readable formats.

use vstd::prelude::*;
use vstd::string::*;

use crate::listing::{ListedSnapshot, ListedSnapshotModel};
use crate::metadata::{kind_text, MetadataModel, UploadKind};
use crate::text::{
    decimal, first_chars, join_words, owned, push_decimal, push_signed_decimal, signed_decimal,
    take_chars, words_joined,
};
use crate::time::{
    now_local, ClockReading, rfc3339_text, created_text, seconds_between, strftime, to_rfc3339,
    whole_seconds_between, Timestamp,
};

verus! {

/// Seconds in a minute.
pub const MINUTE: i64 = 60;

/// Seconds in an hour.
pub const HOUR: i64 = 3_600;

/// Seconds in a day.
pub const DAY: i64 = 86_400;

/// Seconds in a 30-day month.
pub const MONTH: i64 = 2_592_000;

/// Seconds in a 365-day year.
pub const YEAR: i64 = 31_536_000;

/// Line-change counts of a snapshot commit against its parent.
#[derive(Clone, Copy, Debug)]
pub struct ChangeStats {
    /// Number of files changed.
    pub files_changed: usize,
    /// Number of lines inserted.
    pub insertions: usize,
    /// Number of lines deleted.
    pub deletions: usize,
}

/// The stable name of a kind of snapshot.
pub fn upload_kind_name(kind: &UploadKind) -> (r: &'static str)
    ensures
        r@ == kind_text(*kind),
{
    match kind {
        UploadKind::Workdir => "workdir",
        UploadKind::Ref => "ref",
    }
}

/// Formats a creation time as `YYYY-MM-DD HH:MM:SS +HH:MM` in its own offset.
pub fn format_created(created_at: Timestamp) -> (r: String)
    ensures
        r@ == created_text(created_at@),
{
    strftime(&created_at, "%Y-%m-%d %H:%M:%S %:z")
}

/// A duration in its largest whole unit: seconds, minutes, hours, days, 30-day months or
/// 365-day years.
pub open spec fn compact_duration_text(seconds: int) -> Seq<char> {
    if seconds < MINUTE {
        signed_decimal(seconds) + "s"@
    } else if seconds < HOUR {
        decimal((seconds / (MINUTE as int)) as nat) + "m"@
    } else if seconds < DAY {
        decimal((seconds / (HOUR as int)) as nat) + "h"@
    } else if seconds < MONTH {
        decimal((seconds / (DAY as int)) as nat) + "d"@
    } else if seconds < YEAR {
        decimal((seconds / (MONTH as int)) as nat) + "mo"@
    } else {
        decimal((seconds / (YEAR as int)) as nat) + "y"@
    }
}

/// Formats a duration given in seconds as `compact_duration_text` says.
pub fn compact_duration(seconds: i64) -> (r: String)
    ensures
        r@ == compact_duration_text(seconds as int),
{
    let mut r = String::new();
    if seconds < MINUTE {
        push_signed_decimal(&mut r, seconds);
        r.append("s");
    } else if seconds < HOUR {
        push_decimal(&mut r, (seconds / MINUTE) as u64);
        r.append("m");
    } else if seconds < DAY {
        push_decimal(&mut r, (seconds / HOUR) as u64);
        r.append("h");
    } else if seconds < MONTH {
        push_decimal(&mut r, (seconds / DAY) as u64);
        r.append("d");
    } else if seconds < YEAR {
        push_decimal(&mut r, (seconds / MONTH) as u64);
        r.append("mo");
    } else {
        push_decimal(&mut r, (seconds / YEAR) as u64);
        r.append("y");
    }
    assert(r@ =~= compact_duration_text(seconds as int));
    r
}

/// The magnitude of an age in seconds, with `i64::MIN` taken as `i64::MAX`.
pub open spec fn age_magnitude(seconds: int) -> int {
    if seconds == i64::MIN {
        i64::MAX as int
    } else if seconds < 0 {
        -seconds
    } else {
        seconds
    }
}

/// How an age is shown: `<duration> ago` for the past, `in <duration>` for the future.
pub open spec fn age_text(seconds: int) -> Seq<char> {
    if seconds >= 0 {
        compact_duration_text(age_magnitude(seconds)) + " ago"@
    } else {
        "in "@ + compact_duration_text(age_magnitude(seconds))
    }
}

/// Formats the age of something `seconds` old.
pub fn format_age_seconds(seconds: i64) -> (r: String)
    ensures
        r@ == age_text(seconds as int),
{
    let magnitude = if seconds == i64::MIN {
        i64::MAX
    } else if seconds < 0 {
        -seconds
    } else {
        seconds
    };
    let duration = compact_duration(magnitude);
    if seconds >= 0 {
        let mut r = duration;
        r.append(" ago");
        r
    } else {
        let mut r = owned("in ");
        r.append(duration.as_str());
        r
    }
}

/// Formats the age at `now` of something created at `created_at`.
pub fn format_age_at(created_at: &Timestamp, now: &Timestamp) -> (r: String)
    ensures
        r@ == age_text(whole_seconds_between(now@, created_at@)),
{
    let seconds = seconds_between(now, created_at);
    format_age_seconds(seconds)
}

/// Formats the age, at the current local time as the clock reads it during the call, of
/// something created at `created_at`.
pub fn format_age(created_at: &Timestamp) -> (r: String)
    ensures
        exists|now: ClockReading|
            r@ == age_text(whole_seconds_between(#[trigger] now.reading(), created_at@)),
{
    let now = now_local().time();
    format_age_at(created_at, &now)
}

/// The first seven characters of a text, as commit ids are shortened.
pub fn short_text(value: &str) -> (r: String)
    ensures
        r@ == first_chars(value@, 7),
{
    take_chars(value, 7)
}

/// Squeezes each run of whitespace of a text into one space and trims its ends.
pub fn clean_cell(value: &str) -> (r: String)
    ensures
        r@ == words_joined(value@),
{
    join_words(value)
}

/// The label of a base commit: its short id, followed by its cleaned summary where it has a
/// non-blank one.
pub open spec fn commit_label_text(oid_text: Seq<char>, summary: Option<Seq<char>>) -> Seq<char> {
    match summary {
        Some(s) => if words_joined(s).len() == 0 {
            first_chars(oid_text, 7)
        } else {
            first_chars(oid_text, 7) + " "@ + words_joined(s)
        },
        None => first_chars(oid_text, 7),
    }
}

/// Labels the base commit `oid_text`, whose summary is `summary` where the commit could be
/// read and has one.
pub fn commit_label(oid_text: &str, summary: Option<&str>) -> (r: String)
    ensures
        r@ == commit_label_text(
            oid_text@,
            match summary {
                Some(s) => Some(s@),
                None => None,
            },
        ),
{
    let short = short_text(oid_text);
    match summary {
        None => short,
        Some(s) => {
            let cleaned = clean_cell(s);
            if cleaned.as_str().unicode_len() == 0 {
                short
            } else {
                let mut r = short;
                r.append(" ");
                r.append(cleaned.as_str());
                r
            }
        },
    }
}

/// The summary of the changes of a snapshot commit.
pub open spec fn changes_text(stats: Option<ChangeStats>) -> Seq<char> {
    match stats {
        None => "unknown"@,
        Some(s) => if s.files_changed == 0 {
            "no changes"@
        } else {
            decimal(s.files_changed as nat) + (if s.files_changed == 1 {
                " file, +"@
            } else {
                " files, +"@
            }) + decimal(s.insertions as nat) + " -"@ + decimal(s.deletions as nat)
        },
    }
}

/// Summarizes the changes of a snapshot commit, or says they are unknown.
pub fn changes_summary(stats: Option<ChangeStats>) -> (r: String)
    ensures
        r@ == changes_text(stats),
{
    match stats {
        None => owned("unknown"),
        Some(s) => {
            if s.files_changed == 0 {
                return owned("no changes");
            }
            let mut r = String::new();
            push_decimal(&mut r, s.files_changed as u64);
            if s.files_changed == 1 {
                r.append(" file, +");
            } else {
                r.append(" files, +");
            }
            push_decimal(&mut r, s.insertions as u64);
            r.append(" -");
            push_decimal(&mut r, s.deletions as u64);
            assert(r@ =~= changes_text(stats));
            r
        },
    }
}

/// The column headers of the table.
pub open spec fn human_header_text() -> Seq<Seq<char>> {
    seq![
        "ID"@,
        "CREATED"@,
        "AGE"@,
        "TYPE"@,
        "SOURCE"@,
        "IGNORED"@,
        "BASE"@,
        "SNAPSHOT"@,
        "CHANGES"@,
    ]
}

/// The column headers of the table.
pub fn human_header() -> (r: Vec<&'static str>)
    ensures
        r@.len() == 9,
        forall|i: int| 0 <= i < 9 ==> #[trigger] r@[i]@ == human_header_text()[i],
{
    let r = vec!["ID", "CREATED", "AGE", "TYPE", "SOURCE", "IGNORED", "BASE", "SNAPSHOT", "CHANGES"];
    r
}

/// The widest that the id, source, base and changes columns may grow.
pub open spec fn column_limits_spec() -> Seq<(usize, u16)> {
    seq![(0usize, 24u16), (4usize, 24u16), (6usize, 40u16), (8usize, 32u16)]
}

/// The widest that the id, source, base and changes columns may grow, by column index.
pub fn column_limits() -> (r: Vec<(usize, u16)>)
    ensures
        r@ == column_limits_spec(),
{
    let r = vec![(0usize, 24u16), (4usize, 24u16), (6usize, 40u16), (8usize, 32u16)];
    assert(r@ =~= column_limits_spec());
    r
}

/// The type and ignored cells of a snapshot with metadata.
pub open spec fn kind_cells(m: MetadataModel) -> (Seq<char>, Seq<char>) {
    match m.kind {
        UploadKind::Workdir => (
            "workdir"@,
            if m.include_ignored {
                "yes"@
            } else {
                "no"@
            },
        ),
        UploadKind::Ref => ("ref"@, "-"@),
    }
}

/// The cells of a table row at time `now`, given the summary of the base commit and the
/// change counts of the snapshot commit. A snapshot without metadata shows `WARN` in the
/// metadata columns and the cleaned error in the changes column.
pub open spec fn human_row_text(
    s: ListedSnapshotModel,
    now: (i64, u32, i32),
    base_summary: Option<Seq<char>>,
    stats: Option<ChangeStats>,
) -> Seq<Seq<char>> {
    match s.metadata {
        Ok(m) => seq![
            s.id,
            created_text(m.created_at),
            age_text(whole_seconds_between(now, m.created_at)),
            kind_cells(m).0,
            m.source,
            kind_cells(m).1,
            commit_label_text(m.source_commit, base_summary),
            first_chars(s.commit, 7),
            changes_text(stats),
        ],
        Err(e) => seq![
            s.id,
            "WARN"@,
            "WARN"@,
            "WARN"@,
            "WARN"@,
            "WARN"@,
            "WARN"@,
            first_chars(s.commit, 7),
            words_joined(e),
        ],
    }
}

/// The views of the cells of a row.
pub open spec fn cell_views(r: Seq<String>) -> Seq<Seq<char>> {
    r.map_values(|c: String| c@)
}

/// The cells of the table row of a snapshot at the current local time, as the clock reads it
/// during the call.
pub fn human_row(snapshot: &ListedSnapshot, base_summary: Option<&str>, stats: Option<ChangeStats>) -> (r:
    Vec<String>)
    ensures
        exists|now: ClockReading|
            cell_views(r@) == human_row_text(
                snapshot@,
                #[trigger] now.reading(),
                match base_summary {
                    Some(b) => Some(b@),
                    None => None,
                },
                stats,
            ),
{
    let now = now_local().time();
    human_row_at(snapshot, &now, base_summary, stats)
}

/// The cells of the table row of a snapshot at time `now`.
pub fn human_row_at(
    snapshot: &ListedSnapshot,
    now: &Timestamp,
    base_summary: Option<&str>,
    stats: Option<ChangeStats>,
) -> (r: Vec<String>)
    ensures
        cell_views(r@) == human_row_text(
            snapshot@,
            now@,
            match base_summary {
                Some(b) => Some(b@),
                None => None,
            },
            stats,
        ),
{
    let mut row: Vec<String> = Vec::new();
    row.push(snapshot.id.clone());
    match &snapshot.metadata {
        Ok(m) => {
            row.push(format_created(m.created_at));
            row.push(format_age_at(&m.created_at, now));
            let (kind, ignored) = match m.kind {
                UploadKind::Workdir => (
                    "workdir",
                    if m.include_ignored {
                        "yes"
                    } else {
                        "no"
                    },
                ),
                UploadKind::Ref => ("ref", "-"),
            };
            row.push(owned(kind));
            row.push(m.source.clone());
            row.push(owned(ignored));
            row.push(commit_label(m.source_commit.as_str(), base_summary));
            row.push(short_text(snapshot.commit.as_str()));
            row.push(changes_summary(stats));
        },
        Err(err) => {
            row.push(owned("WARN"));
            row.push(owned("WARN"));
            row.push(owned("WARN"));
            row.push(owned("WARN"));
            row.push(owned("WARN"));
            row.push(owned("WARN"));
            row.push(short_text(snapshot.commit.as_str()));
            row.push(clean_cell(err.as_str()));
        },
    }
    assert(cell_views(row@) =~= human_row_text(
        snapshot@,
        now@,
        match base_summary {
            Some(b) => Some(b@),
            None => None,
        },
        stats,
    ));
    row
}

/// The TYPE and IGNORED cells of a snapshot with metadata name its kind and say whether
/// ignored files were included: `yes` exactly when they were and `no` exactly when they were
/// not for a working-directory snapshot, `-` for a ref snapshot.
pub proof fn lemma_kind_and_ignored_cells(
    s: ListedSnapshotModel,
    now: (i64, u32, i32),
    base_summary: Option<Seq<char>>,
    stats: Option<ChangeStats>,
)
    requires
        s.metadata is Ok,
    ensures
        ({
            let m = s.metadata->Ok_0;
            let row = human_row_text(s, now, base_summary, stats);
            &&& human_header_text()[3] == "TYPE"@
            &&& human_header_text()[5] == "IGNORED"@
            &&& m.kind == UploadKind::Workdir ==> {
                &&& row[3] == "workdir"@
                &&& (row[5] == "yes"@ <==> m.include_ignored)
                &&& (row[5] == "no"@ <==> !m.include_ignored)
            }
            &&& m.kind == UploadKind::Ref ==> row[3] == "ref"@ && row[5] == "-"@
        }),
{
    let m = s.metadata->Ok_0;
    let row = human_row_text(s, now, base_summary, stats);
    assert(row[3] == kind_cells(m).0);
    assert(row[5] == kind_cells(m).1);
    assert("yes"@ != "no"@) by {
        reveal_strlit("yes");
        reveal_strlit("no");
        assert("yes"@[0] != "no"@[0]);
    }
}

/// Whole seconds between two instants with the same fraction of a second, outside leap
/// seconds, are the difference of their seconds.
proof fn lemma_whole_seconds_of_aligned(later: (i64, u32, i32), earlier: (i64, u32, i32))
    requires
        later.1 == earlier.1,
        later.1 < 1_000_000_000,
    ensures
        whole_seconds_between(later, earlier) == later.0 - earlier.0,
{
    let d: int = later.0 - earlier.0;
    if d >= 0 {
        assert((d * 1_000_000_000) / 1_000_000_000 == d) by (nonlinear_arith);
    } else {
        assert(((-d) * 1_000_000_000) / 1_000_000_000 == -d) by (nonlinear_arith)
            requires
                d < 0,
        ;
        assert(-(d * 1_000_000_000) == (-d) * 1_000_000_000) by (nonlinear_arith);
    }
}

/// The AGE cell of a snapshot with metadata counts the seconds from its creation to `now`:
/// created `k` whole seconds before `now` (outside a leap second), it shows `age_text(k)`,
/// `k` seconds ago, or in `-k` seconds where `k` is negative.
pub proof fn lemma_age_cell_counts_elapsed(
    s: ListedSnapshotModel,
    now: (i64, u32, i32),
    base_summary: Option<Seq<char>>,
    stats: Option<ChangeStats>,
)
    requires
        s.metadata is Ok,
        now.1 == s.metadata->Ok_0.created_at.1,
        now.1 < 1_000_000_000,
    ensures
        human_header_text()[2] == "AGE"@,
        human_row_text(s, now, base_summary, stats)[2] == age_text(
            now.0 - s.metadata->Ok_0.created_at.0,
        ),
{
    lemma_whole_seconds_of_aligned(now, s.metadata->Ok_0.created_at);
}

/// A record of the machine-readable listing.
#[derive(Debug)]
pub struct OutputSnapshot {
    pub id: String,
    pub remote_ref: String,
    pub commit: String,
    pub metadata_id: Option<String>,
    /// The kind of snapshot, written under the name `type`.
    pub snapshot_type: Option<String>,
    pub source: Option<String>,
    pub source_commit: Option<String>,
    pub created_at: Option<String>,
    pub remote: Option<String>,
    pub include_ignored: Option<bool>,
    pub tool_version: Option<String>,
    pub metadata_error: Option<String>,
    pub files_changed: Option<usize>,
    pub insertions: Option<usize>,
    pub deletions: Option<usize>,
}

/// The model of an optional string.
pub open spec fn opt_view(o: Option<String>) -> Option<Seq<char>> {
    match o {
        Some(s) => Some(s@),
        None => None,
    }
}

/// Whether `o` is the machine-readable record of `s` with change counts `stats`.
pub open spec fn output_record(s: ListedSnapshotModel, stats: Option<ChangeStats>, o: OutputSnapshot) -> bool {
    &&& o.id@ == s.id
    &&& o.remote_ref@ == s.remote_ref
    &&& o.commit@ == s.commit
    &&& o.files_changed == (match stats {
        Some(c) => Some(c.files_changed),
        None => None::<usize>,
    })
    &&& o.insertions == (match stats {
        Some(c) => Some(c.insertions),
        None => None::<usize>,
    })
    &&& o.deletions == (match stats {
        Some(c) => Some(c.deletions),
        None => None::<usize>,
    })
    &&& match s.metadata {
        Ok(m) => {
            &&& opt_view(o.metadata_id) == Some(m.id)
            &&& opt_view(o.snapshot_type) == Some(kind_text(m.kind))
            &&& opt_view(o.source) == Some(m.source)
            &&& opt_view(o.source_commit) == Some(m.source_commit)
            &&& opt_view(o.created_at) == Some(
                rfc3339_text(m.created_at.0, m.created_at.1, m.created_at.2),
            )
            &&& opt_view(o.remote) == Some(m.remote)
            &&& o.include_ignored == Some(m.include_ignored)
            &&& opt_view(o.tool_version) == Some(m.tool_version)
            &&& o.metadata_error is None
        },
        Err(e) => {
            &&& o.metadata_id is None
            &&& o.snapshot_type is None
            &&& o.source is None
            &&& o.source_commit is None
            &&& o.created_at is None
            &&& o.remote is None
            &&& o.include_ignored is None
            &&& o.tool_version is None
            &&& opt_view(o.metadata_error) == Some(e)
        },
    }
}

/// The machine-readable record of a snapshot with change counts `stats`.
pub fn output_snapshot(snapshot: ListedSnapshot, stats: Option<ChangeStats>) -> (r: OutputSnapshot)
    ensures
        output_record(snapshot@, stats, r),
{
    let files_changed = match stats {
        Some(c) => Some(c.files_changed),
        None => None,
    };
    let insertions = match stats {
        Some(c) => Some(c.insertions),
        None => None,
    };
    let deletions = match stats {
        Some(c) => Some(c.deletions),
        None => None,
    };
    match snapshot.metadata {
        Ok(metadata) => {
            let snapshot_type = owned(upload_kind_name(&metadata.kind));
            let created_at = to_rfc3339(&metadata.created_at);
            OutputSnapshot {
                id: snapshot.id,
                remote_ref: snapshot.remote_ref,
                commit: snapshot.commit,
                metadata_id: Some(metadata.id),
                snapshot_type: Some(snapshot_type),
                source: Some(metadata.source),
                source_commit: Some(metadata.source_commit),
                created_at: Some(created_at),
                remote: Some(metadata.remote),
                include_ignored: Some(metadata.include_ignored),
                tool_version: Some(metadata.tool_version),
                metadata_error: None,
                files_changed,
                insertions,
                deletions,
            }
        },
        Err(err) => OutputSnapshot {
            id: snapshot.id,
            remote_ref: snapshot.remote_ref,
            commit: snapshot.commit,
            metadata_id: None,
            snapshot_type: None,
            source: None,
            source_commit: None,
            created_at: None,
            remote: None,
            include_ignored: None,
            tool_version: None,
            metadata_error: Some(err),
            files_changed,
            insertions,
            deletions,
        },
    }
}

/// The machine-readable records of snapshots, in order, each with its change counts.
pub fn output_snapshots(snapshots: Vec<ListedSnapshot>, stats: Vec<Option<ChangeStats>>) -> (r: Vec<
    OutputSnapshot,
>)
    requires
        snapshots@.len() == stats@.len(),
    ensures
        r@.len() == snapshots@.len(),
        forall|i: int| 0 <= i < r@.len() ==> output_record(snapshots@[i]@, stats@[i], #[trigger] r@[i]),
{
    let ghost input = snapshots@;
    let n = snapshots.len();
    let mut rest = snapshots;
    let mut out: Vec<OutputSnapshot> = Vec::new();
    let mut i: usize = 0;
    while i < n
        invariant
            n == input.len(),
            n == stats@.len(),
            i <= n,
            out@.len() == i,
            rest@ == input.skip(i as int),
            forall|k: int| 0 <= k < i ==> output_record(input[k]@, stats@[k], #[trigger] out@[k]),
        decreases n - i,
    {
        let s = rest.remove(0);
        assert(s == input[i as int]);
        out.push(output_snapshot(s, stats[i]));
        assert(rest@ =~= input.skip(i + 1));
        i += 1;
    }
    out
}

} // verus!
