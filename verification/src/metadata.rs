//! The snapshot metadata that every snapshot commit message carries.

use vstd::prelude::*;
use vstd::string::*;

use crate::text::{
    chars_of, digit_char, find_prefixed_value, is_space, join_lines, lemma_differs_at, lemma_join_push, lemma_lines_of_joined,
    lemma_prefixed_value_at, lemma_trim_start, lines, prefixed_value, starts_with, str_eq,
    strip_cr, trim_start, whole_line,
};
use crate::time::{
    parse_rfc3339, rfc3339_char, rfc3339_parsed, rfc3339_round_trips, rfc3339_text, strftime,
    civil_date, default_id_text, local_secs, to_rfc3339, two_digits, Timestamp,
};

verus! {

/// Type of source captured by a snapshot commit.
#[derive(Clone, Copy, Debug, PartialEq, Eq, Structural)]
pub enum UploadKind {
    /// Snapshot created from the working directory and index.
    Workdir,
    /// Snapshot created from an existing ref or revision expression.
    Ref,
}

/// The metadata value written for a kind of snapshot.
pub open spec fn kind_text(kind: UploadKind) -> Seq<char> {
    match kind {
        UploadKind::Workdir => "workdir"@,
        UploadKind::Ref => "ref"@,
    }
}

impl UploadKind {
    /// Returns the stable metadata value written into snapshot commit messages.
    fn as_str(&self) -> (r: &'static str)
        ensures
            r@ == kind_text(*self),
    {
        match self {
            UploadKind::Workdir => "workdir",
            UploadKind::Ref => "ref",
        }
    }
}

/// Structured metadata embedded in every valid snapshot commit message.
#[derive(Clone, Debug)]
pub struct SnapshotMetadata {
    /// User-facing snapshot id, also used as the remote branch suffix.
    pub id: String,
    /// Kind of snapshot that was uploaded.
    pub kind: UploadKind,
    /// Upload source as given, such as `HEAD` or `main`.
    pub source: String,
    /// Commit id that was current or resolved when the snapshot was created.
    pub source_commit: String,
    /// Local timestamp when the snapshot commit was created.
    pub created_at: Timestamp,
    /// Remote name selected for the upload.
    pub remote: String,
    /// Whether ignored files were included in a working-directory snapshot.
    pub include_ignored: bool,
    /// Package version of the tool that created the snapshot.
    pub tool_version: String,
}

/// The mathematical content of a `SnapshotMetadata`.
pub struct MetadataModel {
    pub id: Seq<char>,
    pub kind: UploadKind,
    pub source: Seq<char>,
    pub source_commit: Seq<char>,
    pub created_at: (i64, u32, i32),
    pub remote: Seq<char>,
    pub include_ignored: bool,
    pub tool_version: Seq<char>,
}

impl View for SnapshotMetadata {
    type V = MetadataModel;

    open spec fn view(&self) -> MetadataModel {
        MetadataModel {
            id: self.id@,
            kind: self.kind,
            source: self.source@,
            source_commit: self.source_commit@,
            created_at: self.created_at@,
            remote: self.remote@,
            include_ignored: self.include_ignored,
            tool_version: self.tool_version@,
        }
    }
}

/// Errors returned while validating ids or parsing snapshot metadata.
#[derive(Clone, Debug)]
pub enum MetadataError {
    /// Snapshot ids must contain at least one character.
    EmptyId,
    /// Snapshot ids are limited to ASCII alphanumeric characters plus `.`, `_`, and `-`.
    InvalidIdChar(char),
    /// A required `Git-SS-*` metadata field is absent.
    MissingField(&'static str),
    /// A metadata field is present but cannot be interpreted.
    InvalidField {
        /// Metadata field name that failed parsing.
        field: &'static str,
        /// Raw metadata field value that failed parsing.
        value: String,
    },
}

/// The mathematical content of a `MetadataError`.
pub enum MetadataErrorModel {
    EmptyId,
    InvalidIdChar(char),
    MissingField(Seq<char>),
    InvalidField(Seq<char>, Seq<char>),
}

impl View for MetadataError {
    type V = MetadataErrorModel;

    open spec fn view(&self) -> MetadataErrorModel {
        match self {
            MetadataError::EmptyId => MetadataErrorModel::EmptyId,
            MetadataError::InvalidIdChar(c) => MetadataErrorModel::InvalidIdChar(*c),
            MetadataError::MissingField(f) => MetadataErrorModel::MissingField(f@),
            MetadataError::InvalidField { field, value } => MetadataErrorModel::InvalidField(
                field@,
                value@,
            ),
        }
    }
}

/// Characters allowed in a snapshot id.
pub open spec fn is_id_char(c: char) -> bool {
    ||| ('a' <= c && c <= 'z')
    ||| ('A' <= c && c <= 'Z')
    ||| ('0' <= c && c <= '9')
    ||| c == '.'
    ||| c == '_'
    ||| c == '-'
}

/// Ids that are safe to use as a branch suffix.
pub open spec fn valid_id(id: Seq<char>) -> bool {
    id.len() > 0 && forall|i: int| 0 <= i < id.len() ==> is_id_char(#[trigger] id[i])
}

/// The first character of `id` that an id may not hold.
pub open spec fn first_invalid_char(id: Seq<char>) -> Option<char>
    decreases id.len(),
{
    if id.len() == 0 {
        None
    } else if !is_id_char(id[0]) {
        Some(id[0])
    } else {
        first_invalid_char(id.drop_first())
    }
}

/// What validating an id reports: nothing for a valid id, else the error.
pub open spec fn id_error(id: Seq<char>) -> Option<MetadataErrorModel> {
    if id.len() == 0 {
        Some(MetadataErrorModel::EmptyId)
    } else {
        match first_invalid_char(id) {
            Some(c) => Some(MetadataErrorModel::InvalidIdChar(c)),
            None => None,
        }
    }
}

proof fn lemma_first_invalid_char(id: Seq<char>, k: int)
    requires
        0 <= k <= id.len(),
        forall|j: int| 0 <= j < k ==> is_id_char(#[trigger] id[j]),
    ensures
        first_invalid_char(id) == first_invalid_char(id.skip(k)),
    decreases k,
{
    if k == 0 {
        assert(id.skip(0) =~= id);
    } else {
        let t = id.drop_first();
        assert forall|j: int| 0 <= j < k - 1 implies is_id_char(#[trigger] t[j]) by {
            assert(t[j] == id[j + 1]);
        }
        lemma_first_invalid_char(t, k - 1);
        assert(t.skip(k - 1) =~= id.skip(k));
    }
}

/// An id is valid exactly when validating it reports no error.
pub proof fn lemma_id_error_iff_invalid(id: Seq<char>)
    ensures
        id_error(id) is None <==> valid_id(id),
{
    if id.len() > 0 {
        if valid_id(id) {
            lemma_first_invalid_char(id, id.len() as int);
            assert(id.skip(id.len() as int) =~= Seq::<char>::empty());
        } else {
            let k = choose|k: int| 0 <= k < id.len() && !is_id_char(#[trigger] id[k]);
            lemma_first_invalid_prefix(id, k);
        }
    }
}

proof fn lemma_first_invalid_prefix(id: Seq<char>, k: int)
    requires
        0 <= k < id.len(),
        !is_id_char(id[k]),
    ensures
        first_invalid_char(id) is Some,
    decreases k,
{
    if is_id_char(id[0]) {
        let t = id.drop_first();
        assert(t[k - 1] == id[k]);
        lemma_first_invalid_prefix(t, k - 1);
    }
}

/// Formats the default snapshot id for a timestamp, as `YYYYMMDD-HHMMSS` in its local time.
pub fn format_default_id(now: Timestamp) -> (r: String)
    ensures
        r@ == default_id_text(now@),
{
    strftime(&now, "%Y%m%d-%H%M%S")
}

/// Two decimal digits are id characters.
proof fn lemma_two_digits_id_chars(v: int)
    ensures
        two_digits(v).len() == 2,
        is_id_char(two_digits(v)[0]),
        is_id_char(two_digits(v)[1]),
{
    let a = ((v / 10) % 10) as nat;
    let b = (v % 10) as nat;
    assert(digit_char(a) as int == 48 + a);
    assert(digit_char(b) as int == 48 + b);
}

/// The default id of a timestamp whose local year has four digits is a valid snapshot id of
/// fifteen characters.
pub proof fn lemma_default_id_valid(t: (i64, u32, i32))
    requires
        0 <= civil_date(local_secs(t) / 86_400).0 < 10_000,
    ensures
        valid_id(default_id_text(t)),
        default_id_text(t).len() == 15,
{
    let (y, m, d) = civil_date(local_secs(t) / 86_400);
    let s = local_secs(t) % 86_400;
    let leap: int = if t.1 >= 1_000_000_000 {
        1
    } else {
        0
    };
    let parts = seq![
        two_digits(y / 100),
        two_digits(y % 100),
        two_digits(m),
        two_digits(d),
        seq!['-'],
        two_digits(s / 3600),
        two_digits((s % 3600) / 60),
        two_digits(s % 60 + leap),
    ];
    lemma_two_digits_id_chars(y / 100);
    lemma_two_digits_id_chars(y % 100);
    lemma_two_digits_id_chars(m);
    lemma_two_digits_id_chars(d);
    lemma_two_digits_id_chars(s / 3600);
    lemma_two_digits_id_chars((s % 3600) / 60);
    lemma_two_digits_id_chars(s % 60 + leap);
    let id = default_id_text(t);
    assert(id =~= parts[0] + parts[1] + parts[2] + parts[3] + parts[4] + parts[5] + parts[6]
        + parts[7]);
    assert forall|i: int| 0 <= i < id.len() implies is_id_char(#[trigger] id[i]) by {
        if i < 2 {
            assert(id[i] == parts[0][i]);
        } else if i < 4 {
            assert(id[i] == parts[1][i - 2]);
        } else if i < 6 {
            assert(id[i] == parts[2][i - 4]);
        } else if i < 8 {
            assert(id[i] == parts[3][i - 6]);
        } else if i < 9 {
            assert(id[i] == '-');
        } else if i < 11 {
            assert(id[i] == parts[5][i - 9]);
        } else if i < 13 {
            assert(id[i] == parts[6][i - 11]);
        } else {
            assert(id[i] == parts[7][i - 13]);
        }
    }
}

fn is_id_char_exec(c: char) -> (b: bool)
    ensures
        b == is_id_char(c),
{
    ('a' <= c && c <= 'z') || ('A' <= c && c <= 'Z') || ('0' <= c && c <= '9') || c == '.' || c
        == '_' || c == '-'
}

/// Validates that a snapshot id is safe to use as a branch suffix.
pub fn validate_id(id: &str) -> (r: Result<(), MetadataError>)
    ensures
        r is Ok <==> valid_id(id@),
        match r {
            Ok(_) => id_error(id@) is None,
            Err(e) => id_error(id@) == Some(e@),
        },
{
    proof {
        lemma_id_error_iff_invalid(id@);
    }
    let chars = chars_of(id);
    if chars.len() == 0 {
        return Err(MetadataError::EmptyId);
    }
    let mut i: usize = 0;
    while i < chars.len()
        invariant
            i <= chars@.len(),
            chars@ == id@,
            forall|j: int| 0 <= j < i ==> is_id_char(#[trigger] chars@[j]),
        decreases chars@.len() - i,
    {
        let ch = chars[i];
        if !is_id_char_exec(ch) {
            proof {
                lemma_first_invalid_char(id@, i as int);
                assert(id@.skip(i as int)[0] == ch);
            }
            return Err(MetadataError::InvalidIdChar(ch));
        }
        i += 1;
    }
    Ok(())
}

/// A commit-message line that records a metadata field.
pub open spec fn field_line(name: Seq<char>, value: Seq<char>) -> Seq<char> {
    name + seq![':', ' '] + value
}

/// The metadata value written for a flag.
pub open spec fn bool_text(b: bool) -> Seq<char> {
    if b {
        "true"@
    } else {
        "false"@
    }
}

/// The lines of the commit message that records `m`.
pub open spec fn message_lines(m: MetadataModel) -> Seq<Seq<char>> {
    seq![
        "git-ss snapshot"@,
        Seq::<char>::empty(),
        field_line("Git-SS-Id"@, m.id),
        field_line("Git-SS-Type"@, kind_text(m.kind)),
        field_line("Git-SS-Source"@, m.source),
        field_line("Git-SS-Source-Commit"@, m.source_commit),
        field_line("Git-SS-Created-At"@, rfc3339_text(m.created_at.0, m.created_at.1, m.created_at.2)),
        field_line("Git-SS-Remote"@, m.remote),
        field_line("Git-SS-Include-Ignored"@, bool_text(m.include_ignored)),
        field_line("Git-SS-Tool-Version"@, m.tool_version),
    ]
}

/// The commit message that records `m`.
pub open spec fn commit_message(m: MetadataModel) -> Seq<char> {
    join_lines(message_lines(m))
}

/// The value of the first message line that starts with the field name and a colon.
pub open spec fn field_value(message: Seq<char>, name: Seq<char>) -> Option<Seq<char>> {
    prefixed_value(lines(message), name.push(':'))
}

/// What parsing a commit message gives: the metadata, or the first error found.
pub open spec fn parsed_metadata(message: Seq<char>) -> Result<MetadataModel, MetadataErrorModel> {
    match field_value(message, "Git-SS-Id"@) {
        None => Err(MetadataErrorModel::MissingField("Git-SS-Id"@)),
        Some(id) => match id_error(id) {
            Some(e) => Err(e),
            None => match field_value(message, "Git-SS-Type"@) {
                None => Err(MetadataErrorModel::MissingField("Git-SS-Type"@)),
                Some(t) => if t != "workdir"@ && t != "ref"@ {
                    Err(MetadataErrorModel::InvalidField("Git-SS-Type"@, t))
                } else {
                    match field_value(message, "Git-SS-Created-At"@) {
                        None => Err(MetadataErrorModel::MissingField("Git-SS-Created-At"@)),
                        Some(c) => match rfc3339_parsed(c) {
                            None => Err(MetadataErrorModel::InvalidField("Git-SS-Created-At"@, c)),
                            Some(created_at) => match field_value(
                                message,
                                "Git-SS-Include-Ignored"@,
                            ) {
                                None => Err(
                                    MetadataErrorModel::MissingField("Git-SS-Include-Ignored"@),
                                ),
                                Some(b) => if b != "true"@ && b != "false"@ {
                                    Err(
                                        MetadataErrorModel::InvalidField(
                                            "Git-SS-Include-Ignored"@,
                                            b,
                                        ),
                                    )
                                } else {
                                    parsed_text_fields(
                                        message,
                                        id,
                                        if t == "workdir"@ {
                                            UploadKind::Workdir
                                        } else {
                                            UploadKind::Ref
                                        },
                                        created_at,
                                        b == "true"@,
                                    )
                                },
                            },
                        },
                    }
                },
            },
        },
    }
}

/// The last step of `parsed_metadata`: the free-text fields, read in declaration order.
pub open spec fn parsed_text_fields(
    message: Seq<char>,
    id: Seq<char>,
    kind: UploadKind,
    created_at: (i64, u32, i32),
    include_ignored: bool,
) -> Result<MetadataModel, MetadataErrorModel> {
    match field_value(message, "Git-SS-Source"@) {
        None => Err(MetadataErrorModel::MissingField("Git-SS-Source"@)),
        Some(source) => match field_value(message, "Git-SS-Source-Commit"@) {
            None => Err(MetadataErrorModel::MissingField("Git-SS-Source-Commit"@)),
            Some(source_commit) => match field_value(message, "Git-SS-Remote"@) {
                None => Err(MetadataErrorModel::MissingField("Git-SS-Remote"@)),
                Some(remote) => match field_value(message, "Git-SS-Tool-Version"@) {
                    None => Err(MetadataErrorModel::MissingField("Git-SS-Tool-Version"@)),
                    Some(tool_version) => Ok(
                        MetadataModel {
                            id,
                            kind,
                            source,
                            source_commit,
                            created_at,
                            remote,
                            include_ignored,
                            tool_version,
                        },
                    ),
                },
            },
        },
    }
}

/// Finds and returns a single metadata field value from a commit message.
fn field<'a>(message: &'a str, chars: &Vec<char>, name: &'static str) -> (r: Result<
    &'a str,
    MetadataError,
>)
    requires
        chars@ == message@,
    ensures
        match field_value(message@, name@) {
            None => r matches Err(e) && e@ == MetadataErrorModel::MissingField(name@),
            Some(v) => r matches Ok(s) && s@ == v,
        },
{
    let mut prefix = chars_of(name);
    prefix.push(':');
    match find_prefixed_value(chars, &prefix) {
        Some((a, b)) => Ok(message.substring_char(a, b)),
        None => Err(MetadataError::MissingField(name)),
    }
}

/// Parses a snapshot commit message back into structured metadata.
pub fn parse_metadata(message: &str) -> (r: Result<SnapshotMetadata, MetadataError>)
    ensures
        match r {
            Ok(m) => parsed_metadata(message@) == Ok::<MetadataModel, MetadataErrorModel>(m@),
            Err(e) => parsed_metadata(message@) == Err::<MetadataModel, MetadataErrorModel>(e@),
        },
{
    let chars = chars_of(message);
    let id = match field(message, &chars, "Git-SS-Id") {
        Ok(v) => v,
        Err(e) => return Err(e),
    };
    match validate_id(id) {
        Ok(_) => {},
        Err(e) => return Err(e),
    }
    let type_value = match field(message, &chars, "Git-SS-Type") {
        Ok(v) => v,
        Err(e) => return Err(e),
    };
    let kind = if str_eq(type_value, "workdir") {
        UploadKind::Workdir
    } else if str_eq(type_value, "ref") {
        UploadKind::Ref
    } else {
        return Err(
            MetadataError::InvalidField { field: "Git-SS-Type", value: type_value.to_owned() },
        );
    };
    let created_at_value = match field(message, &chars, "Git-SS-Created-At") {
        Ok(v) => v,
        Err(e) => return Err(e),
    };
    let created_at = match parse_rfc3339(created_at_value) {
        Some(t) => t,
        None => {
            return Err(
                MetadataError::InvalidField {
                    field: "Git-SS-Created-At",
                    value: created_at_value.to_owned(),
                },
            );
        },
    };
    let include_ignored_value = match field(message, &chars, "Git-SS-Include-Ignored") {
        Ok(v) => v,
        Err(e) => return Err(e),
    };
    let include_ignored = if str_eq(include_ignored_value, "true") {
        true
    } else if str_eq(include_ignored_value, "false") {
        false
    } else {
        return Err(
            MetadataError::InvalidField {
                field: "Git-SS-Include-Ignored",
                value: include_ignored_value.to_owned(),
            },
        );
    };
    let source = match field(message, &chars, "Git-SS-Source") {
        Ok(v) => v,
        Err(e) => return Err(e),
    };
    let source_commit = match field(message, &chars, "Git-SS-Source-Commit") {
        Ok(v) => v,
        Err(e) => return Err(e),
    };
    let remote = match field(message, &chars, "Git-SS-Remote") {
        Ok(v) => v,
        Err(e) => return Err(e),
    };
    let tool_version = match field(message, &chars, "Git-SS-Tool-Version") {
        Ok(v) => v,
        Err(e) => return Err(e),
    };
    Ok(
        SnapshotMetadata {
            id: id.to_owned(),
            kind,
            source: source.to_owned(),
            source_commit: source_commit.to_owned(),
            created_at,
            remote: remote.to_owned(),
            include_ignored,
            tool_version: tool_version.to_owned(),
        },
    )
}


/// Free text that a metadata line carries unchanged: no line feed, no leading whitespace
/// and no final carriage return.
pub open spec fn plain_text(v: Seq<char>) -> bool {
    &&& forall|i: int| 0 <= i < v.len() ==> #[trigger] v[i] != '\n'
    &&& v.len() > 0 ==> !is_space(v[0]) && v.last() != '\r'
}

/// Metadata that its commit message records without loss.
pub open spec fn renders_back(m: MetadataModel) -> bool {
    &&& valid_id(m.id)
    &&& plain_text(m.source)
    &&& plain_text(m.source_commit)
    &&& plain_text(m.remote)
    &&& plain_text(m.tool_version)
    &&& rfc3339_round_trips(m.created_at)
}

proof fn lemma_field_line(name: Seq<char>, value: Seq<char>)
    requires
        plain_text(value),
        forall|i: int| 0 <= i < name.len() ==> #[trigger] name[i] != '\n',
    ensures
        whole_line(field_line(name, value)),
        starts_with(field_line(name, value), name.push(':')),
        trim_start(field_line(name, value).skip((name.len() + 1) as int)) == value,
{
    let l = field_line(name, value);
    assert forall|i: int| 0 <= i < l.len() implies #[trigger] l[i] != '\n' by {
        if i < name.len() {
            assert(l[i] == name[i]);
        } else if i >= name.len() + 2 {
            assert(l[i] == value[i - name.len() - 2]);
        }
    }
    if value.len() > 0 {
        assert(l.last() == value.last());
    }
    assert(strip_cr(l) == l);
    assert(l.take((name.len() + 1) as int) =~= name.push(':'));
    let tail = l.skip((name.len() + 1) as int);
    assert(tail =~= seq![' '] + value);
    if value.len() > 0 {
        assert(tail[1] == value[0]);
    }
    lemma_trim_start(tail, 1);
    assert(tail.skip(1) =~= value);
}

proof fn lemma_literal_text(v: Seq<char>)
    requires
        forall|i: int| 0 <= i < v.len() ==> 'a' <= #[trigger] v[i] && v[i] <= 'z',
    ensures
        plain_text(v),
{
}

/// What `to_rfc3339` promises of the text of a creation time that round-trips: `chrono`
/// reads it back as the same parts, and it is made of digits and separators.
pub open spec fn created_text_reads_back(t: (i64, u32, i32)) -> bool {
    &&& rfc3339_parsed(rfc3339_text(t.0, t.1, t.2)) == Some(t)
    &&& forall|i: int|
        0 <= i < rfc3339_text(t.0, t.1, t.2).len() ==> rfc3339_char(
            #[trigger] rfc3339_text(t.0, t.1, t.2)[i],
        )
}

/// Parsing the commit message of metadata that renders back gives that metadata.
///
/// This rests on what `chrono` guarantees of the RFC 3339 text of the creation time: that it
/// reads back as the same instant and offset, and that it is made of digits and separators.
pub proof fn lemma_message_round_trip(m: MetadataModel)
    requires
        renders_back(m),
        created_text_reads_back(m.created_at),
    ensures
        parsed_metadata(commit_message(m)) == Ok::<MetadataModel, MetadataErrorModel>(m),
{
    let ls = message_lines(m);
    let created = rfc3339_text(m.created_at.0, m.created_at.1, m.created_at.2);
    {
        reveal_strlit("Git-SS-Id");
        reveal_strlit("Git-SS-Type");
        reveal_strlit("Git-SS-Source");
        reveal_strlit("Git-SS-Source-Commit");
        reveal_strlit("Git-SS-Created-At");
        reveal_strlit("Git-SS-Remote");
        reveal_strlit("Git-SS-Include-Ignored");
        reveal_strlit("Git-SS-Tool-Version");
        reveal_strlit("git-ss snapshot");
        reveal_strlit("workdir");
        reveal_strlit("ref");
        reveal_strlit("true");
        reveal_strlit("false");
    }
    assert forall|i: int| 0 <= i < created.len() implies #[trigger] created[i] != '\n' by {
        assert(rfc3339_char(created[i]));
    }
    if created.len() > 0 {
        assert(rfc3339_char(created[0]));
        assert(rfc3339_char(created.last()));
    }
    lemma_literal_text(kind_text(m.kind));
    lemma_literal_text(bool_text(m.include_ignored));
    lemma_field_line("Git-SS-Id"@, m.id);
    lemma_field_line("Git-SS-Type"@, kind_text(m.kind));
    lemma_field_line("Git-SS-Source"@, m.source);
    lemma_field_line("Git-SS-Source-Commit"@, m.source_commit);
    lemma_field_line("Git-SS-Created-At"@, created);
    lemma_field_line("Git-SS-Remote"@, m.remote);
    lemma_field_line("Git-SS-Include-Ignored"@, bool_text(m.include_ignored));
    lemma_field_line("Git-SS-Tool-Version"@, m.tool_version);
    assert(whole_line(ls[0]));
    assert(whole_line(ls[1]));
    assert forall|k: int| 0 <= k < ls.len() implies whole_line(#[trigger] ls[k]) by {
    }
    lemma_lines_of_joined(ls);
    {
        // `Git-SS-Id` is first found on line 2.
        lemma_differs_at(ls[0], "Git-SS-Id"@.push(':'), 0);
        lemma_differs_at(ls[1], "Git-SS-Id"@.push(':'), 0);
        lemma_prefixed_value_at(ls, "Git-SS-Id"@.push(':'), 2);
        // `Git-SS-Type` is first found on line 3.
        lemma_differs_at(ls[0], "Git-SS-Type"@.push(':'), 0);
        lemma_differs_at(ls[1], "Git-SS-Type"@.push(':'), 0);
        lemma_differs_at(ls[2], "Git-SS-Type"@.push(':'), 7);
        lemma_prefixed_value_at(ls, "Git-SS-Type"@.push(':'), 3);
        // `Git-SS-Source` is first found on line 4.
        lemma_differs_at(ls[0], "Git-SS-Source"@.push(':'), 0);
        lemma_differs_at(ls[1], "Git-SS-Source"@.push(':'), 0);
        lemma_differs_at(ls[2], "Git-SS-Source"@.push(':'), 7);
        lemma_differs_at(ls[3], "Git-SS-Source"@.push(':'), 7);
        lemma_prefixed_value_at(ls, "Git-SS-Source"@.push(':'), 4);
        // `Git-SS-Source-Commit` is first found on line 5.
        lemma_differs_at(ls[0], "Git-SS-Source-Commit"@.push(':'), 0);
        lemma_differs_at(ls[1], "Git-SS-Source-Commit"@.push(':'), 0);
        lemma_differs_at(ls[2], "Git-SS-Source-Commit"@.push(':'), 7);
        lemma_differs_at(ls[3], "Git-SS-Source-Commit"@.push(':'), 7);
        lemma_differs_at(ls[4], "Git-SS-Source-Commit"@.push(':'), 13);
        lemma_prefixed_value_at(ls, "Git-SS-Source-Commit"@.push(':'), 5);
        // `Git-SS-Created-At` is first found on line 6.
        lemma_differs_at(ls[0], "Git-SS-Created-At"@.push(':'), 0);
        lemma_differs_at(ls[1], "Git-SS-Created-At"@.push(':'), 0);
        lemma_differs_at(ls[2], "Git-SS-Created-At"@.push(':'), 7);
        lemma_differs_at(ls[3], "Git-SS-Created-At"@.push(':'), 7);
        lemma_differs_at(ls[4], "Git-SS-Created-At"@.push(':'), 7);
        lemma_differs_at(ls[5], "Git-SS-Created-At"@.push(':'), 7);
        lemma_prefixed_value_at(ls, "Git-SS-Created-At"@.push(':'), 6);
        // `Git-SS-Remote` is first found on line 7.
        lemma_differs_at(ls[0], "Git-SS-Remote"@.push(':'), 0);
        lemma_differs_at(ls[1], "Git-SS-Remote"@.push(':'), 0);
        lemma_differs_at(ls[2], "Git-SS-Remote"@.push(':'), 7);
        lemma_differs_at(ls[3], "Git-SS-Remote"@.push(':'), 7);
        lemma_differs_at(ls[4], "Git-SS-Remote"@.push(':'), 7);
        lemma_differs_at(ls[5], "Git-SS-Remote"@.push(':'), 7);
        lemma_differs_at(ls[6], "Git-SS-Remote"@.push(':'), 7);
        lemma_prefixed_value_at(ls, "Git-SS-Remote"@.push(':'), 7);
        // `Git-SS-Include-Ignored` is first found on line 8.
        lemma_differs_at(ls[0], "Git-SS-Include-Ignored"@.push(':'), 0);
        lemma_differs_at(ls[1], "Git-SS-Include-Ignored"@.push(':'), 0);
        lemma_differs_at(ls[2], "Git-SS-Include-Ignored"@.push(':'), 8);
        lemma_differs_at(ls[3], "Git-SS-Include-Ignored"@.push(':'), 7);
        lemma_differs_at(ls[4], "Git-SS-Include-Ignored"@.push(':'), 7);
        lemma_differs_at(ls[5], "Git-SS-Include-Ignored"@.push(':'), 7);
        lemma_differs_at(ls[6], "Git-SS-Include-Ignored"@.push(':'), 7);
        lemma_differs_at(ls[7], "Git-SS-Include-Ignored"@.push(':'), 7);
        lemma_prefixed_value_at(ls, "Git-SS-Include-Ignored"@.push(':'), 8);
        // `Git-SS-Tool-Version` is first found on line 9.
        lemma_differs_at(ls[0], "Git-SS-Tool-Version"@.push(':'), 0);
        lemma_differs_at(ls[1], "Git-SS-Tool-Version"@.push(':'), 0);
        lemma_differs_at(ls[2], "Git-SS-Tool-Version"@.push(':'), 7);
        lemma_differs_at(ls[3], "Git-SS-Tool-Version"@.push(':'), 8);
        lemma_differs_at(ls[4], "Git-SS-Tool-Version"@.push(':'), 7);
        lemma_differs_at(ls[5], "Git-SS-Tool-Version"@.push(':'), 7);
        lemma_differs_at(ls[6], "Git-SS-Tool-Version"@.push(':'), 7);
        lemma_differs_at(ls[7], "Git-SS-Tool-Version"@.push(':'), 7);
        lemma_differs_at(ls[8], "Git-SS-Tool-Version"@.push(':'), 7);
        lemma_prefixed_value_at(ls, "Git-SS-Tool-Version"@.push(':'), 9);
    }
    lemma_id_error_iff_invalid(m.id);
}

impl SnapshotMetadata {
    /// Renders metadata as a snapshot commit message. Where the metadata renders back,
    /// `parse_metadata` recovers it from the message.
    pub fn to_commit_message(&self) -> (r: String)
        ensures
            r@ == commit_message(self@),
            renders_back(self@) ==> parsed_metadata(r@) == Ok::<MetadataModel, MetadataErrorModel>(
                self@,
            ),
    {
        let created = to_rfc3339(&self.created_at);
        let ghost ls = message_lines(self@);
        let mut s = String::new();
        s.append("git-ss snapshot");
        s.append("\n");
        proof {
            reveal_strlit("\n");
            lemma_join_push(Seq::<Seq<char>>::empty(), ls[0]);
            assert(ls.take(1) =~= Seq::<Seq<char>>::empty().push(ls[0]));
            assert(s@ =~= join_lines(ls.take(1)));
        }
        s.append("\n");
        proof {
            lemma_join_push(ls.take(1), ls[1]);
            assert(ls.take(2) =~= ls.take(1).push(ls[1]));
            assert(s@ =~= join_lines(ls.take(2)));
        }
        push_field(&mut s, "Git-SS-Id", self.id.as_str());
        proof { lemma_join_step(ls, 2); }
        push_field(&mut s, "Git-SS-Type", self.kind.as_str());
        proof { lemma_join_step(ls, 3); }
        push_field(&mut s, "Git-SS-Source", self.source.as_str());
        proof { lemma_join_step(ls, 4); }
        push_field(&mut s, "Git-SS-Source-Commit", self.source_commit.as_str());
        proof { lemma_join_step(ls, 5); }
        push_field(&mut s, "Git-SS-Created-At", created.as_str());
        proof { lemma_join_step(ls, 6); }
        push_field(&mut s, "Git-SS-Remote", self.remote.as_str());
        proof { lemma_join_step(ls, 7); }
        push_field(
            &mut s,
            "Git-SS-Include-Ignored",
            if self.include_ignored {
                "true"
            } else {
                "false"
            },
        );
        proof {
            reveal_strlit("true");
            reveal_strlit("false");
            lemma_join_step(ls, 8);
        }
        push_field(&mut s, "Git-SS-Tool-Version", self.tool_version.as_str());
        proof {
            lemma_join_step(ls, 9);
            assert(ls.take(10) =~= ls);
            if renders_back(self@) {
                lemma_message_round_trip(self@);
            }
        }
        s
    }
}

proof fn lemma_join_step(ls: Seq<Seq<char>>, k: int)
    requires
        0 <= k < ls.len(),
    ensures
        join_lines(ls.take(k + 1)) == join_lines(ls.take(k)) + ls[k] + seq!['\n'],
{
    lemma_join_push(ls.take(k), ls[k]);
    assert(ls.take(k + 1) =~= ls.take(k).push(ls[k]));
}

/// Appends the line `name: value` and its line feed.
fn push_field(s: &mut String, name: &str, value: &str)
    ensures
        final(s)@ == old(s)@ + field_line(name@, value@) + seq!['\n'],
{
    s.append(name);
    s.append(": ");
    s.append(value);
    s.append("\n");
    proof {
        reveal_strlit(": ");
        reveal_strlit("\n");
        assert(final(s)@ =~= old(s)@ + field_line(name@, value@) + seq!['\n']);
    }
}

} // verus!
