//! Listed snapshots: how a fetched snapshot ref becomes a listing entry, and the orders in
//! which entries are listed.

use vstd::prelude::*;
use vstd::string::*;

use crate::metadata::{
    parse_metadata, parsed_metadata, MetadataError, MetadataErrorModel, MetadataModel,
    SnapshotMetadata,
};
use crate::text::{chars_of, owned, starts_with};

verus! {

broadcast use vstd::seq_lib::group_to_multiset_ensures;

/// Snapshot entry of a listing.
#[derive(Debug)]
pub struct ListedSnapshot {
    /// Snapshot id derived from the remote-tracking ref suffix.
    pub id: String,
    /// Remote-tracking ref holding the fetched snapshot commit.
    pub remote_ref: String,
    /// Snapshot commit id, in hexadecimal.
    pub commit: String,
    /// Parsed metadata, or the text of the error for malformed snapshot commits.
    pub metadata: Result<SnapshotMetadata, String>,
}

/// The mathematical content of a `ListedSnapshot`.
pub struct ListedSnapshotModel {
    pub id: Seq<char>,
    pub remote_ref: Seq<char>,
    pub commit: Seq<char>,
    pub metadata: Result<MetadataModel, Seq<char>>,
}

impl View for ListedSnapshot {
    type V = ListedSnapshotModel;

    open spec fn view(&self) -> ListedSnapshotModel {
        ListedSnapshotModel {
            id: self.id@,
            remote_ref: self.remote_ref@,
            commit: self.commit@,
            metadata: match self.metadata {
                Ok(m) => Ok(m@),
                Err(e) => Err(e@),
            },
        }
    }
}

/// `text` without `prefix` where it starts with it, else `text` itself.
pub open spec fn strip_prefix_or_keep(text: Seq<char>, prefix: Seq<char>) -> Seq<char> {
    if starts_with(text, prefix) {
        text.skip(prefix.len() as int)
    } else {
        text
    }
}

/// The text that Rust's `Debug` formatting gives a character: quoted and escaped.
pub uninterp spec fn char_debug_text(c: char) -> Seq<char>;

/// Calls `format!("{:?}", c)`, the `Debug` text of a character. Trusted: the result is the
/// named text.
#[verifier::external_body]
fn char_debug(c: char) -> (r: String)
    ensures
        r@ == char_debug_text(c),
{
    format!("{:?}", c)
}

/// The text that a metadata error displays.
pub open spec fn metadata_error_text(e: MetadataErrorModel) -> Seq<char> {
    match e {
        MetadataErrorModel::EmptyId => "snapshot id cannot be empty"@,
        MetadataErrorModel::InvalidIdChar(c) => "snapshot id contains invalid character "@
            + char_debug_text(c),
        MetadataErrorModel::MissingField(f) => "missing metadata field "@ + f,
        MetadataErrorModel::InvalidField(f, v) => "invalid metadata field "@ + f + ": "@ + v,
    }
}

impl MetadataError {
    /// The text that the error displays.
    pub fn message(&self) -> (r: String)
        ensures
            r@ == metadata_error_text(self@),
    {
        match self {
            MetadataError::EmptyId => owned("snapshot id cannot be empty"),
            MetadataError::InvalidIdChar(c) => {
                let mut r = owned("snapshot id contains invalid character ");
                let d = char_debug(*c);
                r.append(d.as_str());
                r
            },
            MetadataError::MissingField(f) => {
                let mut r = owned("missing metadata field ");
                r.append(f);
                r
            },
            MetadataError::InvalidField { field, value } => {
                let mut r = owned("invalid metadata field ");
                r.append(field);
                r.append(": ");
                r.append(value.as_str());
                r
            },
        }
    }
}

/// The metadata of a listed snapshot: the parsed message, or the error text of the message
/// that could not be read or parsed.
pub open spec fn listed_metadata(message: Result<Seq<char>, Seq<char>>) -> Result<
    MetadataModel,
    Seq<char>,
> {
    match message {
        Err(e) => Err(e),
        Ok(m) => match parsed_metadata(m) {
            Ok(md) => Ok(md),
            Err(e) => Err(metadata_error_text(e)),
        },
    }
}

/// Makes the listing entry of the remote-tracking ref `name` under `prefix`, whose commit
/// `commit` has the message `message` (or the error text of reading it).
pub fn listed_snapshot(prefix: &str, name: &str, commit: String, message: Result<&str, String>) -> (r:
    ListedSnapshot)
    ensures
        r@.id == strip_prefix_or_keep(name@, prefix@),
        r@.remote_ref == name@,
        r@.commit == commit@,
        r@.metadata == listed_metadata(
            match message {
                Ok(m) => Ok(m@),
                Err(e) => Err(e@),
            },
        ),
{
    let prefix_chars = chars_of(prefix);
    let name_chars = chars_of(name);
    let plen = prefix_chars.len();
    let mut matches_prefix = plen <= name_chars.len();
    let mut i: usize = 0;
    while matches_prefix && i < plen
        invariant
            i <= plen,
            plen == prefix@.len(),
            prefix_chars@ == prefix@,
            name_chars@ == name@,
            matches_prefix ==> plen <= name@.len(),
            matches_prefix ==> forall|j: int| 0 <= j < i ==> name@[j] == prefix@[j],
            !matches_prefix ==> !starts_with(name@, prefix@),
        decreases plen - i,
    {
        if name_chars[i] != prefix_chars[i] {
            matches_prefix = false;
            assert(name@.take(plen as int)[i as int] != prefix@[i as int]);
        }
        i += 1;
    }
    let id = if matches_prefix {
        assert(name@.take(plen as int) =~= prefix@);
        owned(name.substring_char(plen, name_chars.len()))
    } else {
        owned(name)
    };
    proof {
        if matches_prefix {
            assert(name@.subrange(plen as int, name@.len() as int) =~= name@.skip(plen as int));
        }
    }
    let metadata = match message {
        Err(e) => Err(e),
        Ok(m) => match parse_metadata(m) {
            Ok(md) => Ok(md),
            Err(e) => Err(e.message()),
        },
    };
    ListedSnapshot { id, remote_ref: owned(name), commit, metadata }
}

/// Lexicographic order of texts by character, the order of Rust strings.
pub open spec fn text_lt(a: Seq<char>, b: Seq<char>) -> bool
    decreases a.len(),
{
    if b.len() == 0 {
        false
    } else if a.len() == 0 {
        true
    } else if a[0] != b[0] {
        a[0] < b[0]
    } else {
        text_lt(a.drop_first(), b.drop_first())
    }
}

/// No text comes before itself.
pub proof fn lemma_text_lt_irreflexive(a: Seq<char>)
    ensures
        !text_lt(a, a),
    decreases a.len(),
{
    if a.len() > 0 {
        lemma_text_lt_irreflexive(a.drop_first());
    }
}

/// The order of texts is transitive.
pub proof fn lemma_text_lt_transitive(a: Seq<char>, b: Seq<char>, c: Seq<char>)
    requires
        text_lt(a, b),
        text_lt(b, c),
    ensures
        text_lt(a, c),
    decreases a.len(),
{
    if a.len() > 0 && b.len() > 0 && c.len() > 0 && a[0] == b[0] && b[0] == c[0] {
        lemma_text_lt_transitive(a.drop_first(), b.drop_first(), c.drop_first());
    }
}

/// Two different texts are ordered one way or the other.
pub proof fn lemma_text_lt_total(a: Seq<char>, b: Seq<char>)
    ensures
        a == b || text_lt(a, b) || text_lt(b, a),
    decreases a.len(),
{
    if a.len() > 0 && b.len() > 0 && a[0] == b[0] {
        lemma_text_lt_total(a.drop_first(), b.drop_first());
        if a.drop_first() == b.drop_first() {
            assert(a =~= seq![a[0]] + a.drop_first());
            assert(b =~= seq![b[0]] + b.drop_first());
        }
    } else if a.len() == 0 && b.len() == 0 {
        assert(a =~= b);
    }
}

/// Whether `a` comes before `b` as Rust compares strings.
pub fn text_less(a: &str, b: &str) -> (r: bool)
    ensures
        r == text_lt(a@, b@),
{
    let x = chars_of(a);
    let y = chars_of(b);
    let mut i: usize = 0;
    assert(a@.skip(0) =~= a@);
    assert(b@.skip(0) =~= b@);
    while i < x.len() && i < y.len() && x[i] == y[i]
        invariant
            i <= x@.len(),
            i <= y@.len(),
            x@ == a@,
            y@ == b@,
            forall|j: int| 0 <= j < i ==> x@[j] == y@[j],
            text_lt(a@, b@) == text_lt(a@.skip(i as int), b@.skip(i as int)),
        decreases x@.len() - i,
    {
        proof {
            assert(a@.skip(i as int).drop_first() =~= a@.skip(i + 1));
            assert(b@.skip(i as int).drop_first() =~= b@.skip(i + 1));
        }
        i += 1;
    }
    if i == y.len() {
        false
    } else if i == x.len() {
        true
    } else {
        x[i] < y[i]
    }
}


/// The orders in which snapshots are listed.
#[derive(Clone, Copy, Debug, PartialEq, Eq, Structural)]
pub enum ListingOrder {
    /// By id, as Rust compares strings.
    ById,
    /// Snapshots with metadata first, newest first, ties by id from last to first; then
    /// snapshots without metadata, by id from last to first.
    NewestFirst,
}

/// Whether instant `a` is before instant `b` (the offsets do not matter).
pub open spec fn instant_lt(a: (i64, u32, i32), b: (i64, u32, i32)) -> bool {
    a.0 < b.0 || (a.0 == b.0 && a.1 < b.1)
}

/// Whether two timestamps are the same instant.
pub open spec fn same_instant(a: (i64, u32, i32), b: (i64, u32, i32)) -> bool {
    a.0 == b.0 && a.1 == b.1
}

/// Whether `a` is listed strictly before `b`.
pub open spec fn precedes(order: ListingOrder, a: ListedSnapshotModel, b: ListedSnapshotModel) -> bool {
    match order {
        ListingOrder::ById => text_lt(a.id, b.id),
        ListingOrder::NewestFirst => match (a.metadata, b.metadata) {
            (Ok(ma), Ok(mb)) => instant_lt(mb.created_at, ma.created_at) || (same_instant(
                ma.created_at,
                mb.created_at,
            ) && text_lt(b.id, a.id)),
            (Ok(_), Err(_)) => true,
            (Err(_), Ok(_)) => false,
            (Err(_), Err(_)) => text_lt(b.id, a.id),
        },
    }
}

proof fn lemma_text_facts(a: Seq<char>, b: Seq<char>, c: Seq<char>)
    ensures
        !text_lt(a, a),
        text_lt(a, b) ==> !text_lt(b, a),
        !text_lt(a, b) && !text_lt(b, c) ==> !text_lt(a, c),
{
    lemma_text_lt_irreflexive(a);
    lemma_text_lt_irreflexive(b);
    lemma_text_lt_irreflexive(c);
    lemma_text_lt_total(a, b);
    lemma_text_lt_total(b, c);
    lemma_text_lt_total(a, c);
    if text_lt(a, b) && text_lt(b, a) {
        lemma_text_lt_transitive(a, b, a);
    }
    if text_lt(c, b) && text_lt(b, a) {
        lemma_text_lt_transitive(c, b, a);
    }
    if text_lt(a, c) && text_lt(c, b) {
        lemma_text_lt_transitive(a, c, b);
    }
    if text_lt(b, a) && text_lt(a, c) {
        lemma_text_lt_transitive(b, a, c);
    }
}

/// Listing orders are strict weak orders: no two snapshots precede each other, and a
/// snapshot that precedes neither of two others in turn precedes neither through them.
pub proof fn lemma_precedes_strict_weak(
    order: ListingOrder,
    a: ListedSnapshotModel,
    b: ListedSnapshotModel,
    c: ListedSnapshotModel,
)
    ensures
        !precedes(order, a, a),
        precedes(order, a, b) ==> !precedes(order, b, a),
        !precedes(order, a, b) && !precedes(order, b, c) ==> !precedes(order, a, c),
{
    lemma_text_facts(a.id, b.id, c.id);
    lemma_text_facts(c.id, b.id, a.id);
    lemma_text_facts(b.id, a.id, a.id);
}

/// Compares two listed snapshots for the newest-first listing.
pub fn compare_snapshots(left: &ListedSnapshot, right: &ListedSnapshot) -> (r: core::cmp::Ordering)
    ensures
        (r == core::cmp::Ordering::Less) == precedes(ListingOrder::NewestFirst, left@, right@),
        (r == core::cmp::Ordering::Greater) == precedes(ListingOrder::NewestFirst, right@, left@),
{
    proof {
        lemma_precedes_strict_weak(ListingOrder::NewestFirst, left@, right@, left@);
        lemma_precedes_strict_weak(ListingOrder::NewestFirst, right@, left@, right@);
    }
    match (&left.metadata, &right.metadata) {
        (Ok(lm), Ok(rm)) => {
            let (ls, ln) = (lm.created_at.secs(), lm.created_at.nanos());
            let (rs, rn) = (rm.created_at.secs(), rm.created_at.nanos());
            if rs < ls || (rs == ls && rn < ln) {
                core::cmp::Ordering::Less
            } else if ls < rs || (ls == rs && ln < rn) {
                core::cmp::Ordering::Greater
            } else {
                compare_ids_descending(left, right)
            }
        },
        (Ok(_), Err(_)) => core::cmp::Ordering::Less,
        (Err(_), Ok(_)) => core::cmp::Ordering::Greater,
        (Err(_), Err(_)) => compare_ids_descending(left, right),
    }
}

fn compare_ids_descending(left: &ListedSnapshot, right: &ListedSnapshot) -> (r: core::cmp::Ordering)
    ensures
        (r == core::cmp::Ordering::Less) == text_lt(right@.id, left@.id),
        (r == core::cmp::Ordering::Greater) == text_lt(left@.id, right@.id),
{
    proof {
        lemma_text_facts(left@.id, right@.id, left@.id);
    }
    if text_less(right.id.as_str(), left.id.as_str()) {
        core::cmp::Ordering::Less
    } else if text_less(left.id.as_str(), right.id.as_str()) {
        core::cmp::Ordering::Greater
    } else {
        core::cmp::Ordering::Equal
    }
}

/// Whether `a` is listed strictly before `b` in `order`.
pub fn listed_before(order: ListingOrder, a: &ListedSnapshot, b: &ListedSnapshot) -> (r: bool)
    ensures
        r == precedes(order, a@, b@),
{
    match order {
        ListingOrder::ById => text_less(a.id.as_str(), b.id.as_str()),
        ListingOrder::NewestFirst => match compare_snapshots(a, b) {
            core::cmp::Ordering::Less => true,
            _ => false,
        },
    }
}

/// The models of listed snapshots.
pub open spec fn listing_views(s: Seq<ListedSnapshot>) -> Seq<ListedSnapshotModel> {
    s.map_values(|x: ListedSnapshot| x@)
}

/// Whether no listed snapshot precedes one listed before it.
pub open spec fn sorted_by(order: ListingOrder, s: Seq<ListedSnapshotModel>) -> bool {
    forall|i: int, j: int| 0 <= i < j < s.len() ==> !precedes(order, #[trigger] s[j], #[trigger] s[i])
}

/// Whether `new` is `old` rearranged by `perm` (position `k` of `new` holds position `perm[k]`
/// of `old`, each position used once) such that snapshots that neither precedes keep their
/// order.
pub open spec fn stable_rearrangement(
    order: ListingOrder,
    old: Seq<ListedSnapshot>,
    new: Seq<ListedSnapshot>,
    perm: Seq<int>,
) -> bool {
    &&& perm.len() == new.len()
    &&& new.len() == old.len()
    &&& forall|k: int| 0 <= k < perm.len() ==> 0 <= #[trigger] perm[k] < old.len() && new[k] == old[perm[k]]
    &&& forall|a: int, b: int| 0 <= a < b < perm.len() ==> #[trigger] perm[a] != #[trigger] perm[b]
    &&& forall|a: int, b: int|
        0 <= a < b < perm.len() && !precedes(order, new[a]@, new[b]@) && !precedes(
            order,
            new[b]@,
            new[a]@,
        ) ==> #[trigger] perm[a] < #[trigger] perm[b]
}

/// Sorts listed snapshots in `order`, keeping the order of those that neither precedes.
pub fn sort_listing(v: &mut Vec<ListedSnapshot>, order: ListingOrder)
    ensures
        final(v)@.to_multiset() == old(v)@.to_multiset(),
        sorted_by(order, listing_views(final(v)@)),
        exists|perm: Seq<int>| stable_rearrangement(order, old(v)@, final(v)@, perm),
{
    let n = v.len();
    let ghost orig = v@;
    let ghost mut perm: Seq<int> = Seq::new(n as nat, |k: int| k);
    let mut i: usize = if n > 0 {
        1
    } else {
        0
    };
    while i < n
        invariant
            n == v@.len(),
            n == orig.len(),
            orig == old(v)@,
            i <= n,
            n > 0 ==> 1 <= i,
            v@.to_multiset() == old(v)@.to_multiset(),
            forall|a: int, b: int|
                0 <= a < b < i ==> !precedes(order, #[trigger] v@[b]@, #[trigger] v@[a]@),
            perm.len() == n,
            forall|k: int| 0 <= k < i ==> 0 <= #[trigger] perm[k] < i && v@[k] == orig[perm[k]],
            forall|k: int| i <= k < n ==> #[trigger] perm[k] == k && v@[k] == orig[k],
            forall|a: int, b: int| 0 <= a < b < i ==> #[trigger] perm[a] != #[trigger] perm[b],
            forall|a: int, b: int|
                0 <= a < b < i && !precedes(order, v@[a]@, v@[b]@) && !precedes(
                    order,
                    v@[b]@,
                    v@[a]@,
                ) ==> #[trigger] perm[a] < #[trigger] perm[b],
        decreases n - i,
    {
        let ghost before = v@;
        let ghost pbefore = perm;
        let x = v.remove(i);
        let ghost rest = v@;
        let mut p: usize = i;
        while p > 0 && listed_before(order, &x, &v[p - 1])
            invariant
                p <= i,
                i < n,
                v@ == rest,
                rest.len() == n - 1,
                forall|k: int| p <= k < i ==> precedes(order, x@, #[trigger] rest[k]@),
            decreases p,
        {
            p -= 1;
        }
        v.insert(p, x);
        proof {
            let w = v@;
            assert(rest =~= before.remove(i as int));
            assert(pbefore[i as int] == i);
            assert(x == orig[i as int]);
            perm = pbefore.take(i as int).insert(p as int, i as int) + pbefore.skip(i + 1);
            assert forall|k: int| 0 <= k < i + 1 implies 0 <= #[trigger] perm[k] < i + 1 && w[k]
                == orig[perm[k]] by {
                if k < p {
                    assert(perm[k] == pbefore[k]);
                } else if k > p {
                    assert(perm[k] == pbefore[k - 1]);
                }
            }
            assert forall|k: int| i + 1 <= k < n implies #[trigger] perm[k] == k && w[k] == orig[k] by {
                assert(perm[k] == pbefore[k]);
            }
            assert forall|a: int, b: int| 0 <= a < b < i + 1 implies #[trigger] perm[a]
                != #[trigger] perm[b] by {
                if a < p && b < p {
                    assert(perm[a] == pbefore[a] && perm[b] == pbefore[b]);
                } else if a < p && b > p {
                    assert(perm[a] == pbefore[a] && perm[b] == pbefore[b - 1]);
                } else if a > p {
                    assert(perm[a] == pbefore[a - 1] && perm[b] == pbefore[b - 1]);
                } else if a < p {
                    assert(perm[a] == pbefore[a]);
                } else {
                    assert(perm[b] == pbefore[b - 1]);
                }
            }
            assert forall|a: int, b: int| 0 <= a < b < i + 1 implies !precedes(
                order,
                #[trigger] w[b]@,
                #[trigger] w[a]@,
            ) by {
                if b < p {
                    assert(w[a] == before[a] && w[b] == before[b]);
                } else if b == p {
                    assert(w[a] == before[a]);
                    assert(w[b] == x);
                    if p > 0 {
                        lemma_precedes_strict_weak(order, x@, before[p - 1]@, before[a]@);
                    }
                } else if a == p {
                    assert(w[b] == rest[b - 1]);
                    lemma_precedes_strict_weak(order, x@, rest[b - 1]@, x@);
                } else if a < p {
                    assert(w[a] == before[a]);
                    assert(w[b] == before[b - 1]);
                } else {
                    assert(w[a] == before[a - 1]);
                    assert(w[b] == before[b - 1]);
                }
            }
            assert forall|a: int, b: int|
                0 <= a < b < i + 1 && !precedes(order, w[a]@, w[b]@) && !precedes(
                    order,
                    w[b]@,
                    w[a]@,
                ) implies #[trigger] perm[a] < #[trigger] perm[b] by {
                if a < p && b < p {
                    assert(perm[a] == pbefore[a] && perm[b] == pbefore[b]);
                    assert(w[a] == before[a] && w[b] == before[b]);
                } else if a < p && b > p {
                    assert(perm[a] == pbefore[a] && perm[b] == pbefore[b - 1]);
                    assert(w[a] == before[a] && w[b] == before[b - 1]);
                } else if a > p {
                    assert(perm[a] == pbefore[a - 1] && perm[b] == pbefore[b - 1]);
                    assert(w[a] == before[a - 1] && w[b] == before[b - 1]);
                } else if a < p {
                    assert(perm[a] == pbefore[a]);
                    assert(perm[b] == i);
                } else {
                    assert(w[b] == rest[b - 1]);
                    assert(precedes(order, x@, rest[b - 1]@));
                }
            }
        }
        i += 1;
    }
    proof {
        let s = listing_views(v@);
        assert forall|a: int, b: int| 0 <= a < b < s.len() implies !precedes(
            order,
            #[trigger] s[b],
            #[trigger] s[a],
        ) by {
            assert(s[a] == v@[a]@);
            assert(s[b] == v@[b]@);
        }
        if n == 0 {
            assert(stable_rearrangement(order, orig, v@, perm));
        }
        assert(stable_rearrangement(order, orig, v@, perm));
    }
}

} // verus!
