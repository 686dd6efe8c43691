//! What `git-ss clean` deletes: every snapshot branch that the remote advertises.

use vstd::prelude::*;
use vstd::string::*;

use crate::text::{decimal, owned, push_decimal, starts_with};

verus! {

/// Whether a remote ref is a snapshot branch.
pub open spec fn is_snapshot_branch(name: Seq<char>) -> bool {
    starts_with(name, "refs/heads/gitss/"@)
}

/// The deletion refspecs, in order, of the snapshot branches among the advertised refs.
pub open spec fn deletion_refspecs(names: Seq<Seq<char>>) -> Seq<Seq<char>>
    decreases names.len(),
{
    if names.len() == 0 {
        Seq::empty()
    } else if is_snapshot_branch(names[0]) {
        seq![":"@ + names[0]] + deletion_refspecs(names.drop_first())
    } else {
        deletion_refspecs(names.drop_first())
    }
}

/// Whether `name` starts with the snapshot branch prefix.
fn is_snapshot_branch_name(name: &str) -> (r: bool)
    ensures
        r == is_snapshot_branch(name@),
{
    let prefix = "refs/heads/gitss/";
    let plen = prefix.unicode_len();
    let nlen = name.unicode_len();
    if nlen < plen {
        return false;
    }
    let head = name.substring_char(0, plen);
    let r = crate::text::str_eq(head, prefix);
    proof {
        assert(name@.subrange(0, plen as int) =~= name@.take(plen as int));
    }
    r
}

proof fn lemma_deletion_refspecs_push(names: Seq<Seq<char>>, name: Seq<char>)
    ensures
        deletion_refspecs(names.push(name)) == deletion_refspecs(names) + (if is_snapshot_branch(
            name,
        ) {
            seq![":"@ + name]
        } else {
            Seq::empty()
        }),
    decreases names.len(),
{
    if names.len() == 0 {
        assert(names.push(name).drop_first() =~= Seq::<Seq<char>>::empty());
        assert(names.push(name)[0] == name);
        assert(deletion_refspecs(Seq::<Seq<char>>::empty()) == Seq::<Seq<char>>::empty());
        assert(deletion_refspecs(names.push(name)) =~= deletion_refspecs(names) + (if is_snapshot_branch(
            name,
        ) {
            seq![":"@ + name]
        } else {
            Seq::empty()
        }));
    } else {
        assert(names.push(name).drop_first() =~= names.drop_first().push(name));
        assert(names.push(name)[0] == names[0]);
        lemma_deletion_refspecs_push(names.drop_first(), name);
        assert(deletion_refspecs(names.push(name)) =~= deletion_refspecs(names) + (if is_snapshot_branch(
            name,
        ) {
            seq![":"@ + name]
        } else {
            Seq::empty()
        }));
    }
}

/// Whether `refspec` deletes one of the snapshot branches among `names`.
pub open spec fn deletes_listed_branch(names: Seq<Seq<char>>, refspec: Seq<char>) -> bool {
    exists|j: int|
        0 <= j < names.len() && is_snapshot_branch(#[trigger] names[j]) && refspec == ":"@
            + names[j]
}

/// Clean deletes exactly the snapshot branches among the advertised refs: each refspec
/// deletes an advertised snapshot branch, and each advertised snapshot branch is deleted.
pub proof fn lemma_clean_spares_other_branches(names: Seq<Seq<char>>)
    ensures
        forall|k: int|
            0 <= k < deletion_refspecs(names).len() ==> deletes_listed_branch(
                names,
                #[trigger] deletion_refspecs(names)[k],
            ),
        forall|j: int|
            0 <= j < names.len() && is_snapshot_branch(#[trigger] names[j]) ==> deletion_refspecs(
                names,
            ).contains(":"@ + names[j]),
    decreases names.len(),
{
    if names.len() > 0 {
        let rest = names.drop_first();
        lemma_clean_spares_other_branches(rest);
        let d = deletion_refspecs(names);
        let dr = deletion_refspecs(rest);
        assert forall|k: int| 0 <= k < d.len() implies deletes_listed_branch(names, #[trigger] d[k]) by {
            if is_snapshot_branch(names[0]) && k == 0 {
                assert(d[0] == ":"@ + names[0]);
                assert(is_snapshot_branch(names[0]));
            } else {
                let kk = if is_snapshot_branch(names[0]) {
                    k - 1
                } else {
                    k
                };
                assert(d[k] == dr[kk]);
                assert(deletes_listed_branch(rest, dr[kk]));
                let j = choose|j: int|
                    0 <= j < rest.len() && is_snapshot_branch(#[trigger] rest[j]) && dr[kk] == ":"@
                        + rest[j];
                assert(rest[j] == names[j + 1]);
                assert(is_snapshot_branch(names[j + 1]));
            }
        }
        assert forall|j: int| 0 <= j < names.len() && is_snapshot_branch(#[trigger] names[j]) implies d.contains(
            ":"@ + names[j],
        ) by {
            if j == 0 {
                assert(d[0] == ":"@ + names[0]);
            } else {
                assert(names[j] == rest[j - 1]);
                assert(dr.contains(":"@ + rest[j - 1]));
                let k = choose|k: int| 0 <= k < dr.len() && dr[k] == ":"@ + rest[j - 1];
                if is_snapshot_branch(names[0]) {
                    assert(d[k + 1] == dr[k]);
                } else {
                    assert(d[k] == dr[k]);
                }
            }
        }
    }
}

/// The views of strings.
pub open spec fn string_views(s: Seq<String>) -> Seq<Seq<char>> {
    s.map_values(|x: String| x@)
}

/// The refspecs that delete, from the remote, every snapshot branch among the refs it
/// advertises, in the order advertised.
pub fn clean_refspecs(names: &Vec<String>) -> (r: Vec<String>)
    ensures
        string_views(r@) == deletion_refspecs(string_views(names@)),
{
    let ghost all = string_views(names@);
    let mut out: Vec<String> = Vec::new();
    let mut i: usize = 0;
    while i < names.len()
        invariant
            i <= names@.len(),
            all == string_views(names@),
            string_views(out@) == deletion_refspecs(all.take(i as int)),
        decreases names@.len() - i,
    {
        proof {
            assert(all.take(i + 1) =~= all.take(i as int).push(all[i as int]));
            lemma_deletion_refspecs_push(all.take(i as int), all[i as int]);
            assert(all[i as int] == names@[i as int]@);
        }
        if is_snapshot_branch_name(names[i].as_str()) {
            let mut spec = owned(":");
            spec.append(names[i].as_str());
            out.push(spec);
            assert(string_views(out@) =~= deletion_refspecs(all.take(i + 1)));
        } else {
            assert(string_views(out@) =~= deletion_refspecs(all.take(i + 1)));
        }
        i += 1;
    }
    assert(all.take(names@.len() as int) =~= all);
    out
}

/// What `git-ss clean` reports after deleting `count` snapshot branches.
pub fn deleted_message(count: usize) -> (r: String)
    ensures
        r@ == "deleted "@ + decimal(count as nat) + " snapshot branches"@,
{
    let mut r = owned("deleted ");
    push_decimal(&mut r, count as u64);
    r.append(" snapshot branches");
    r
}

} // verus!
