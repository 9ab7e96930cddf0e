//! Splitting a batch of paths by what was observed of each: the entries that
//! exist and the entries that were not found, both in the order asked for.

use vstd::prelude::*;

verus! {

/// Whether the entry at position `i` was seen to exist. A position for which
/// no observation was handed in counts as not found, so that nothing is ever
/// submitted to the trash that was not seen to exist.
pub open spec fn seen_at(exists: Seq<bool>, i: int) -> bool {
    0 <= i < exists.len() && exists[i]
}

/// The entries of `paths` whose observation equals `want`, in the order of the
/// request and as often as they occur in it.
pub open spec fn paths_seen(paths: Seq<Seq<char>>, exists: Seq<bool>, want: bool) -> Seq<Seq<char>>
    decreases paths.len(),
{
    if paths.len() == 0 {
        Seq::empty()
    } else {
        let before = paths_seen(paths.drop_last(), exists, want);
        if seen_at(exists, paths.len() - 1) == want {
            before.push(paths.last())
        } else {
            before
        }
    }
}

/// The paths that exist, in request order: what is submitted to the trash.
pub open spec fn existing_paths(paths: Seq<Seq<char>>, exists: Seq<bool>) -> Seq<Seq<char>> {
    paths_seen(paths, exists, true)
}

/// The paths that were not found, in request order and in the form in which
/// they were asked for: what is reported as skipped.
pub open spec fn missing_paths(paths: Seq<Seq<char>>, exists: Seq<bool>) -> Seq<Seq<char>> {
    paths_seen(paths, exists, false)
}

/// Splits `paths` into those seen to exist and those not found.
pub fn partition_paths(paths: &Vec<String>, exists: &Vec<bool>) -> (parts: (Vec<String>, Vec<String>))
    ensures
        parts.0.deep_view() == existing_paths(paths.deep_view(), exists@),
        parts.1.deep_view() == missing_paths(paths.deep_view(), exists@),
{
    let ghost all = paths.deep_view();
    let mut existing: Vec<String> = Vec::new();
    let mut missing: Vec<String> = Vec::new();
    let mut i: usize = 0;
    while i < paths.len()
        invariant
            i <= paths.len(),
            all == paths.deep_view(),
            existing.deep_view() == paths_seen(all.take(i as int), exists@, true),
            missing.deep_view() == paths_seen(all.take(i as int), exists@, false),
        decreases paths.len() - i,
    {
        proof {
            assert(all.take(i + 1).drop_last() =~= all.take(i as int));
        }
        let path = paths[i].clone();
        if i < exists.len() && exists[i] {
            existing.push(path);
        } else {
            missing.push(path);
        }
        i += 1;
    }
    assert(all.take(i as int) =~= all);
    (existing, missing)
}

/// The positions among the first `n` whose observation equals `want`,
/// ascending.
pub open spec fn positions_seen(n: nat, exists: Seq<bool>, want: bool) -> Seq<int>
    decreases n,
{
    if n == 0 {
        Seq::empty()
    } else {
        let before = positions_seen((n - 1) as nat, exists, want);
        if seen_at(exists, n - 1) == want {
            before.push(n - 1)
        } else {
            before
        }
    }
}

/// Every path of a batch lands on exactly one side of the split: the number
/// submitted and the number skipped add up to the number asked for, and the
/// two sides together hold each path as often as the request does.
pub proof fn lemma_partition_accounts_for_all(paths: Seq<Seq<char>>, exists: Seq<bool>)
    ensures
        existing_paths(paths, exists).len() + missing_paths(paths, exists).len() == paths.len(),
        existing_paths(paths, exists).to_multiset().add(
            missing_paths(paths, exists).to_multiset(),
        ) == paths.to_multiset(),
    decreases paths.len(),
{
    broadcast use {vstd::seq_lib::group_to_multiset_ensures, vstd::multiset::group_multiset_axioms};

    if paths.len() > 0 {
        lemma_partition_accounts_for_all(paths.drop_last(), exists);
        assert(paths =~= paths.drop_last().push(paths.last()));
    }
}

/// Nothing is submitted exactly when no position was seen to exist.
pub proof fn lemma_none_existing(paths: Seq<Seq<char>>, exists: Seq<bool>)
    ensures
        existing_paths(paths, exists).len() == 0 <==> forall|i: int|
            0 <= i < paths.len() ==> !seen_at(exists, i),
    decreases paths.len(),
{
    if paths.len() > 0 {
        lemma_none_existing(paths.drop_last(), exists);
    }
}

/// The positions on one side of the split ascend strictly, lie within the
/// batch, carry the observation asked for, and leave out no position that
/// carries it.
pub proof fn lemma_positions_seen(n: nat, exists: Seq<bool>, want: bool)
    ensures
        forall|k: int|
            0 <= k < positions_seen(n, exists, want).len() ==> {
                let i = #[trigger] positions_seen(n, exists, want)[k];
                0 <= i < n && seen_at(exists, i) == want
            },
        forall|j: int, k: int|
            0 <= j < k < positions_seen(n, exists, want).len() ==> positions_seen(
                n,
                exists,
                want,
            )[j] < positions_seen(n, exists, want)[k],
        forall|i: int|
            0 <= i < n && seen_at(exists, i) == want ==> positions_seen(n, exists, want).contains(i),
    decreases n,
{
    if n > 0 {
        let before = positions_seen((n - 1) as nat, exists, want);
        let now = positions_seen(n, exists, want);
        lemma_positions_seen((n - 1) as nat, exists, want);
        assert forall|i: int| 0 <= i < n && seen_at(exists, i) == want implies now.contains(
            i,
        ) by {
            if i < n - 1 {
                let k = choose|k: int| 0 <= k < before.len() && before[k] == i;
                assert(now[k] == i);
            } else {
                assert(now[now.len() - 1] == i);
            }
        }
    }
}

/// Each side of the split keeps the request's order and wording: its `k`-th
/// entry is the path at the `k`-th position of that side.
pub proof fn lemma_paths_seen_in_order(paths: Seq<Seq<char>>, exists: Seq<bool>, want: bool)
    ensures
        paths_seen(paths, exists, want).len() == positions_seen(paths.len(), exists, want).len(),
        forall|k: int|
            0 <= k < paths_seen(paths, exists, want).len() ==> #[trigger] paths_seen(
                paths,
                exists,
                want,
            )[k] == paths[positions_seen(paths.len(), exists, want)[k]],
    decreases paths.len(),
{
    if paths.len() > 0 {
        lemma_paths_seen_in_order(paths.drop_last(), exists, want);
        lemma_positions_seen((paths.len() - 1) as nat, exists, want);
    }
}

} // verus!
