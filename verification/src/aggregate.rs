//! Fan-in of one tab's concurrent source fetches.
//!
//! Each source URL is fetched by its own unit of work outside the library;
//! every unit reports either its items or, on any failure, nothing. Merging
//! concatenates what the successful units contributed, in the order the
//! results are handed in, and treats a group where everything failed as an
//! ordinary empty result.

use vstd::prelude::*;

use crate::item::NewsItem;

verus! {

/// The concatenation of the successful results, in order; a failed source
/// contributes nothing.
pub open spec fn spec_merge(results: Seq<Option<Vec<NewsItem>>>) -> Seq<NewsItem>
    decreases results.len(),
{
    if results.len() == 0 {
        Seq::empty()
    } else {
        (match results[0] {
            Some(v) => v@,
            None => Seq::empty(),
        }) + spec_merge(results.drop_first())
    }
}

/// Merge the per-source outcomes of one tab's refresh: failures are dropped,
/// successes are concatenated in the order given. A group with no sources, or
/// where every source failed, merges to the empty list — that is not an
/// error.
pub fn merge_results(results: Vec<Option<Vec<NewsItem>>>) -> (merged: Vec<NewsItem>)
    ensures
        merged@ == spec_merge(results@),
{
    let mut rest = results;
    let mut merged: Vec<NewsItem> = Vec::new();
    let ghost all = rest@;
    while rest.len() > 0
        invariant
            merged@ + spec_merge(rest@) =~= spec_merge(all),
        decreases rest.len(),
    {
        let head = rest.remove(0);
        match head {
            Some(mut v) => {
                merged.append(&mut v);
            },
            None => {},
        }
        proof {
            assert(merged@ + spec_merge(rest@) =~= spec_merge(all));
        }
    }
    proof {
        assert(merged@ =~= spec_merge(all));
    }
    merged
}

/// The total length contributed by the successful sources; a failed source
/// counts for nothing.
pub open spec fn sum_success_lens(results: Seq<Option<Vec<NewsItem>>>) -> int
    decreases results.len(),
{
    if results.len() == 0 {
        0
    } else {
        (match results[0] {
            Some(v) => v@.len() as int,
            None => 0int,
        }) + sum_success_lens(results.drop_first())
    }
}

/// The merged result is exactly as long as what the successful sources
/// reported, taken together: nothing is added and nothing beyond the
/// failures is lost.
pub proof fn lemma_merge_len(results: Seq<Option<Vec<NewsItem>>>)
    ensures
        spec_merge(results).len() == sum_success_lens(results),
    decreases results.len(),
{
    if results.len() > 0 {
        lemma_merge_len(results.drop_first());
    }
}

/// Everything in a merged result came from a successful source: for each
/// merged item there is a source whose fetch succeeded and whose result
/// contains that item. Failed sources contribute nothing.
pub proof fn lemma_merge_only_successes(results: Seq<Option<Vec<NewsItem>>>)
    ensures
        forall|x: NewsItem| #[trigger]
            spec_merge(results).contains(x) ==> exists|j: int|
                0 <= j < results.len() && results[j] is Some && (#[trigger]
                results[j])->0@.contains(x),
    decreases results.len(),
{
    if results.len() == 0 {
    } else {
        lemma_merge_only_successes(results.drop_first());
        assert forall|x: NewsItem| #[trigger] spec_merge(results).contains(x) implies exists|
            j: int,
        |
            0 <= j < results.len() && results[j] is Some && (#[trigger]
            results[j])->0@.contains(x) by {
            let head = match results[0] {
                Some(v) => v@,
                None => Seq::<NewsItem>::empty(),
            };
            if head.contains(x) {
                assert(results[0] is Some && results[0]->0@.contains(x));
            } else {
                let i = choose|i: int| 0 <= i < spec_merge(results).len() && spec_merge(results)[i]
                    == x;
                assert(spec_merge(results.drop_first()).contains(x)) by {
                    assert(spec_merge(results.drop_first())[i - head.len() as int] == x);
                };
                let j = choose|j: int|
                    0 <= j < results.drop_first().len() && results.drop_first()[j] is Some && (
                    #[trigger] results.drop_first()[j])->0@.contains(x);
                assert(results[j + 1] is Some && results[j + 1]->0@.contains(x));
            }
        };
    }
}

/// No successful source is dropped: every item a successful fetch reported
/// is in the merged result.
pub proof fn lemma_merge_keeps_successes(results: Seq<Option<Vec<NewsItem>>>)
    ensures
        forall|j: int, k: int|
            0 <= j < results.len() && results[j] is Some && 0 <= k < (#[trigger]
            results[j])->0@.len() ==> spec_merge(results).contains(#[trigger] results[j]->0@[k]),
    decreases results.len(),
{
    if results.len() == 0 {
    } else {
        lemma_merge_keeps_successes(results.drop_first());
        let head = match results[0] {
            Some(v) => v@,
            None => Seq::<NewsItem>::empty(),
        };
        assert forall|j: int, k: int|
            0 <= j < results.len() && results[j] is Some && 0 <= k < (#[trigger]
            results[j])->0@.len() implies spec_merge(results).contains(#[trigger]
        results[j]->0@[k]) by {
            if j == 0 {
                assert(spec_merge(results)[k] == results[0]->0@[k]);
            } else {
                assert(results.drop_first()[j - 1] == results[j]);
                assert(spec_merge(results.drop_first()).contains(results[j]->0@[k]));
                let i = choose|i: int|
                    0 <= i < spec_merge(results.drop_first()).len() && spec_merge(
                        results.drop_first(),
                    )[i] == results[j]->0@[k];
                assert(spec_merge(results)[head.len() + i] == results[j]->0@[k]);
            }
        };
    }
}

} // verus!
