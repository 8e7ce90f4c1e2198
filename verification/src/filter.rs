//! The filter model: which image indices survive a query.
//!
//! Filtering keeps exactly the indices of the paths that contain the query as
//! a literal substring, in their original order. `spec_filtered` is the
//! mathematical result of that recomputation; the lemmas give the shape
//! invariants (entries in range, strictly increasing) and the law that an
//! empty query keeps the whole list.

use vstd::prelude::*;

verus! {

use crate::text::{contains_substring, lemma_empty_needle_matches};

/// The filtered index list over the first `n` paths.
pub open spec fn spec_filtered_up_to(paths: Seq<Seq<char>>, query: Seq<char>, n: int) -> Seq<
    usize,
>
    decreases n,
{
    if n <= 0 {
        Seq::empty()
    } else {
        let prev = spec_filtered_up_to(paths, query, n - 1);
        if contains_substring(paths[n - 1], query) {
            prev.push((n - 1) as usize)
        } else {
            prev
        }
    }
}

/// The filtered index list: indices of the paths that contain `query`, in
/// original order.
pub open spec fn spec_filtered(paths: Seq<Seq<char>>, query: Seq<char>) -> Seq<usize> {
    spec_filtered_up_to(paths, query, paths.len() as int)
}

/// Shape of the filtered list: every entry is a valid path index below `n`,
/// entries are strictly increasing (original order, no duplicates), and an
/// index appears exactly when its path matches.
pub proof fn lemma_filtered_shape(paths: Seq<Seq<char>>, query: Seq<char>, n: int)
    requires
        0 <= n <= paths.len(),
        n <= usize::MAX,
    ensures
        forall|j: int|
            0 <= j < spec_filtered_up_to(paths, query, n).len()
                ==> (#[trigger] spec_filtered_up_to(paths, query, n)[j]) < n,
        forall|j1: int, j2: int|
            0 <= j1 < j2 < spec_filtered_up_to(paths, query, n).len()
                ==> spec_filtered_up_to(paths, query, n)[j1] < spec_filtered_up_to(
                paths,
                query,
                n,
            )[j2],
        forall|j: int|
            0 <= j < spec_filtered_up_to(paths, query, n).len() ==> contains_substring(
                paths[#[trigger] spec_filtered_up_to(paths, query, n)[j] as int],
                query,
            ),
    decreases n,
{
    if n > 0 {
        lemma_filtered_shape(paths, query, n - 1);
        let prev = spec_filtered_up_to(paths, query, n - 1);
        let cur = spec_filtered_up_to(paths, query, n);
        if contains_substring(paths[n - 1], query) {
            assert(cur == prev.push((n - 1) as usize));
            assert forall|j: int| 0 <= j < cur.len() implies (#[trigger] cur[j]) < n by {
                if j < prev.len() {
                    assert(cur[j] == prev[j]);
                } else {
                    assert(cur[j] == (n - 1) as usize);
                }
            }
            assert forall|j1: int, j2: int| 0 <= j1 < j2 < cur.len() implies cur[j1]
                < cur[j2] by {
                assert(cur[j1] == prev[j1]);
                if j2 < prev.len() {
                    assert(cur[j2] == prev[j2]);
                } else {
                    assert(cur[j2] == (n - 1) as usize);
                    assert(prev[j1] < n - 1);
                }
            }
            assert forall|j: int| 0 <= j < cur.len() implies contains_substring(
                paths[#[trigger] cur[j] as int],
                query,
            ) by {
                if j < prev.len() {
                    assert(cur[j] == prev[j]);
                } else {
                    assert(cur[j] == (n - 1) as usize);
                }
            }
        } else {
            assert(cur == prev);
        }
    }
}

/// An empty query keeps every image: the filtered list is all indices
/// `0 .. n` in order.
pub proof fn lemma_empty_query_keeps_all(paths: Seq<Seq<char>>, query: Seq<char>, n: int)
    requires
        query.len() == 0,
        0 <= n <= paths.len(),
    ensures
        spec_filtered_up_to(paths, query, n) =~= Seq::new(n as nat, |i: int| i as usize),
    decreases n,
{
    if n > 0 {
        lemma_empty_query_keeps_all(paths, query, n - 1);
        lemma_empty_needle_matches(paths[n - 1], query);
    }
}

} // verus!
