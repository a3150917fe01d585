//! Candidate selection: ranking search results by duration proximity and
//! filtering them through a tolerance window.

use vstd::prelude::*;
use crate::model::{ItemModel, LrclibItem};
use crate::spec_abs_diff;
use crate::abs_diff;

verus! {

/// Whether a candidate duration survives the tolerance window around the
/// target: a non-positive tolerance disables filtering, and the comparison is
/// strict, so a delta exactly equal to the tolerance is excluded.
pub open spec fn spec_within(dur: u64, target: u64, tol: i64) -> bool {
    tol <= 0 || spec_abs_diff(dur, target) < tol
}

/// How many candidates survive the tolerance window.
pub open spec fn spec_count_within(items: Seq<ItemModel>, target: u64, tol: i64) -> int
    decreases items.len(),
{
    if items.len() == 0 {
        0
    } else {
        spec_count_within(items.drop_last(), target, tol) + (if spec_within(
            items.last().duration,
            target,
            tol,
        ) {
            1int
        } else {
            0int
        })
    }
}

/// The index the selector picks for a known target duration: among the
/// candidates surviving the tolerance window, the one with the smallest
/// duration delta, earliest first on ties; `None` when none survives. This is
/// the head of the delta-sorted (stable) and tolerance-filtered list.
pub open spec fn spec_best_index(items: Seq<ItemModel>, target: u64, tol: i64) -> Option<int>
    decreases items.len(),
{
    if items.len() == 0 {
        None
    } else {
        let prev = spec_best_index(items.drop_last(), target, tol);
        let i = items.len() - 1;
        if !spec_within(items[i].duration, target, tol) {
            prev
        } else {
            match prev {
                None => Some(i),
                Some(j) => if spec_abs_diff(items[i].duration, target) < spec_abs_diff(
                    items[j].duration,
                    target,
                ) {
                    Some(i)
                } else {
                    Some(j)
                },
            }
        }
    }
}

/// The index the selector picks. Without a target duration no ranking or
/// filtering occurs: the first candidate of a non-empty list is picked.
pub open spec fn spec_select(items: Seq<ItemModel>, target: Option<u64>, tol: i64) -> Option<int> {
    match target {
        None => if items.len() == 0 {
            None
        } else {
            Some(0int)
        },
        Some(d) => spec_best_index(items, d, tol),
    }
}

/// How many candidates the tolerance filter leaves. Without a target
/// duration nothing is filtered.
pub open spec fn spec_survivors(items: Seq<ItemModel>, target: Option<u64>, tol: i64) -> int {
    match target {
        None => items.len() as int,
        Some(d) => spec_count_within(items, d, tol),
    }
}

/// What the picked index satisfies: it survives the window, its delta is
/// minimal among all surviving candidates, it is the earliest index with that
/// delta, and it exists exactly when some candidate survives.
pub proof fn lemma_best_index_is_closest(items: Seq<ItemModel>, target: u64, tol: i64)
    ensures
        spec_best_index(items, target, tol) is None ==> forall|j: int|
            0 <= j < items.len() ==> !spec_within(#[trigger] items[j].duration, target, tol),
        spec_best_index(items, target, tol) matches Some(i) ==> {
            &&& 0 <= i < items.len()
            &&& spec_within(items[i].duration, target, tol)
            &&& forall|j: int|
                0 <= j < items.len() && spec_within(#[trigger] items[j].duration, target, tol)
                    ==> spec_abs_diff(items[i].duration, target) <= spec_abs_diff(
                    items[j].duration,
                    target,
                )
            &&& forall|j: int|
                0 <= j < i && spec_within(#[trigger] items[j].duration, target, tol)
                    ==> spec_abs_diff(items[i].duration, target) < spec_abs_diff(
                    items[j].duration,
                    target,
                )
        },
    decreases items.len(),
{
    if items.len() > 0 {
        let prefix = items.drop_last();
        let n = items.len() - 1;
        lemma_best_index_is_closest(prefix, target, tol);
        assert(forall|j: int| 0 <= j < n ==> items[j] == #[trigger] prefix[j]);
        let prev = spec_best_index(prefix, target, tol);
        match spec_best_index(items, target, tol) {
            None => {
                assert forall|j: int| 0 <= j < items.len() implies !spec_within(
                    #[trigger] items[j].duration,
                    target,
                    tol,
                ) by {
                    if j < n {
                        assert(!spec_within(prefix[j].duration, target, tol));
                    }
                }
            },
            Some(i) => {
                assert forall|j: int|
                    0 <= j < items.len() && spec_within(
                        #[trigger] items[j].duration,
                        target,
                        tol,
                    ) implies spec_abs_diff(items[i].duration, target) <= spec_abs_diff(
                    items[j].duration,
                    target,
                ) by {
                    if j < n {
                        assert(spec_within(prefix[j].duration, target, tol));
                        match prev {
                            Some(p) => {
                                assert(spec_abs_diff(prefix[p].duration, target) <= spec_abs_diff(
                                    prefix[j].duration,
                                    target,
                                ));
                            },
                            None => {
                                assert(!spec_within(prefix[j].duration, target, tol));
                            },
                        }
                    }
                }
                assert forall|j: int|
                    0 <= j < i && spec_within(
                        #[trigger] items[j].duration,
                        target,
                        tol,
                    ) implies spec_abs_diff(items[i].duration, target) < spec_abs_diff(
                    items[j].duration,
                    target,
                ) by {
                    assert(spec_within(prefix[j].duration, target, tol));
                    match prev {
                        Some(p) => {
                            if j < p {
                                assert(spec_abs_diff(prefix[p].duration, target) < spec_abs_diff(
                                    prefix[j].duration,
                                    target,
                                ));
                            }
                        },
                        None => {
                            assert(!spec_within(prefix[j].duration, target, tol));
                        },
                    }
                }
            },
        }
    }
}

/// A delta exactly equal to a positive tolerance does not survive the
/// window: the comparison is strict.
pub proof fn lemma_boundary_excluded(dur: u64, target: u64, tol: i64)
    requires
        tol > 0,
        spec_abs_diff(dur, target) == tol,
    ensures
        !spec_within(dur, target, tol),
{
}

/// Picks the best candidate for the target duration (the Candidate
/// Selector). Returns the picked index and how many candidates survive the
/// tolerance window. With no target duration the first candidate of a
/// non-empty list is picked and nothing is filtered.
pub fn select(candidates: &Vec<LrclibItem>, target: Option<u64>, tolerance: i64) -> (r: (
    Option<usize>,
    usize,
))
    ensures
        r.0 matches Some(i) ==> spec_select(candidates.deep_view(), target, tolerance) == Some(
            i as int,
        ),
        r.0 is None <==> spec_select(candidates.deep_view(), target, tolerance) is None,
        r.1 == spec_survivors(candidates.deep_view(), target, tolerance),
        (match (r.0, target) {
            (Some(i), Some(d)) => {
                &&& i < candidates.len()
                &&& spec_within(candidates.deep_view()[i as int].duration, d, tolerance)
                &&& forall|j: int|
                    0 <= j < candidates.deep_view().len() && spec_within(
                        #[trigger] candidates.deep_view()[j].duration,
                        d,
                        tolerance,
                    ) ==> spec_abs_diff(candidates.deep_view()[i as int].duration, d)
                        <= spec_abs_diff(candidates.deep_view()[j].duration, d)
            },
            _ => true,
        }),
{
    let ghost cs = candidates.deep_view();
    proof {
        assert(cs.len() == candidates@.len());
        assert(forall|j: int| 0 <= j < cs.len() ==> cs[j] == candidates@[j]@);
    }
    match target {
        None => {
            if candidates.len() == 0 {
                (None, 0)
            } else {
                (Some(0), candidates.len())
            }
        },
        Some(d) => {
            let mut best: Option<usize> = None;
            let mut best_delta: u64 = 0;
            let mut count: usize = 0;
            let mut i: usize = 0;
            while i < candidates.len()
                invariant
                    i <= candidates.len(),
                    cs == candidates.deep_view(),
                    cs.len() == candidates@.len(),
                    forall|j: int| 0 <= j < cs.len() ==> cs[j] == candidates@[j]@,
                    count <= i,
                    count == spec_count_within(cs.take(i as int), d, tolerance),
                    (match best {
                        None => spec_best_index(cs.take(i as int), d, tolerance) is None,
                        Some(b) => {
                            &&& b < i
                            &&& spec_best_index(cs.take(i as int), d, tolerance) == Some(b as int)
                            &&& best_delta == spec_abs_diff(cs[b as int].duration, d)
                        },
                    }),
                decreases candidates.len() - i,
            {
                let item = &candidates[i];
                let delta = abs_diff(item.duration, d);
                let within = tolerance <= 0 || delta < (tolerance as u64);
                proof {
                    assert(within == spec_within(cs[i as int].duration, d, tolerance));
                    assert(cs.take(i + 1 as int).drop_last() =~= cs.take(i as int));
                    assert(cs.take(i + 1 as int).last() == cs[i as int]);
                }
                if within {
                    count = count + 1;
                    match best {
                        None => {
                            best = Some(i);
                            best_delta = delta;
                        },
                        Some(_) => {
                            if delta < best_delta {
                                best = Some(i);
                                best_delta = delta;
                            }
                        },
                    }
                }
                i = i + 1;
            }
            proof {
                assert(cs.take(candidates@.len() as int) =~= cs);
                lemma_best_index_is_closest(cs, d, tolerance);
            }
            (best, count)
        },
    }
}

} // verus!
