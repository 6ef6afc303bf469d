//! Selection by priority: of a list of candidates, the first that exists.

use crate::paths::{is_listed, location_views, opt_location, Location, LocationView};
use vstd::prelude::*;

verus! {

/// Whether `i` is the place of the first candidate that exists.
pub open spec fn is_first_hit(
    candidates: Seq<LocationView>,
    existing: Seq<LocationView>,
    i: int,
) -> bool {
    &&& 0 <= i < candidates.len()
    &&& existing.contains(candidates[i])
    &&& forall|j: int| 0 <= j < i ==> !existing.contains(#[trigger] candidates[j])
}

/// The place of the first candidate that exists, if any does.
pub open spec fn first_hit(candidates: Seq<LocationView>, existing: Seq<LocationView>) -> Option<
    int,
> {
    if exists|i: int| is_first_hit(candidates, existing, i) {
        Some(choose|i: int| is_first_hit(candidates, existing, i))
    } else {
        None
    }
}

/// The first candidate that exists, if any does.
pub open spec fn first_found(candidates: Seq<LocationView>, existing: Seq<LocationView>) -> Option<
    LocationView,
> {
    match first_hit(candidates, existing) {
        Some(i) => Some(candidates[i]),
        None => None,
    }
}

/// The place of a hit as an integer.
pub open spec fn opt_index(index: Option<usize>) -> Option<int> {
    match index {
        Some(i) => Some(i as int),
        None => None,
    }
}

/// There is at most one first hit.
pub proof fn lemma_first_hit_is_unique(
    candidates: Seq<LocationView>,
    existing: Seq<LocationView>,
    i: int,
    k: int,
)
    requires
        is_first_hit(candidates, existing, i),
        is_first_hit(candidates, existing, k),
    ensures
        i == k,
{
    if i < k {
        assert(!existing.contains(candidates[i]));
    } else if k < i {
        assert(!existing.contains(candidates[k]));
    }
}

/// Selects among `candidates`, which are in priority order, the first that
/// is among `existing`: never a later one, whichever others exist too.
pub fn first_existing(candidates: &Vec<Location>, existing: &Vec<Location>) -> (r: Option<usize>)
    ensures
        opt_index(r) == first_hit(location_views(candidates@), location_views(existing@)),
        match r {
            Some(i) => is_first_hit(
                location_views(candidates@),
                location_views(existing@),
                i as int,
            ),
            None => forall|j: int|
                0 <= j < candidates.len() ==> !location_views(existing@).contains(
                    #[trigger] location_views(candidates@)[j],
                ),
        },
{
    let ghost cands = location_views(candidates@);
    let ghost found = location_views(existing@);
    let mut i: usize = 0;
    while i < candidates.len()
        invariant
            i <= candidates.len(),
            cands == location_views(candidates@),
            found == location_views(existing@),
            forall|j: int| 0 <= j < i ==> !found.contains(#[trigger] cands[j]),
        decreases candidates.len() - i,
    {
        if is_listed(existing, &candidates[i]) {
            proof {
                assert(is_first_hit(cands, found, i as int));
                let k = choose|k: int| is_first_hit(cands, found, k);
                lemma_first_hit_is_unique(cands, found, i as int, k);
            }
            return Some(i);
        }
        i = i + 1;
    }
    proof {
        assert forall|k: int| !is_first_hit(cands, found, k) by {
            if 0 <= k < cands.len() {
                assert(!found.contains(cands[k]));
            }
        }
    }
    None
}

/// The first of `candidates` that is among `existing`.
pub(crate) fn pick(candidates: &Vec<Location>, existing: &Vec<Location>) -> (r: Option<Location>)
    ensures
        opt_location(r) == first_found(location_views(candidates@), location_views(existing@)),
{
    match first_existing(candidates, existing) {
        Some(i) => Some(candidates[i].duplicate()),
        None => None,
    }
}

/// `location`, where it is known and exists.
pub open spec fn if_found(location: Option<LocationView>, existing: Seq<LocationView>) -> Option<
    LocationView,
> {
    match location {
        Some(l) => if existing.contains(l) {
            Some(l)
        } else {
            None
        },
        None => None,
    }
}

/// `location`, where it is known and among `existing`.
pub(crate) fn keep_found(location: Option<Location>, existing: &Vec<Location>) -> (r: Option<
    Location,
>)
    ensures
        opt_location(r) == if_found(opt_location(location), location_views(existing@)),
{
    match location {
        Some(l) => if is_listed(existing, &l) {
            Some(l)
        } else {
            None
        },
        None => None,
    }
}

/// Among candidates of which one exists there is a first that exists.
pub proof fn lemma_some_hit_has_a_first(
    candidates: Seq<LocationView>,
    existing: Seq<LocationView>,
    i: int,
)
    requires
        0 <= i < candidates.len(),
        existing.contains(candidates[i]),
    ensures
        exists|k: int| 0 <= k <= i && is_first_hit(candidates, existing, k),
    decreases i,
{
    if exists|j: int| 0 <= j < i && existing.contains(#[trigger] candidates[j]) {
        let j = choose|j: int| 0 <= j < i && existing.contains(#[trigger] candidates[j]);
        lemma_some_hit_has_a_first(candidates, existing, j);
        let k = choose|k: int| 0 <= k <= j && is_first_hit(candidates, existing, k);
        assert(0 <= k <= i && is_first_hit(candidates, existing, k));
    } else {
        assert(is_first_hit(candidates, existing, i));
    }
}

/// Priority order: the candidate selected is the first that exists. No
/// candidate before it exists, and where any candidate exists, one is
/// selected that does not come after it.
pub proof fn lemma_selection_follows_priority(
    candidates: Seq<LocationView>,
    existing: Seq<LocationView>,
)
    ensures
        match first_hit(candidates, existing) {
            Some(k) => is_first_hit(candidates, existing, k) && first_found(candidates, existing)
                == Some(candidates[k]),
            None => forall|i: int|
                0 <= i < candidates.len() ==> !existing.contains(#[trigger] candidates[i]),
        },
        forall|i: int|
            0 <= i < candidates.len() && existing.contains(#[trigger] candidates[i]) ==> (
            first_hit(candidates, existing) matches Some(k) && k <= i),
{
    assert forall|i: int|
        0 <= i < candidates.len() && existing.contains(#[trigger] candidates[i]) implies (
    first_hit(candidates, existing) matches Some(k) && k <= i) by {
        lemma_some_hit_has_a_first(candidates, existing, i);
        let k = choose|k: int| 0 <= k <= i && is_first_hit(candidates, existing, k);
        let chosen = choose|c: int| is_first_hit(candidates, existing, c);
        lemma_first_hit_is_unique(candidates, existing, k, chosen);
    }
}

/// Which candidate is selected depends only on which of the candidates
/// exist.
pub proof fn lemma_selection_reads_candidates_only(
    candidates: Seq<LocationView>,
    a: Seq<LocationView>,
    b: Seq<LocationView>,
)
    requires
        forall|i: int|
            0 <= i < candidates.len() ==> (a.contains(#[trigger] candidates[i]) <==> b.contains(
                candidates[i],
            )),
    ensures
        first_hit(candidates, a) == first_hit(candidates, b),
        first_found(candidates, a) == first_found(candidates, b),
{
    if exists|i: int| is_first_hit(candidates, a, i) {
        let i = choose|i: int| is_first_hit(candidates, a, i);
        assert(is_first_hit(candidates, b, i)) by {
            assert(b.contains(candidates[i]));
            assert forall|j: int| 0 <= j < i implies !b.contains(#[trigger] candidates[j]) by {
                assert(!a.contains(candidates[j]));
            }
        }
        let k = choose|k: int| is_first_hit(candidates, b, k);
        lemma_first_hit_is_unique(candidates, b, i, k);
    } else {
        assert forall|k: int| !is_first_hit(candidates, b, k) by {
            if is_first_hit(candidates, b, k) {
                assert(a.contains(candidates[k]));
                assert forall|j: int| 0 <= j < k implies !a.contains(#[trigger] candidates[j]) by {
                    assert(!b.contains(candidates[j]));
                }
                assert(is_first_hit(candidates, a, k));
            }
        }
    }
}

} // verus!
