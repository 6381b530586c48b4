//! Choosing among clusters: which clusters are big enough to keep and which
//! one is the biggest.
use vstd::prelude::*;

verus! {

/// The positions, in order, of the clusters with at least `min_points`
/// points.
pub open spec fn kept_indices(sizes: Seq<usize>, min_points: usize) -> Seq<usize>
    decreases sizes.len(),
{
    if sizes.len() == 0 {
        Seq::empty()
    } else {
        let rest = kept_indices(sizes.drop_last(), min_points);
        if sizes.last() >= min_points {
            rest.push((sizes.len() - 1) as usize)
        } else {
            rest
        }
    }
}

/// The size of the cluster at a position, or zero for none.
pub open spec fn size_at(sizes: Seq<usize>, best: Option<usize>) -> int {
    match best {
        Some(i) => sizes[i as int] as int,
        None => 0,
    }
}

/// The first of the biggest clusters, scanning in order and moving only to a
/// strictly bigger one; none while every cluster is empty.
pub open spec fn best_index(sizes: Seq<usize>) -> Option<usize>
    decreases sizes.len(),
{
    if sizes.len() == 0 {
        None
    } else {
        let b = best_index(sizes.drop_last());
        if sizes.last() > size_at(sizes.drop_last(), b) {
            Some((sizes.len() - 1) as usize)
        } else {
            b
        }
    }
}

/// The clusters kept and the biggest one, from the clusters' sizes in the
/// order they are visited.
pub fn select_clusters(sizes: &Vec<usize>, min_points: usize) -> (r: (Vec<usize>, Option<usize>))
    ensures
        r.0@ == kept_indices(sizes@, min_points),
        r.1 == best_index(sizes@),
{
    let mut kept: Vec<usize> = Vec::new();
    let mut best: Option<usize> = None;
    let mut best_count: usize = 0;
    let n = sizes.len();
    for i in 0..n
        invariant
            n == sizes@.len(),
            kept@ == kept_indices(sizes@.take(i as int), min_points),
            best == best_index(sizes@.take(i as int)),
            best_count == size_at(sizes@.take(i as int), best),
            best matches Some(b) ==> b < i,
    {
        let ghost t = sizes@.take(i + 1);
        assert(t.drop_last() == sizes@.take(i as int));
        let c = sizes[i];
        if c > best_count {
            best = Some(i);
            best_count = c;
        }
        if c >= min_points {
            kept.push(i);
        }
    }
    assert(sizes@.take(n as int) == sizes@);
    (kept, best)
}

/// The chosen cluster is a biggest one and comes before every other of its
/// size; no cluster is chosen only when all are empty.
pub proof fn lemma_best_is_first_maximum(sizes: Seq<usize>)
    requires
        sizes.len() <= usize::MAX,
    ensures
        best_index(sizes) is None <==> forall|j: int| 0 <= j < sizes.len() ==> sizes[j] == 0,
        best_index(sizes) matches Some(b) ==> {
            &&& b < sizes.len()
            &&& forall|j: int| 0 <= j < sizes.len() ==> sizes[j] <= sizes[b as int]
            &&& forall|j: int| 0 <= j < b ==> sizes[j] < sizes[b as int]
        },
    decreases sizes.len(),
{
    if sizes.len() > 0 {
        let s0 = sizes.drop_last();
        let n = sizes.len() - 1;
        lemma_best_is_first_maximum(s0);
        let b0 = best_index(s0);
        assert forall|j: int| 0 <= j < n implies s0[j] == sizes[j] by {}
        if sizes.last() > size_at(s0, b0) {
            assert(best_index(sizes) == Some(n as usize));
            assert forall|j: int| 0 <= j < n implies sizes[j] < sizes[n] by {
                match b0 {
                    Some(b) => assert(s0[j] <= s0[b as int]),
                    None => assert(s0[j] == 0),
                }
            }
        } else {
            assert(best_index(sizes) == b0);
            match b0 {
                Some(b) => {
                    assert(sizes[b as int] == s0[b as int]);
                    assert forall|j: int| 0 <= j < sizes.len() implies sizes[j] <= sizes[b as int] by {
                        if j < n {
                            assert(s0[j] <= s0[b as int]);
                        }
                    }
                    assert forall|j: int| 0 <= j < b implies sizes[j] < sizes[b as int] by {
                        assert(s0[j] < s0[b as int]);
                    }
                },
                None => {
                    assert forall|j: int| 0 <= j < sizes.len() implies sizes[j] == 0 by {
                        if j < n {
                            assert(s0[j] == 0);
                        }
                    }
                },
            }
        }
    }
}

/// The kept clusters are exactly those with at least `min_points` points, in
/// order.
pub proof fn lemma_kept_are_big_enough(sizes: Seq<usize>, min_points: usize)
    requires
        sizes.len() <= usize::MAX,
    ensures
        forall|k: int|
            0 <= k < kept_indices(sizes, min_points).len() ==> #[trigger] kept_indices(
                sizes,
                min_points,
            )[k] < sizes.len() && sizes[kept_indices(sizes, min_points)[k] as int] >= min_points,
        forall|j: int|
            0 <= j < sizes.len() && sizes[j] >= min_points ==> #[trigger] kept_indices(
                sizes,
                min_points,
            ).contains(j as usize),
        forall|k1: int, k2: int|
            0 <= k1 < k2 < kept_indices(sizes, min_points).len() ==> #[trigger] kept_indices(
                sizes,
                min_points,
            )[k1] < #[trigger] kept_indices(sizes, min_points)[k2],
    decreases sizes.len(),
{
    if sizes.len() > 0 {
        let s0 = sizes.drop_last();
        let n = sizes.len() - 1;
        lemma_kept_are_big_enough(s0, min_points);
        let rest = kept_indices(s0, min_points);
        let full = kept_indices(sizes, min_points);
        assert forall|j: int| 0 <= j < n implies s0[j] == sizes[j] by {}
        if sizes.last() >= min_points {
            assert(full == rest.push(n as usize));
            assert forall|k: int| 0 <= k < full.len() implies #[trigger] full[k] < sizes.len()
                && sizes[full[k] as int] >= min_points by {
                if k < rest.len() {
                    assert(full[k] == rest[k]);
                    assert(rest[k] < s0.len());
                }
            }
            assert forall|j: int| 0 <= j < sizes.len() && sizes[j] >= min_points implies #[trigger] full.contains(
                j as usize,
            ) by {
                if j < n {
                    assert(s0[j] >= min_points);
                    assert(rest.contains(j as usize));
                    let k = choose|k: int| 0 <= k < rest.len() && rest[k] == j as usize;
                    assert(full[k] == j as usize);
                } else {
                    assert(full[rest.len() as int] == j as usize);
                }
            }
            assert forall|k1: int, k2: int| 0 <= k1 < k2 < full.len() implies #[trigger] full[k1]
                < #[trigger] full[k2] by {
                if k2 < rest.len() {
                    assert(full[k1] == rest[k1] && full[k2] == rest[k2]);
                } else {
                    assert(full[k1] == rest[k1]);
                    assert(rest[k1] < s0.len());
                }
            }
        } else {
            assert(full == rest);
            assert forall|j: int| 0 <= j < sizes.len() && sizes[j] >= min_points implies #[trigger] full.contains(
                j as usize,
            ) by {
                assert(j < n);
                assert(s0[j] >= min_points);
            }
            assert forall|k: int| 0 <= k < full.len() implies #[trigger] full[k] < sizes.len()
                && sizes[full[k] as int] >= min_points by {
                assert(rest[k] < s0.len());
            }
        }
    }
}

} // verus!
