//! The world: which of its surfaces is hit first.
//!
//! Each surface of the world reports at most one hit for a ray. The caller
//! gathers their parameters, in the order in which the surfaces were added,
//! and learns here which one to keep.
use vstd::prelude::*;
use crate::scalar::Scalar;

verus! {

/// The index kept by a scan from the left that replaces what it holds
/// whenever a hit's parameter is less than the held one.
pub open spec fn spec_nearest(hits: Seq<Option<Scalar>>) -> Option<int>
    decreases hits.len(),
{
    if hits.len() == 0 {
        None
    } else {
        let before = spec_nearest(hits.drop_last());
        match (hits.last(), before) {
            (None, _) => before,
            (Some(_), None) => Some(hits.len() - 1),
            (Some(t), Some(i)) => if t.lt(hits[i].unwrap()) {
                Some(hits.len() - 1)
            } else {
                before
            },
        }
    }
}

/// Whether every reported parameter is a number.
pub open spec fn all_numbers(hits: Seq<Option<Scalar>>) -> bool {
    forall|j: int| 0 <= j < hits.len() && hits[j] is Some ==> !(#[trigger] hits[j]).unwrap().is_nan()
}

/// Whether `i` is the first hit that no other hit is nearer than.
pub open spec fn is_first_nearest(hits: Seq<Option<Scalar>>, i: int) -> bool {
    &&& 0 <= i < hits.len()
    &&& hits[i] is Some
    &&& forall|j: int|
        0 <= j < hits.len() && hits[j] is Some ==> hits[i].unwrap().rank() <= (
        #[trigger] hits[j]).unwrap().rank()
    &&& forall|j: int|
        0 <= j < i && hits[j] is Some ==> hits[i].unwrap().rank() < (#[trigger] hits[j]).unwrap().rank()
}

/// The scan keeps an index of the sequence at which there is a hit, and keeps
/// none only where there is no hit at all.
pub proof fn lemma_nearest_is_a_hit(hits: Seq<Option<Scalar>>)
    ensures
        spec_nearest(hits) matches Some(i) ==> 0 <= i < hits.len() && hits[i] is Some,
        spec_nearest(hits) is None <==> forall|j: int| 0 <= j < hits.len() ==> hits[j] is None,
    decreases hits.len(),
{
    if hits.len() > 0 {
        let front = hits.drop_last();
        lemma_nearest_is_a_hit(front);
        assert(forall|j: int| 0 <= j < front.len() ==> front[j] == hits[j]);
        if spec_nearest(hits) is None {
            assert(hits.last() is None);
            assert forall|j: int| 0 <= j < hits.len() implies hits[j] is None by {
                if j < front.len() {
                    assert(front[j] is None);
                }
            }
        }
    }
}

/// Where every parameter is a number, the scan keeps the first of the nearest
/// hits.
pub proof fn lemma_nearest_is_first_minimum(hits: Seq<Option<Scalar>>)
    requires
        all_numbers(hits),
    ensures
        spec_nearest(hits) matches Some(i) ==> is_first_nearest(hits, i),
    decreases hits.len(),
{
    lemma_nearest_is_a_hit(hits);
    if hits.len() > 0 {
        let front = hits.drop_last();
        assert(forall|j: int| 0 <= j < front.len() ==> front[j] == hits[j]);
        assert(all_numbers(front)) by {
            assert forall|j: int| 0 <= j < front.len() && front[j] is Some implies !(
            #[trigger] front[j]).unwrap().is_nan() by {
                assert(front[j] == hits[j]);
            }
        }
        lemma_nearest_is_first_minimum(front);
        lemma_nearest_is_a_hit(front);
        match spec_nearest(hits) {
            None => {},
            Some(i) => {
                assert forall|j: int| 0 <= j < hits.len() && hits[j] is Some implies hits[i].unwrap().rank()
                    <= (#[trigger] hits[j]).unwrap().rank() by {
                    if j < front.len() {
                        assert(front[j] == hits[j]);
                    }
                }
                assert forall|j: int| 0 <= j < i && hits[j] is Some implies hits[i].unwrap().rank() < (
                #[trigger] hits[j]).unwrap().rank() by {
                    if j < front.len() {
                        assert(front[j] == hits[j]);
                    }
                }
            },
        }
    }
}

/// Whether every hit of `a` is also a hit of `b`.
pub open spec fn hits_among(a: Seq<Option<Scalar>>, b: Seq<Option<Scalar>>) -> bool {
    forall|j: int|
        0 <= j < a.len() && a[j] is Some ==> exists|k: int|
            0 <= k < b.len() && #[trigger] b[k] == #[trigger] a[j]
}

/// The order in which the surfaces were added does not change how near the
/// kept hit is: two worlds that report the same hits, in whatever order,
/// keep hits of the same rank, and one keeps a hit exactly when the other
/// does. Only which of several equally near surfaces is kept depends on the
/// order.
pub proof fn lemma_order_of_surfaces_is_irrelevant(
    a: Seq<Option<Scalar>>,
    b: Seq<Option<Scalar>>,
)
    requires
        all_numbers(a),
        all_numbers(b),
        hits_among(a, b),
        hits_among(b, a),
    ensures
        spec_nearest(a) is Some <==> spec_nearest(b) is Some,
        spec_nearest(a) matches Some(i) ==> a[i].unwrap().rank() == b[spec_nearest(
            b,
        ).unwrap()].unwrap().rank(),
{
    lemma_nearest_is_a_hit(a);
    lemma_nearest_is_a_hit(b);
    lemma_nearest_is_first_minimum(a);
    lemma_nearest_is_first_minimum(b);
    if spec_nearest(a) is Some {
        let i = spec_nearest(a).unwrap();
        let k = choose|k: int| 0 <= k < b.len() && #[trigger] b[k] == a[i];
        assert(b[k] is Some);
        let j = spec_nearest(b).unwrap();
        assert(is_first_nearest(b, j));
        assert(b[j].unwrap().rank() <= b[k].unwrap().rank());
        let m = choose|m: int| 0 <= m < a.len() && #[trigger] a[m] == b[j];
        assert(a[i].unwrap().rank() <= a[m].unwrap().rank());
    } else if spec_nearest(b) is Some {
        let j = spec_nearest(b).unwrap();
        let m = choose|m: int| 0 <= m < a.len() && #[trigger] a[m] == b[j];
        assert(a[m] is Some);
    }
}

/// Of two surfaces hit by one ray, the one with the smaller parameter is
/// kept, and the first where the parameters are equal.
pub proof fn lemma_nearer_of_two(a: Scalar, b: Scalar)
    requires
        !a.is_nan(),
        !b.is_nan(),
    ensures
        spec_nearest(seq![Some(a), Some(b)]) == Some(
            if b.rank() < a.rank() {
                1int
            } else {
                0int
            },
        ),
{
    let hits = seq![Some(a), Some(b)];
    let front = hits.drop_last();
    assert(front =~= seq![Some(a)]);
    assert(front.drop_last() =~= Seq::<Option<Scalar>>::empty());
    reveal_with_fuel(spec_nearest, 3);
}

/// The nearest hit: the index of the surface to keep, or none where no
/// surface is hit. The hits are scanned in order, and a later one replaces
/// the one held only where its parameter is less, so that of equally near
/// hits the first is kept. Where every parameter is a number, the kept hit is
/// the first that none is nearer than.
pub fn nearest(hits: &Vec<Option<Scalar>>) -> (r: Option<usize>)
    ensures
        match r {
            Some(i) => spec_nearest(hits@) == Some(i as int),
            None => spec_nearest(hits@) is None,
        },
        r is None <==> forall|j: int| 0 <= j < hits@.len() ==> hits@[j] is None,
        r matches Some(i) ==> i < hits@.len() && hits@[i as int] is Some,
        all_numbers(hits@) ==> (r matches Some(i) ==> is_first_nearest(hits@, i as int)),
{
    let mut best: Option<usize> = None;
    let mut k: usize = 0;
    proof {
        assert(hits@.take(0) =~= Seq::<Option<Scalar>>::empty());
    }
    while k < hits.len()
        invariant
            0 <= k <= hits@.len(),
            best is Some == spec_nearest(hits@.take(k as int)) is Some,
            best matches Some(i) ==> spec_nearest(hits@.take(k as int)) == Some(i as int) && i < k
                && hits@[i as int] is Some,
        decreases hits@.len() - k,
    {
        proof {
            let upto = hits@.take(k as int + 1);
            assert(upto.drop_last() =~= hits@.take(k as int));
            assert(upto.last() == hits@[k as int]);
            lemma_nearest_is_a_hit(hits@.take(k as int));
        }
        match hits[k] {
            None => {},
            Some(t) => {
                match best {
                    None => {
                        best = Some(k);
                    },
                    Some(i) => {
                        let held = hits[i];
                        match held {
                            Some(u) => {
                                if t.lt(u) {
                                    best = Some(k);
                                }
                            },
                            None => {},
                        }
                    },
                }
            },
        }
        k = k + 1;
    }
    proof {
        assert(hits@.take(k as int) =~= hits@);
        lemma_nearest_is_a_hit(hits@);
        if all_numbers(hits@) {
            lemma_nearest_is_first_minimum(hits@);
        }
    }
    best
}

} // verus!
