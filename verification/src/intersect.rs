//! Choosing the nearest of several hits.

use vstd::prelude::*;
use crate::scalar::{lemma_total_order_refines, lemma_total_order_separates, Scalar};

verus! {

/// `i` is the place of the first least key: no key is smaller in the total
/// order, and every key before it is larger.
pub open spec fn first_least(keys: Seq<Scalar>, i: int) -> bool {
    &&& 0 <= i < keys.len()
    &&& forall|j: int| 0 <= j < keys.len() ==> keys[i].total_ordinal() <= #[trigger] keys[j].total_ordinal()
    &&& forall|j: int| 0 <= j < i ==> keys[i].total_ordinal() < #[trigger] keys[j].total_ordinal()
}

/// The place of the nearest hit, given for each hit its squared distance from
/// the ray's origin. Distances are compared by the total order, so that a NaN
/// has its place too; of several equal distances the first wins. `None` when
/// there is no hit at all.
pub fn nearest(distances: &[Scalar]) -> (r: Option<usize>)
    ensures
        distances@.len() == 0 <==> r is None,
        r matches Some(i) ==> first_least(distances@, i as int),
{
    if distances.len() == 0 {
        return None;
    }
    let mut best: usize = 0;
    let mut best_key: i64 = distances[0].total_key();
    let mut k: usize = 1;
    while k < distances.len()
        invariant
            1 <= k <= distances@.len(),
            0 <= best < k,
            best_key == distances@[best as int].total_ordinal(),
            first_least(distances@.take(k as int), best as int),
        decreases distances@.len() - k,
    {
        let key: i64 = distances[k].total_key();
        if key < best_key {
            best = k;
            best_key = key;
        }
        k = k + 1;
    }
    assert(distances@.take(k as int) =~= distances@);
    Some(best)
}

/// A sequence of keys has at most one first least place.
pub proof fn lemma_first_least_unique(keys: Seq<Scalar>, i: int, j: int)
    requires
        first_least(keys, i),
        first_least(keys, j),
    ensures
        i == j,
{
    if i < j {
        assert(keys[j].total_ordinal() < keys[i].total_ordinal());
    } else if j < i {
        assert(keys[i].total_ordinal() < keys[j].total_ordinal());
    }
}

/// The nearest hit does not depend on the order in which the hits come: two
/// sequences with the same distances, each as often, have the same least one.
pub proof fn lemma_nearest_any_order(a: Seq<Scalar>, b: Seq<Scalar>, i: int, j: int)
    requires
        a.to_multiset() == b.to_multiset(),
        first_least(a, i),
        first_least(b, j),
    ensures
        a[i] == b[j],
{
    a.to_multiset_ensures();
    b.to_multiset_ensures();
    assert(a.contains(a[i]));
    assert(b.to_multiset().count(a[i]) > 0);
    let jj = choose|jj: int| 0 <= jj < b.len() && b[jj] == a[i];
    assert(b[j].total_ordinal() <= b[jj].total_ordinal());
    assert(b.contains(b[j]));
    assert(a.to_multiset().count(b[j]) > 0);
    let ii = choose|ii: int| 0 <= ii < a.len() && a[ii] == b[j];
    assert(a[i].total_ordinal() <= a[ii].total_ordinal());
    lemma_total_order_separates(a[i], b[j]);
}

/// The nearest of two groups of hits taken together is the nearer of the
/// nearest of each, and on a tie that of the first group. So a scene within
/// a scene reports what its entities would report in the outer scene's place.
pub proof fn lemma_nearest_of_groups(a: Seq<Scalar>, b: Seq<Scalar>, i: int, j: int)
    requires
        first_least(a, i),
        first_least(b, j),
    ensures
        first_least(
            a + b,
            if b[j].total_ordinal() < a[i].total_ordinal() {
                a.len() + j
            } else {
                i
            },
        ),
{
    let all = a + b;
    assert forall|k: int| 0 <= k < a.len() implies all[k] == a[k] by {}
    assert forall|k: int| a.len() <= k < all.len() implies all[k] == b[k - a.len()] by {}
    assert(all[a.len() + j] == b[j]);
    assert(all[i] == a[i]);
    assert forall|k: int| 0 <= k < all.len() implies a[i].total_ordinal() <= (#[trigger] all[k]).total_ordinal()
        || b[j].total_ordinal() <= all[k].total_ordinal() by {
        if k < a.len() {
            assert(a[i].total_ordinal() <= a[k].total_ordinal());
        } else {
            assert(b[j].total_ordinal() <= b[k - a.len()].total_ordinal());
        }
    }
    assert forall|k: int| a.len() <= k < a.len() + j implies b[j].total_ordinal() < (#[trigger] all[k]).total_ordinal() by {
        assert(b[j].total_ordinal() < b[k - a.len()].total_ordinal());
    }
}

/// Where every distance is a number, no hit is nearer than the nearest.
pub proof fn lemma_nearest_is_least(keys: Seq<Scalar>, i: int, j: int)
    requires
        first_least(keys, i),
        0 <= j < keys.len(),
        !keys[i].nan(),
        !keys[j].nan(),
    ensures
        !keys[j].below(keys[i]),
{
    assert(keys[i].total_ordinal() <= keys[j].total_ordinal());
    lemma_total_order_refines(keys[j], keys[i]);
}

} // verus!
