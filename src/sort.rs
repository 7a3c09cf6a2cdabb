use vstd::prelude::*;
use vstd::relations::{sorted_by, total_ordering};
use vstd::seq_lib::{lemma_sorted_unique, to_multiset_build};

verus! {

/// The order on keys.
pub open spec fn key_leq() -> spec_fn(u64, u64) -> bool {
    |x: u64, y: u64| x <= y
}

/// Every element is at most each element that follows it.
pub open spec fn ascending(s: Seq<u64>) -> bool {
    forall|i: int, j: int| 0 <= i < j < s.len() ==> s[i] <= s[j]
}

/// The ascending arrangement of a sequence of keys.
pub open spec fn sorted_keys(s: Seq<u64>) -> Seq<u64> {
    s.sort_by(key_leq())
}

/// `sorted_keys(s)` is ascending and holds the elements of `s`, and it is the
/// only sequence that does both.
pub proof fn lemma_sorted_keys(s: Seq<u64>)
    ensures
        ascending(sorted_keys(s)),
        sorted_keys(s).to_multiset() == s.to_multiset(),
        sorted_keys(s).len() == s.len(),
        forall|t: Seq<u64>|
            ascending(t) && t.to_multiset() == s.to_multiset() ==> t == sorted_keys(s),
{
    let leq = key_leq();
    assert(total_ordering(leq));
    s.lemma_sort_by_ensures(leq);
    let t0 = sorted_keys(s);
    assert(sorted_by(t0, leq));
    assert forall|i: int, j: int| 0 <= i < j < t0.len() implies t0[i] <= t0[j] by {
        assert(leq(t0[i], t0[j]));
    }
    t0.to_multiset_ensures();
    s.to_multiset_ensures();
    assert forall|t: Seq<u64>|
        ascending(t) && t.to_multiset() == s.to_multiset() implies t == sorted_keys(s) by {
        assert(sorted_by(t, leq)) by {
            assert forall|i: int, j: int| 0 <= i < j < t.len() implies #[trigger] leq(
                t[i],
                t[j],
            ) by {}
        }
        lemma_sorted_unique(t, t0, leq);
    }
}

/// Sorting a sequence of keys depends only on which keys it holds.
pub proof fn lemma_sorted_keys_of_permutation(a: Seq<u64>, b: Seq<u64>)
    requires
        a.to_multiset() == b.to_multiset(),
    ensures
        sorted_keys(a) == sorted_keys(b),
{
    lemma_sorted_keys(a);
    lemma_sorted_keys(b);
}

/// Merges two ascending vectors into one ascending vector that holds the
/// elements of both.
fn merge(a: &Vec<u64>, b: &Vec<u64>) -> (r: Vec<u64>)
    requires
        ascending(a@),
        ascending(b@),
        a@.len() + b@.len() <= usize::MAX,
    ensures
        ascending(r@),
        r@.to_multiset() == a@.to_multiset().add(b@.to_multiset()),
{
    broadcast use vstd::seq_lib::group_to_multiset_ensures, vstd::multiset::group_multiset_axioms;

    let mut r: Vec<u64> = Vec::with_capacity(a.len() + b.len());
    let mut i: usize = 0;
    let mut j: usize = 0;
    proof {
        assert(a@.subrange(0, 0) =~= Seq::<u64>::empty());
        assert(b@.subrange(0, 0) =~= Seq::<u64>::empty());
        assert(r@ =~= Seq::<u64>::empty());
        assert(r@.to_multiset() =~= a@.subrange(0, 0).to_multiset().add(
            b@.subrange(0, 0).to_multiset(),
        ));
    }
    while i < a.len() || j < b.len()
        invariant
            ascending(a@),
            ascending(b@),
            i <= a@.len(),
            j <= b@.len(),
            r@.len() == i + j,
            ascending(r@),
            r@.to_multiset() == a@.subrange(0, i as int).to_multiset().add(
                b@.subrange(0, j as int).to_multiset(),
            ),
            forall|k: int| 0 <= k < r@.len() && i < a@.len() ==> r@[k] <= a@[i as int],
            forall|k: int| 0 <= k < r@.len() && j < b@.len() ==> r@[k] <= b@[j as int],
        decreases a@.len() + b@.len() - i - j,
    {
        let take_a = j >= b.len() || (i < a.len() && a[i] <= b[j]);
        if take_a {
            let x = a[i];
            proof {
                assert(a@.subrange(0, i + 1) =~= a@.subrange(0, i as int).push(x));
                to_multiset_build(a@.subrange(0, i as int), x);
                to_multiset_build(r@, x);
            }
            r.push(x);
            i = i + 1;
        } else {
            let x = b[j];
            proof {
                assert(b@.subrange(0, j + 1) =~= b@.subrange(0, j as int).push(x));
                to_multiset_build(b@.subrange(0, j as int), x);
                to_multiset_build(r@, x);
            }
            r.push(x);
            j = j + 1;
        }
        proof {
            assert(r@.to_multiset() =~= a@.subrange(0, i as int).to_multiset().add(
                b@.subrange(0, j as int).to_multiset(),
            ));
        }
    }
    proof {
        assert(a@.subrange(0, i as int) =~= a@);
        assert(b@.subrange(0, j as int) =~= b@);
    }
    r
}

/// Sorts the keys of `v` between `lo` and `hi` into a new ascending vector.
fn sort_range(v: &Vec<u64>, lo: usize, hi: usize) -> (r: Vec<u64>)
    requires
        lo <= hi <= v@.len(),
    ensures
        ascending(r@),
        r@.to_multiset() == v@.subrange(lo as int, hi as int).to_multiset(),
    decreases hi - lo,
{
    if hi - lo <= 1 {
        let mut r: Vec<u64> = Vec::new();
        if lo < hi {
            r.push(v[lo]);
        }
        proof {
            assert(r@ =~= v@.subrange(lo as int, hi as int));
        }
        r
    } else {
        let mid = lo + (hi - lo) / 2;
        let left = sort_range(v, lo, mid);
        let right = sort_range(v, mid, hi);
        proof {
            left@.to_multiset_ensures();
            right@.to_multiset_ensures();
            v@.subrange(lo as int, mid as int).to_multiset_ensures();
            v@.subrange(mid as int, hi as int).to_multiset_ensures();
            assert(v@.subrange(lo as int, hi as int) =~= v@.subrange(lo as int, mid as int)
                + v@.subrange(mid as int, hi as int));
            vstd::seq_lib::lemma_multiset_commutative(
                v@.subrange(lo as int, mid as int),
                v@.subrange(mid as int, hi as int),
            );
        }
        merge(&left, &right)
    }
}

/// Returns the keys of `v` in ascending order, in a new vector; `v` itself is
/// left as it was.
pub fn sorted_copy(v: &Vec<u64>) -> (r: Vec<u64>)
    ensures
        r@ == sorted_keys(v@),
{
    let r = sort_range(v, 0, v.len());
    proof {
        assert(v@.subrange(0, v@.len() as int) =~= v@);
        lemma_sorted_keys(v@);
    }
    r
}

} // verus!
