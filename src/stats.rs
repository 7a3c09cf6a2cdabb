use vstd::prelude::*;
use crate::sort::{ascending, lemma_sorted_keys, lemma_sorted_keys_of_permutation, sorted_copy, sorted_keys};

verus! {

/// Order statistics of a non-empty sample, each one a key of the sample.
///
/// The median is given by its two middle elements: for an odd count they are
/// the same element, for an even count the mean of the two is the median.
#[derive(Clone, Copy, Debug, PartialEq, Eq, Structural)]
pub struct Statistics {
    pub count: usize,
    pub min: u64,
    pub max: u64,
    pub median_low: u64,
    pub median_high: u64,
    pub percentile_90: u64,
    pub percentile_99: u64,
}

/// The nearest-rank index by truncation: `floor(n * per_hundred / 100)`.
pub open spec fn rank_at(n: int, per_hundred: int) -> int {
    n * per_hundred / 100
}

/// The position of the lower middle element of `n` sorted elements.
pub open spec fn median_low_at(n: int) -> int {
    (n - 1) / 2
}

/// The position of the upper middle element of `n` sorted elements.
pub open spec fn median_high_at(n: int) -> int {
    n / 2
}

/// The report of a non-empty sample, read off its ascending arrangement.
pub open spec fn statistics_of(s: Seq<u64>) -> Statistics
    recommends
        s.len() > 0,
{
    let t = sorted_keys(s);
    let n = s.len() as int;
    Statistics {
        count: n as usize,
        min: t[0],
        max: t[n - 1],
        median_low: t[median_low_at(n)],
        median_high: t[median_high_at(n)],
        percentile_90: t[rank_at(n, 90)],
        percentile_99: t[rank_at(n, 99)],
    }
}

/// What `calculate_statistics` returns: nothing for an empty sample, the
/// report otherwise.
pub open spec fn report_of(s: Seq<u64>) -> Option<Statistics> {
    if s.len() == 0 {
        None
    } else {
        Some(statistics_of(s))
    }
}

proof fn lemma_positions_in_range(n: int)
    requires
        n >= 1,
    ensures
        0 <= median_low_at(n) <= median_high_at(n) < n,
        0 <= rank_at(n, 90) <= rank_at(n, 99) < n,
        n % 2 == 1 ==> median_low_at(n) == median_high_at(n),
        n % 2 == 0 ==> median_low_at(n) == n / 2 - 1,
{
    assert(0 <= n * 90 / 100 <= n * 99 / 100 < n) by (nonlinear_arith)
        requires
            n >= 1,
    ;
}

/// The index `floor(n * per_hundred / 100)` into `n` sorted elements; for a
/// per-hundred below 100 it is always a valid index.
pub fn percentile_index(n: usize, per_hundred: usize) -> (r: usize)
    requires
        per_hundred <= 100,
    ensures
        r == rank_at(n as int, per_hundred as int),
        per_hundred < 100 && n > 0 ==> r < n,
{
    let q = n / 100;
    let m = n % 100;
    proof {
        assert(n as int == 100 * q + m);
        assert(q * per_hundred <= q * 100) by (nonlinear_arith)
            requires
                per_hundred <= 100,
        ;
        assert(m * per_hundred <= 99 * 100) by (nonlinear_arith)
            requires
                m < 100,
                per_hundred <= 100,
        ;
        assert((100 * q + m) * per_hundred / 100 == q * per_hundred + m * per_hundred / 100)
            by (nonlinear_arith)
            requires
                m >= 0,
                q >= 0,
                per_hundred >= 0,
        ;
        assert(per_hundred < 100 && n > 0 ==> n * per_hundred / 100 < n) by (nonlinear_arith);
    }
    q * per_hundred + m * per_hundred / 100
}

/// The positions of the two middle elements of `n` sorted elements: the same
/// position when `n` is odd, `n / 2 - 1` and `n / 2` when it is even.
pub fn median_positions(n: usize) -> (r: (usize, usize))
    requires
        n > 0,
    ensures
        r.0 == median_low_at(n as int),
        r.1 == median_high_at(n as int),
        n % 2 == 1 ==> r.0 == r.1 && r.1 == n / 2,
        n % 2 == 0 ==> r.0 + 1 == r.1 && r.1 == n / 2,
{
    ((n - 1) / 2, n / 2)
}

/// Computes the order statistics of `sample` from a sorted copy of it; the
/// sample itself is not changed. An empty sample has no report.
pub fn calculate_statistics(sample: &Vec<u64>) -> (r: Option<Statistics>)
    ensures
        r == report_of(sample@),
        r is None <==> sample@.len() == 0,
{
    let count = sample.len();
    if count == 0 {
        return None;
    }
    let sorted = sorted_copy(sample);
    proof {
        lemma_sorted_keys(sample@);
        lemma_positions_in_range(count as int);
    }
    let (low, high) = median_positions(count);
    let index_90 = percentile_index(count, 90);
    let index_99 = percentile_index(count, 99);
    Some(
        Statistics {
            count,
            min: sorted[0],
            max: sorted[count - 1],
            median_low: sorted[low],
            median_high: sorted[high],
            percentile_90: sorted[index_90],
            percentile_99: sorted[index_99],
        },
    )
}

/// In a non-empty sample every element lies between the minimum and the
/// maximum of its report, and both are elements of the sample.
pub proof fn lemma_extremes_bound(s: Seq<u64>)
    requires
        s.len() > 0,
    ensures
        forall|i: int|
            0 <= i < s.len() ==> statistics_of(s).min <= #[trigger] s[i] <= statistics_of(s).max,
        s.contains(statistics_of(s).min),
        s.contains(statistics_of(s).max),
{
    let t = sorted_keys(s);
    lemma_sorted_keys(s);
    s.to_multiset_ensures();
    t.to_multiset_ensures();
    assert forall|i: int| 0 <= i < s.len() implies statistics_of(s).min <= #[trigger] s[i]
        <= statistics_of(s).max by {
        assert(s.contains(s[i]));
        assert(t.to_multiset().count(s[i]) > 0);
        assert(t.contains(s[i]));
        let j = choose|j: int| 0 <= j < t.len() && t[j] == s[i];
        assert(t[0] <= t[j]);
        assert(t[j] <= t[t.len() - 1]);
    }
    assert(t.contains(t[0]));
    assert(s.to_multiset().count(t[0]) > 0);
    assert(t.contains(t[t.len() - 1]));
    assert(s.to_multiset().count(t[t.len() - 1]) > 0);
}

/// In the report of a non-empty sample the minimum, the two middle elements,
/// the two percentiles and the maximum come in ascending order:
/// `min <= median_low <= median_high <= max` and
/// `min <= percentile_90 <= percentile_99 <= max`.
pub proof fn lemma_report_ordered(s: Seq<u64>)
    requires
        s.len() > 0,
    ensures
        statistics_of(s).min <= statistics_of(s).median_low,
        statistics_of(s).median_low <= statistics_of(s).median_high,
        statistics_of(s).median_high <= statistics_of(s).max,
        statistics_of(s).min <= statistics_of(s).percentile_90,
        statistics_of(s).percentile_90 <= statistics_of(s).percentile_99,
        statistics_of(s).percentile_99 <= statistics_of(s).max,
{
    lemma_sorted_keys(s);
    lemma_positions_in_range(s.len() as int);
}

/// A sample of one value has that value as every statistic of its report.
pub proof fn lemma_single_value(s: Seq<u64>)
    requires
        s.len() == 1,
    ensures
        statistics_of(s).count == 1,
        statistics_of(s).min == s[0],
        statistics_of(s).max == s[0],
        statistics_of(s).median_low == s[0],
        statistics_of(s).median_high == s[0],
        statistics_of(s).percentile_90 == s[0],
        statistics_of(s).percentile_99 == s[0],
{
    lemma_sorted_keys(s);
    lemma_positions_in_range(1);
    let t = sorted_keys(s);
    s.to_multiset_ensures();
    t.to_multiset_ensures();
    assert(s.contains(s[0]));
    assert(t.contains(s[0]));
}

/// Reordering a sample does not change its report.
pub proof fn lemma_permutation_invariant(a: Seq<u64>, b: Seq<u64>)
    requires
        a.to_multiset() == b.to_multiset(),
    ensures
        report_of(a) == report_of(b),
{
    lemma_sorted_keys_of_permutation(a, b);
    lemma_sorted_keys(a);
    lemma_sorted_keys(b);
}

/// The report of a sample equals the report of its sorted copy, so computing
/// again on a result of the sort gives the same report.
pub proof fn lemma_sorted_copy_same_report(s: Seq<u64>)
    ensures
        report_of(sorted_keys(s)) == report_of(s),
{
    lemma_sorted_keys(s);
    lemma_permutation_invariant(sorted_keys(s), s);
}

} // verus!
