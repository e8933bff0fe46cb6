//! Summary statistics over timing samples.

use vstd::prelude::*;
use vstd::relations::{sorted_by, total_ordering};

verus! {

broadcast use vstd::seq_lib::group_to_multiset_ensures;

/// Timing statistics of one benchmark measurement series, in nanoseconds.
#[derive(Debug, Clone, Copy, PartialEq, Eq, Structural)]
pub struct Stats {
    pub median_ns: u64,
    pub p95_ns: u64,
    pub min_ns: u64,
    pub max_ns: u64,
    pub mean_ns: u64,
}

/// The ordering in which samples are ranked.
pub open spec fn sample_leq() -> spec_fn(u64, u64) -> bool {
    |x: u64, y: u64| x <= y
}

/// The samples in ascending order.
pub open spec fn ascending(values: Seq<u64>) -> Seq<u64> {
    values.sort_by(sample_leq())
}

/// The mathematical sum of the samples.
pub open spec fn sample_sum(values: Seq<u64>) -> int
    decreases values.len(),
{
    if values.len() == 0 {
        0
    } else {
        sample_sum(values.drop_last()) + values.last()
    }
}

/// Position of the 95th percentile in a ranking of `n` samples: the whole part of `0.95 * n`.
pub open spec fn p95_rank(n: int) -> int {
    (95 * n) / 100
}

/// The statistics of a non-empty series of samples.
pub open spec fn stats_of(values: Seq<u64>) -> Stats {
    let sorted = ascending(values);
    let n = values.len() as int;
    Stats {
        median_ns: sorted[n / 2],
        p95_ns: sorted[p95_rank(n)],
        min_ns: sorted[0],
        max_ns: sorted[n - 1],
        mean_ns: (sample_sum(values) / n) as u64,
    }
}

pub proof fn lemma_sample_leq_total()
    ensures
        total_ordering(sample_leq()),
{
}

/// The ascending arrangement is sorted and holds the same samples.
pub proof fn lemma_ascending(values: Seq<u64>)
    ensures
        sorted_by(ascending(values), sample_leq()),
        ascending(values).to_multiset() =~= values.to_multiset(),
        ascending(values).len() == values.len(),
{
    lemma_sample_leq_total();
    values.lemma_sort_by_ensures(sample_leq());
    values.to_multiset_ensures();
    ascending(values).to_multiset_ensures();
}

/// Sorts the samples in ascending order (insertion sort).
pub fn sort_ascending(values: &[u64]) -> (r: Vec<u64>)
    ensures
        r@ == ascending(values@),
{
    let mut out: Vec<u64> = Vec::new();
    let mut i: usize = 0;
    while i < values.len()
        invariant
            i <= values@.len(),
            out@.to_multiset() == values@.take(i as int).to_multiset(),
            sorted_by(out@, sample_leq()),
        decreases values.len() - i,
    {
        let x = values[i];
        let mut j: usize = 0;
        while j < out.len() && out[j] <= x
            invariant
                j <= out@.len(),
                forall|k: int| 0 <= k < j ==> out@[k] <= x,
            decreases out.len() - j,
        {
            j += 1;
        }
        let ghost before = out@;
        proof {
            if j < before.len() {
                assert forall|k: int| j <= k < before.len() implies x < before[k] by {
                    if k > j {
                        assert(sample_leq()(before[j as int], before[k]));
                    }
                }
            }
        }
        out.insert(j, x);
        proof {
            let after = out@;
            assert forall|p: int, q: int| 0 <= p < q < after.len() implies #[trigger] sample_leq()(
                after[p],
                after[q],
            ) by {
                if q < j {
                    assert(sample_leq()(before[p], before[q]));
                } else if p > j {
                    assert(sample_leq()(before[p - 1], before[q - 1]));
                } else if p < j && q > j {
                    assert(before[p] <= x);
                } else if p == j {
                } else {
                }
            }
            assert(values@.take(i + 1) =~= values@.take(i as int).push(x));
        }
        i += 1;
    }
    proof {
        assert(values@.take(values@.len() as int) =~= values@);
        lemma_ascending(values@);
        lemma_sample_leq_total();
        vstd::seq_lib::lemma_sorted_unique(out@, ascending(values@), sample_leq());
    }
    out
}


/// Position of the 95th percentile, computed without overflow.
fn p95_position(n: usize) -> (r: usize)
    requires
        n > 0,
    ensures
        r == p95_rank(n as int),
        r < n,
{
    let a = n / 100;
    let b = n % 100;
    let r = a * 95 + (b * 95) / 100;
    proof {
        let ni = n as int;
        assert(ni == 100 * (a as int) + (b as int));
        assert(95 * ni == 100 * (95 * (a as int)) + 95 * (b as int)) by (nonlinear_arith)
            requires
                ni == 100 * (a as int) + (b as int),
        ;
        assert((100 * (95 * (a as int)) + 95 * (b as int)) / 100 == 95 * (a as int) + (95 * (b
            as int)) / 100) by (nonlinear_arith)
            requires
                0 <= b < 100,
                a >= 0,
        ;
        assert((95 * ni) / 100 < ni) by (nonlinear_arith)
            requires
                ni > 0,
        ;
    }
    r
}

/// Computes the median, 95th percentile, minimum, maximum and mean of the samples.
pub fn compute_stats(values: &[u64]) -> (r: Stats)
    requires
        values@.len() > 0,
        sample_sum(values@) <= u64::MAX,
    ensures
        r == stats_of(values@),
{
    let sorted = sort_ascending(values);
    proof {
        lemma_ascending(values@);
    }
    let n = sorted.len();
    let mut sum: u64 = 0;
    let mut i: usize = 0;
    while i < n
        invariant
            n == values@.len(),
            i <= n,
            sum == sample_sum(values@.take(i as int)),
            sample_sum(values@) <= u64::MAX,
        decreases n - i,
    {
        proof {
            assert(values@.take(i + 1).drop_last() =~= values@.take(i as int));
            lemma_sample_sum_prefix_bound(values@, i as int + 1);
        }
        sum = sum + values[i];
        i += 1;
    }
    proof {
        assert(values@.take(n as int) =~= values@);
    }
    let p95 = p95_position(n);
    Stats {
        median_ns: sorted[n / 2],
        p95_ns: sorted[p95],
        min_ns: sorted[0],
        max_ns: sorted[n - 1],
        mean_ns: sum / (n as u64),
    }
}

/// A prefix of the samples never sums to more than all of them.
proof fn lemma_sample_sum_prefix_bound(values: Seq<u64>, k: int)
    requires
        0 <= k <= values.len(),
    ensures
        sample_sum(values.take(k)) <= sample_sum(values),
    decreases values.len() - k,
{
    if k < values.len() {
        lemma_sample_sum_prefix_bound(values, k + 1);
        assert(values.take(k + 1).drop_last() =~= values.take(k));
    } else {
        assert(values.take(k) =~= values);
    }
}


/// Taking one sample out lowers the sum by exactly that sample.
proof fn lemma_sample_sum_remove(s: Seq<u64>, i: int)
    requires
        0 <= i < s.len(),
    ensures
        sample_sum(s) == sample_sum(s.remove(i)) + s[i],
    decreases s.len(),
{
    if i == s.len() - 1 {
        assert(s.remove(i) =~= s.drop_last());
    } else {
        lemma_sample_sum_remove(s.drop_last(), i);
        assert(s.remove(i).drop_last() =~= s.drop_last().remove(i));
        assert(s.remove(i).last() == s.last());
    }
}

/// The sum of the samples depends only on which samples there are, not on their order.
proof fn lemma_sample_sum_multiset(x: Seq<u64>, y: Seq<u64>)
    requires
        x.to_multiset() == y.to_multiset(),
    ensures
        sample_sum(x) == sample_sum(y),
    decreases x.len(),
{
    broadcast use vstd::multiset::group_multiset_axioms;

    x.to_multiset_ensures();
    y.to_multiset_ensures();
    if x.len() == 0 {
        assert(y.len() == 0);
    } else {
        let a = x.last();
        assert(x.to_multiset().count(a) > 0) by {
            assert(x.contains(a)) by {
                assert(x[x.len() - 1] == a);
            }
        }
        assert(y.contains(a));
        let i = choose|i: int| 0 <= i < y.len() && y[i] == a;
        assert(x.drop_last() =~= x.remove(x.len() - 1));
        assert(x.drop_last().to_multiset() == x.to_multiset().remove(a));
        assert(y.remove(i).to_multiset() == y.to_multiset().remove(a));
        lemma_sample_sum_multiset(x.drop_last(), y.remove(i));
        lemma_sample_sum_remove(y, i);
    }
}

/// A sorted series sums to between its length times its first and its length times its last sample.
proof fn lemma_sorted_sum_bounds(s: Seq<u64>)
    requires
        s.len() > 0,
        sorted_by(s, sample_leq()),
    ensures
        s.len() * s[0] <= sample_sum(s) <= s.len() * s[s.len() - 1],
    decreases s.len(),
{
    if s.len() == 1 {
        assert(s.drop_last() =~= Seq::<u64>::empty());
        assert(sample_sum(s.drop_last()) == 0);
        assert(sample_sum(s) == s[0]);
        assert(s.len() * s[0] == s[0]);
    } else {
        let d = s.drop_last();
        assert(sorted_by(d, sample_leq())) by {
            assert forall|p: int, q: int| 0 <= p < q < d.len() implies #[trigger] sample_leq()(
                d[p],
                d[q],
            ) by {
                assert(sample_leq()(s[p], s[q]));
            }
        }
        lemma_sorted_sum_bounds(d);
        assert(d[0] == s[0]);
        assert(d[d.len() - 1] == s[s.len() - 2]);
        assert(sample_sum(s) == sample_sum(d) + s.last());
        assert(sample_leq()(s[0], s[s.len() - 1]));
        assert(sample_leq()(s[s.len() - 2], s[s.len() - 1]));
        let n = d.len() as int;
        let lo = s[0] as int;
        let hi = s[s.len() - 1] as int;
        let dhi = d[d.len() - 1] as int;
        assert(n * dhi <= n * hi) by (nonlinear_arith)
            requires
                n >= 0,
                dhi <= hi,
        ;
        assert((n + 1) * lo == n * lo + lo) by (nonlinear_arith);
        assert((n + 1) * hi == n * hi + hi) by (nonlinear_arith);
    }
}

/// The statistics are ranked: the minimum is at most the median, which is at most the 95th
/// percentile, which is at most the maximum; and the mean lies between minimum and maximum.
pub proof fn lemma_stats_ranked(values: Seq<u64>)
    requires
        values.len() > 0,
    ensures
        stats_of(values).min_ns <= stats_of(values).median_ns,
        stats_of(values).median_ns <= stats_of(values).p95_ns,
        stats_of(values).p95_ns <= stats_of(values).max_ns,
        stats_of(values).min_ns <= stats_of(values).mean_ns <= stats_of(values).max_ns,
{
    lemma_ascending(values);
    let sorted = ascending(values);
    let n = values.len() as int;
    assert(n / 2 <= p95_rank(n) < n) by (nonlinear_arith)
        requires
            n > 0,
    ;
    if n / 2 > 0 {
        assert(sample_leq()(sorted[0], sorted[n / 2]));
    }
    if n / 2 < p95_rank(n) {
        assert(sample_leq()(sorted[n / 2], sorted[p95_rank(n)]));
    }
    if p95_rank(n) < n - 1 {
        assert(sample_leq()(sorted[p95_rank(n)], sorted[n - 1]));
    }
    lemma_sample_sum_multiset(values, sorted);
    lemma_sorted_sum_bounds(sorted);
    let total = sample_sum(values);
    let lo = sorted[0] as int;
    let hi = sorted[n - 1] as int;
    assert(lo <= total / n <= hi) by (nonlinear_arith)
        requires
            n > 0,
            n * lo <= total <= n * hi,
    ;
}

/// The statistics do not depend on the order in which the samples were taken.
pub proof fn lemma_stats_order_independent(x: Seq<u64>, y: Seq<u64>)
    requires
        x.len() > 0,
        x.to_multiset() == y.to_multiset(),
    ensures
        stats_of(x) == stats_of(y),
{
    lemma_ascending(x);
    lemma_ascending(y);
    lemma_sample_leq_total();
    vstd::seq_lib::lemma_sorted_unique(ascending(x), ascending(y), sample_leq());
    lemma_sample_sum_multiset(x, y);
    x.to_multiset_ensures();
    y.to_multiset_ensures();
}

} // verus!
