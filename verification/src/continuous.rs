//! Mean, median and nearest-rank 90th percentile of a latency sample.
//!
//! Samples are whole numbers (nanoseconds, when they are latencies). A mean or
//! a median need not be whole, so both are given as exact fractions.

use vstd::prelude::*;
use vstd::relations::{sorted_by, total_ordering};

verus! {

/// A quotient of two integers, as a mathematical value.
pub struct Quotient {
    pub numerator: int,
    pub denominator: int,
}

/// An exact fraction with a non-zero denominator.
#[derive(Clone, Copy, Debug, PartialEq, Eq)]
pub struct Fraction {
    numerator: u128,
    denominator: u128,
}

impl View for Fraction {
    type V = Quotient;

    closed spec fn view(&self) -> Quotient {
        Quotient { numerator: self.numerator as int, denominator: self.denominator as int }
    }
}

impl Fraction {
    /// The fraction of two numbers, where the second is not zero.
    pub fn new(numerator: u128, denominator: u128) -> (fraction: Option<Fraction>)
        ensures
            denominator == 0 <==> fraction is None,
            fraction matches Some(f) ==> f@ == (Quotient {
                numerator: numerator as int,
                denominator: denominator as int,
            }),
    {
        if denominator == 0 {
            None
        } else {
            Some(Fraction { numerator, denominator })
        }
    }

    /// The number above the line.
    pub fn numerator(&self) -> (n: u128)
        ensures
            n == self@.numerator,
    {
        self.numerator
    }

    /// The number below the line.
    pub fn denominator(&self) -> (d: u128)
        ensures
            d == self@.denominator,
    {
        self.denominator
    }

    /// The largest whole number that is not above the fraction.
    pub fn floor(&self) -> (q: u128)
        requires
            self@.denominator > 0,
        ensures
            q == self@.numerator / self@.denominator,
    {
        self.numerator / self.denominator
    }
}

/// Why a summary could not be computed.
#[derive(Clone, Copy, Debug, PartialEq, Eq)]
pub enum StatsError {
    /// The sample holds no value, so no mean, median or percentile exists.
    NoData,
}

/// The order by which samples are ranked.
pub open spec fn at_most() -> spec_fn(u64, u64) -> bool {
    |a: u64, b: u64| a <= b
}

/// Adds one sample to a running sum.
pub open spec fn plus() -> spec_fn(int, u64) -> int {
    |acc: int, x: u64| acc + x
}

/// The sample in ascending order.
pub open spec fn ascending(samples: Seq<u64>) -> Seq<u64> {
    samples.sort_by(at_most())
}

/// The sum of all samples.
pub open spec fn sum_of(samples: Seq<u64>) -> int {
    samples.fold_left(0int, plus())
}

/// The arithmetic mean: the sum over the count.
pub open spec fn mean_of(samples: Seq<u64>) -> Quotient
    recommends
        samples.len() > 0,
{
    Quotient { numerator: sum_of(samples), denominator: samples.len() as int }
}

/// The median: the middle sample of the ascending order where the count is
/// odd, and the average of the two middle samples where it is even.
pub open spec fn median_of(samples: Seq<u64>) -> Quotient
    recommends
        samples.len() > 0,
{
    let sorted = ascending(samples);
    let n = samples.len() as int;
    if n % 2 == 1 {
        Quotient { numerator: sorted[(n - 1) / 2] as int, denominator: 1 }
    } else {
        Quotient { numerator: sorted[n / 2] + sorted[n / 2 - 1], denominator: 2 }
    }
}

/// The rank of the 90th percentile among `n` samples, counted from zero: nine
/// tenths of `n`, rounded down. Among one sample or more it is below `n`, so
/// it always names a sample.
pub open spec fn percentile_90th_rank(n: int) -> int {
    n * 9 / 10
}

/// The nearest-rank 90th percentile: the sample at that rank of the ascending
/// order.
pub open spec fn percentile_90th_of(samples: Seq<u64>) -> u64
    recommends
        samples.len() > 0,
{
    ascending(samples)[percentile_90th_rank(samples.len() as int)]
}

/// `sort` of std's slices, on a vector of integers: afterwards the vector
/// holds the same values as before, each as often as before, and no value
/// stands before a smaller one.
#[verifier::external_body]
fn sort_samples(samples: &mut Vec<u64>)
    ensures
        final(samples)@.to_multiset() == old(samples)@.to_multiset(),
        sorted_by(final(samples)@, at_most()),
{
    samples.sort();
}

/// The summary of a non-empty sample.
#[derive(Clone, Copy, Debug, PartialEq, Eq)]
pub struct ContinuousValueStats {
    mean: Fraction,
    median: Fraction,
    percentile_90th: u64,
}

impl ContinuousValueStats {
    /// The mean that the summary holds.
    pub closed spec fn spec_mean(&self) -> Quotient {
        self.mean@
    }

    /// The median that the summary holds.
    pub closed spec fn spec_median(&self) -> Quotient {
        self.median@
    }

    /// The 90th percentile that the summary holds.
    pub closed spec fn spec_percentile_90th(&self) -> u64 {
        self.percentile_90th
    }

    /// Summarises a sample. An empty sample has no summary: the result is
    /// `NoData` exactly then.
    pub fn new(elements: &[u64]) -> (result: Result<Self, StatsError>)
        ensures
            elements@.len() == 0 <==> result == Err::<Self, StatsError>(StatsError::NoData),
            elements@.len() > 0 <==> result is Ok,
            result matches Ok(stats) ==> {
                &&& stats.spec_mean() == mean_of(elements@)
                &&& stats.spec_median() == median_of(elements@)
                &&& stats.spec_percentile_90th() == percentile_90th_of(elements@)
            },
    {
        let n: usize = elements.len();
        if n == 0 {
            return Err(StatsError::NoData);
        }
        let mut sorted: Vec<u64> = Vec::new();
        let mut total: u128 = 0;
        let mut i: usize = 0;
        while i < n
            invariant
                n == elements@.len(),
                i <= n,
                sorted@ == elements@.take(i as int),
                total == sum_of(elements@.take(i as int)),
                total <= i * u64::MAX,
            decreases n - i,
        {
            let x: u64 = elements[i];
            proof {
                assert(elements@.take(i + 1).drop_last() == elements@.take(i as int));
                assert(i * u64::MAX + u64::MAX <= u128::MAX) by (nonlinear_arith)
                    requires
                        i < usize::MAX,
                ;
            }
            total = total + x as u128;
            sorted.push(x);
            i += 1;
        }
        assert(elements@.take(n as int) == elements@);
        sort_samples(&mut sorted);
        proof {
            lemma_ascending_is_unique(elements@, sorted@);
        }
        let median = if n % 2 == 1 {
            Fraction { numerator: sorted[(n - 1) / 2] as u128, denominator: 1 }
        } else {
            Fraction {
                numerator: sorted[n / 2] as u128 + sorted[n / 2 - 1] as u128,
                denominator: 2,
            }
        };
        let rank: usize = (n as u128 * 9 / 10) as usize;
        Ok(
            ContinuousValueStats {
                mean: Fraction { numerator: total, denominator: n as u128 },
                median,
                percentile_90th: sorted[rank],
            },
        )
    }

    /// The arithmetic mean of the sample.
    pub fn mean(&self) -> (mean: Fraction)
        ensures
            mean@ == self.spec_mean(),
    {
        self.mean
    }

    /// The median of the sample.
    pub fn median(&self) -> (median: Fraction)
        ensures
            median@ == self.spec_median(),
    {
        self.median
    }

    /// The nearest-rank 90th percentile of the sample.
    pub fn percentile_90th(&self) -> (value: u64)
        ensures
            value == self.spec_percentile_90th(),
    {
        self.percentile_90th
    }
}

/// The order on samples is a total order.
pub proof fn lemma_at_most_is_total()
    ensures
        total_ordering(at_most()),
{
}

/// A sequence in ascending order that holds the same values as a sample, each
/// as often, is the ascending order of that sample.
pub proof fn lemma_ascending_is_unique(samples: Seq<u64>, sorted: Seq<u64>)
    requires
        sorted.to_multiset() == samples.to_multiset(),
        sorted_by(sorted, at_most()),
    ensures
        sorted == ascending(samples),
        sorted.len() == samples.len(),
{
    lemma_at_most_is_total();
    samples.lemma_sort_by_ensures(at_most());
    vstd::seq_lib::lemma_sorted_unique(sorted, ascending(samples), at_most());
    vstd::seq_lib::to_multiset_len(sorted);
    vstd::seq_lib::to_multiset_len(samples);
}

/// Mean, median and 90th percentile depend only on how often each value
/// occurs in the sample, not on the order of the sample.
pub proof fn lemma_summary_order_independent(a: Seq<u64>, b: Seq<u64>)
    requires
        a.to_multiset() == b.to_multiset(),
    ensures
        mean_of(a) == mean_of(b),
        median_of(a) == median_of(b),
        percentile_90th_of(a) == percentile_90th_of(b),
{
    lemma_at_most_is_total();
    a.lemma_sort_by_ensures(at_most());
    lemma_ascending_is_unique(b, ascending(a));
    vstd::seq_lib::to_multiset_len(a);
    vstd::seq_lib::to_multiset_len(b);
    vstd::seq_lib::lemma_fold_left_permutation(a, b, plus(), 0int);
}

/// The rank of the 90th percentile is a valid index of every non-empty sample.
pub proof fn lemma_percentile_rank_in_range(n: int)
    requires
        n > 0,
    ensures
        0 <= percentile_90th_rank(n) < n,
{
}

} // verus!
