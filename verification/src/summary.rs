//! The report of a run: what the collected outcomes reduce to.

use vstd::prelude::*;
use crate::category::{
    count_sum,
    distinct_labels,
    histogram_of,
    lemma_counts_sum_to_length,
    lemma_histogram_order_independent,
    CategoryStats,
};
use crate::continuous::{
    lemma_summary_order_independent,
    mean_of,
    median_of,
    percentile_90th_of,
    ContinuousValueStats,
    StatsError,
};
use crate::dispatch::{Action, DispatchEngine};
use crate::outcome::{label_of, labels_of, succeeded, success_latencies, RequestOutcome};

verus! {

/// The histogram of the labels of all outcomes, and the summary of the
/// latencies of those that got a response, where there is one.
pub struct RequestSummary {
    pub status_code: CategoryStats,
    pub response_time: Result<ContinuousValueStats, StatsError>,
}

/// The label of every outcome, in order.
pub fn outcome_labels(outcomes: &Vec<RequestOutcome>) -> (labels: Vec<u64>)
    ensures
        labels@ == labels_of(outcomes@),
{
    let mut labels: Vec<u64> = Vec::new();
    let mut i: usize = 0;
    while i < outcomes.len()
        invariant
            i <= outcomes@.len(),
            labels@ == labels_of(outcomes@.take(i as int)),
        decreases outcomes@.len() - i,
    {
        labels.push(outcomes[i].label());
        i += 1;
    }
    labels
}

/// The latency of every request that got a response, in order; failed
/// requests are left out.
pub fn latencies_of_successes(outcomes: &Vec<RequestOutcome>) -> (latencies: Vec<u64>)
    ensures
        latencies@ == success_latencies(outcomes@),
{
    let mut latencies: Vec<u64> = Vec::new();
    let mut i: usize = 0;
    while i < outcomes.len()
        invariant
            i <= outcomes@.len(),
            latencies@ == success_latencies(outcomes@.take(i as int)),
        decreases outcomes@.len() - i,
    {
        let outcome = outcomes[i];
        proof {
            reveal(Seq::filter);
            assert(outcomes@.take(i + 1).drop_last() == outcomes@.take(i as int));
        }
        if outcome.is_success() {
            latencies.push(outcome.elapsed_nanos);
        }
        i += 1;
    }
    assert(outcomes@.take(i as int) == outcomes@);
    latencies
}

impl RequestSummary {
    /// Reduces the outcomes of a run. Every outcome is counted once under its
    /// label; only the requests that got a response enter the latency summary,
    /// which is `NoData` exactly where there was none.
    pub fn new(outcomes: &Vec<RequestOutcome>) -> (summary: Self)
        ensures
            summary.status_code.wf(),
            summary.status_code.histogram() == histogram_of(labels_of(outcomes@)),
            summary.status_code.labels() == distinct_labels(labels_of(outcomes@)),
            count_sum(summary.status_code.labels(), summary.status_code.histogram())
                == outcomes@.len(),
            success_latencies(outcomes@).len() == 0 <==> summary.response_time == Err::<
                ContinuousValueStats,
                StatsError,
            >(StatsError::NoData),
            summary.response_time matches Ok(stats) ==> {
                &&& stats.spec_mean() == mean_of(success_latencies(outcomes@))
                &&& stats.spec_median() == median_of(success_latencies(outcomes@))
                &&& stats.spec_percentile_90th() == percentile_90th_of(
                    success_latencies(outcomes@),
                )
            },
    {
        let labels = outcome_labels(outcomes);
        let latencies = latencies_of_successes(outcomes);
        RequestSummary {
            status_code: CategoryStats::new(labels),
            response_time: ContinuousValueStats::new(latencies.as_slice()),
        }
    }
}

/// Among the values that pass a test, each occurs after filtering as often as
/// before; the others do not occur.
proof fn lemma_filter_counts<A>(s: Seq<A>, pred: spec_fn(A) -> bool, v: A)
    ensures
        s.filter(pred).to_multiset().count(v) == if pred(v) {
            s.to_multiset().count(v)
        } else {
            0
        },
    decreases s.len(),
{
    broadcast use vstd::seq_lib::to_multiset_build;

    reveal(Seq::filter);
    if s.len() == 0 {
        s.to_multiset_ensures();
    } else {
        lemma_filter_counts(s.drop_last(), pred, v);
        assert(s == s.drop_last().push(s.last()));
    }
}

/// Two sequences that hold the same values equally often still do so after
/// the same function is applied to each value.
proof fn lemma_map_keeps_permutations<A, B>(a: Seq<A>, b: Seq<A>, f: spec_fn(A) -> B)
    requires
        a.to_multiset() == b.to_multiset(),
    ensures
        a.map_values(f).to_multiset() == b.map_values(f).to_multiset(),
    decreases a.len(),
{
    broadcast use vstd::seq_lib::to_multiset_build;

    vstd::seq_lib::to_multiset_len(a);
    vstd::seq_lib::to_multiset_len(b);
    if a.len() == 0 {
        assert(a.map_values(f) =~= b.map_values(f));
    } else {
        let x = a.last();
        let shorter = a.drop_last();
        assert(a == shorter.push(x));
        vstd::seq_lib::to_multiset_contains(b, x);
        let i = b.index_of(x);
        let rest = b.remove(i);
        vstd::seq_lib::to_multiset_remove(b, i);
        assert(shorter.to_multiset() =~= a.to_multiset().remove(x));
        lemma_map_keeps_permutations(shorter, rest, f);
        assert(a.map_values(f) =~= shorter.map_values(f).push(f(x)));
        assert(b.map_values(f).remove(i) =~= rest.map_values(f));
        vstd::seq_lib::to_multiset_remove(b.map_values(f), i);
        vstd::seq_lib::to_multiset_contains(b.map_values(f), f(x));
    }
}

/// When a run is over, exactly as many outcomes are collected as the run has
/// requests, and the counts of their histogram sum to that number.
pub proof fn lemma_finished_run_counts_every_request(engine: &DispatchEngine, now: u64)
    requires
        engine.wf(),
        engine.next_action(now) == Action::Finished,
    ensures
        engine.collected().len() == engine.total(),
        engine.in_flight() == 0,
        count_sum(
            distinct_labels(labels_of(engine.collected())),
            histogram_of(labels_of(engine.collected())),
        ) == engine.total(),
{
    engine.lemma_bounds();
    engine.lemma_finished_exactly_at_total(now);
    lemma_counts_sum_to_length(labels_of(engine.collected()));
}

/// The report of a run depends only on which outcomes were collected and how
/// often each, not on the order in which they came.
pub proof fn lemma_report_order_independent(a: Seq<RequestOutcome>, b: Seq<RequestOutcome>)
    requires
        a.to_multiset() == b.to_multiset(),
    ensures
        histogram_of(labels_of(a)) == histogram_of(labels_of(b)),
        success_latencies(a).len() == success_latencies(b).len(),
        mean_of(success_latencies(a)) == mean_of(success_latencies(b)),
        median_of(success_latencies(a)) == median_of(success_latencies(b)),
        percentile_90th_of(success_latencies(a)) == percentile_90th_of(success_latencies(b)),
{
    lemma_map_keeps_permutations(a, b, |o: RequestOutcome| label_of(o.result));
    lemma_histogram_order_independent(labels_of(a), labels_of(b));
    assert forall|o: RequestOutcome|
        a.filter(succeeded()).to_multiset().count(o) == b.filter(succeeded()).to_multiset().count(
            o,
        ) by {
        lemma_filter_counts(a, succeeded(), o);
        lemma_filter_counts(b, succeeded(), o);
    }
    assert(a.filter(succeeded()).to_multiset() =~= b.filter(succeeded()).to_multiset());
    lemma_map_keeps_permutations(
        a.filter(succeeded()),
        b.filter(succeeded()),
        |o: RequestOutcome| o.elapsed_nanos,
    );
    lemma_summary_order_independent(success_latencies(a), success_latencies(b));
    vstd::seq_lib::to_multiset_len(success_latencies(a));
    vstd::seq_lib::to_multiset_len(success_latencies(b));
}

} // verus!
