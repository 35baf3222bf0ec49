//! Frequency histograms over discrete labels.
//!
//! A label is an unsigned integer: an HTTP status code, or the code of an
//! error class. The histogram of a sample maps each label that occurs to the
//! number of times it occurs, and holds no entry for a label that does not.

use vstd::prelude::*;
use crate::text::{decimal, push_char, push_decimal};

verus! {

/// The histogram of a sample: defined on exactly the labels that occur, and
/// giving each its number of occurrences.
pub open spec fn histogram_of(labels: Seq<u64>) -> Map<u64, nat> {
    Map::new(|l: u64| labels.contains(l), |l: u64| labels.to_multiset().count(l))
}

/// The distinct labels of a sample, each at the place of its first
/// occurrence.
pub open spec fn distinct_labels(labels: Seq<u64>) -> Seq<u64>
    decreases labels.len(),
{
    if labels.len() == 0 {
        Seq::empty()
    } else {
        let earlier = distinct_labels(labels.drop_last());
        if earlier.contains(labels.last()) {
            earlier
        } else {
            earlier.push(labels.last())
        }
    }
}

/// The sum of the counts that `histogram` gives to `labels`.
pub open spec fn count_sum(labels: Seq<u64>, histogram: Map<u64, nat>) -> nat
    decreases labels.len(),
{
    if labels.len() == 0 {
        0
    } else {
        count_sum(labels.drop_last(), histogram) + histogram[labels.last()]
    }
}

/// The text of one histogram entry: the label in brackets, a colon, a space
/// and the count.
pub open spec fn entry_text(label: u64, count: nat) -> Seq<char> {
    seq!['['] + decimal(label as nat) + seq![']', ':', ' '] + decimal(count)
}

/// The entries of `histogram` for `labels`, in that order, separated by a
/// comma and a space.
pub open spec fn joined_entries(labels: Seq<u64>, histogram: Map<u64, nat>) -> Seq<char>
    decreases labels.len(),
{
    if labels.len() == 0 {
        Seq::empty()
    } else if labels.len() == 1 {
        entry_text(labels[0], histogram[labels[0]])
    } else {
        joined_entries(labels.drop_last(), histogram) + seq![',', ' '] + entry_text(
            labels.last(),
            histogram[labels.last()],
        )
    }
}

/// A frequency histogram over integer labels.
pub struct CategoryStats {
    labels: Vec<u64>,
    counts: Vec<usize>,
}

impl CategoryStats {
    /// The distinct labels, in the order in which the histogram keeps them:
    /// that of their first occurrence.
    pub closed spec fn labels(&self) -> Seq<u64> {
        self.labels@
    }

    /// The histogram as a map from label to count.
    pub closed spec fn histogram(&self) -> Map<u64, nat> {
        Map::new(
            |l: u64| self.labels@.contains(l),
            |l: u64| self.counts@[self.labels@.index_of(l)] as nat,
        )
    }

    /// Every present label is kept once, and with a count of at least one.
    pub closed spec fn wf(&self) -> bool {
        &&& self.labels@.len() == self.counts@.len()
        &&& self.labels@.no_duplicates()
        &&& forall|j: int| 0 <= j < self.counts@.len() ==> #[trigger] self.counts@[j] >= 1
    }

    /// The empty histogram.
    pub fn empty() -> (stats: Self)
        ensures
            stats.wf(),
            stats.labels() == Seq::<u64>::empty(),
            stats.histogram() == Map::<u64, nat>::empty(),
    {
        let stats = CategoryStats { labels: Vec::new(), counts: Vec::new() };
        stats
    }

    /// Counts every element once under its label.
    pub fn new(elements: Vec<u64>) -> (stats: Self)
        ensures
            stats.wf(),
            stats.histogram() == histogram_of(elements@),
            stats.labels() == distinct_labels(elements@),
            stats.labels().no_duplicates(),
            stats.labels().to_set() == stats.histogram().dom(),
            count_sum(stats.labels(), stats.histogram()) == elements@.len(),
    {
        let mut stats = CategoryStats { labels: Vec::new(), counts: Vec::new() };
        let mut i: usize = 0;
        while i < elements.len()
            invariant
                i <= elements.len(),
                stats.wf(),
                stats.tallies(elements@.take(i as int)),
            decreases elements.len() - i,
        {
            proof {
                assert(elements@.take(i + 1) == elements@.take(i as int).push(elements@[i as int]));
            }
            stats.record(elements[i], Ghost(elements@.take(i as int)));
            i += 1;
        }
        proof {
            assert(elements@.take(i as int) == elements@);
            stats.lemma_tallies_give_histogram(elements@);
        }
        stats
    }

    /// The entries are exactly the tallies of `seen`.
    spec fn tallies(&self, seen: Seq<u64>) -> bool {
        &&& forall|j: int|
            0 <= j < self.labels@.len() ==> #[trigger] self.counts@[j] == seen.to_multiset().count(
                self.labels@[j],
            )
        &&& forall|l: u64| seen.contains(l) ==> self.labels@.contains(l)
        &&& sum(self.counts@) == seen.len()
        &&& self.labels@ == distinct_labels(seen)
    }

    /// Adds one occurrence of `label` to tallies of `seen`.
    fn record(&mut self, label: u64, Ghost(seen): Ghost<Seq<u64>>)
        requires
            old(self).wf(),
            old(self).tallies(seen),
            seen.len() < usize::MAX,
        ensures
            final(self).wf(),
            final(self).tallies(seen.push(label)),
    {
        broadcast use vstd::seq_lib::to_multiset_build;

        let ghost before = *self;
        assert(seen.push(label).drop_last() == seen);
        match position(&self.labels, label) {
            Some(j) => {
                proof {
                    lemma_sum_bounds(self.counts@, j as int);
                }
                let c = self.counts[j];
                self.counts.set(j, c + 1);
                proof {
                    lemma_sum_update(before.counts@, j as int, (c + 1) as usize);
                    assert forall|l: u64| seen.push(label).contains(l) implies self.labels@.contains(
                        l,
                    ) by {
                        if l != label {
                            assert(seen.contains(l));
                        }
                    }
                }
            },
            None => {
                self.labels.push(label);
                self.counts.push(1);
                proof {
                    vstd::seq_lib::to_multiset_contains(seen, label);
                    lemma_sum_push(before.counts@, 1usize);
                    assert forall|l: u64| seen.push(label).contains(l) implies self.labels@.contains(
                        l,
                    ) by {
                        if l != label {
                            assert(seen.contains(l));
                            let m = before.labels@.index_of(l);
                            assert(self.labels@[m] == l);
                        } else {
                            assert(self.labels@[self.labels@.len() - 1] == label);
                        }
                    }
                }
            },
        }
    }

    /// Tallies of the whole sample are its histogram.
    proof fn lemma_tallies_give_histogram(&self, sample: Seq<u64>)
        requires
            self.wf(),
            self.tallies(sample),
        ensures
            self.histogram() == histogram_of(sample),
            self.labels().to_set() == self.histogram().dom(),
            count_sum(self.labels(), self.histogram()) == sample.len(),
    {
        assert forall|l: u64| self.labels@.contains(l) implies sample.contains(l)
            && self.counts@[self.labels@.index_of(l)] == sample.to_multiset().count(l) by {
            let j = self.labels@.index_of(l);
            assert(self.counts@[j] >= 1);
            vstd::seq_lib::to_multiset_contains(sample, l);
        }
        self.lemma_count_sum(self.labels@.len() as int);
        assert(self.labels@.take(self.labels@.len() as int) == self.labels@);
        assert(self.counts@.take(self.counts@.len() as int) == self.counts@);
    }

    /// Over any prefix of the labels, the histogram's counts sum as the kept
    /// counts do.
    proof fn lemma_count_sum(&self, n: int)
        requires
            self.wf(),
            0 <= n <= self.labels@.len(),
        ensures
            count_sum(self.labels@.take(n), self.histogram()) == sum(self.counts@.take(n)),
        decreases n,
    {
        if n > 0 {
            self.lemma_count_sum(n - 1);
            assert(self.labels@.take(n).drop_last() == self.labels@.take(n - 1));
            assert(self.counts@.take(n).drop_last() == self.counts@.take(n - 1));
        }
    }

    /// The count of `label`, where it occurred.
    pub fn count_of(&self, label: u64) -> (count: Option<usize>)
        requires
            self.wf(),
        ensures
            match count {
                Some(c) => self.histogram().contains_key(label) && self.histogram()[label] == c,
                None => !self.histogram().contains_key(label),
            },
    {
        match position(&self.labels, label) {
            Some(j) => Some(self.counts[j]),
            None => None,
        }
    }

    /// The number of distinct labels.
    pub fn distinct(&self) -> (n: usize)
        requires
            self.wf(),
        ensures
            n == self.labels().len(),
    {
        self.labels.len()
    }

    /// Every label with its count, in the kept order.
    pub fn entries(&self) -> (entries: Vec<(u64, usize)>)
        requires
            self.wf(),
        ensures
            entries@.len() == self.labels().len(),
            forall|i: int|
                0 <= i < entries@.len() ==> (#[trigger] entries@[i]).0 == self.labels()[i]
                    && entries@[i].1 == self.histogram()[self.labels()[i]],
    {
        let mut entries: Vec<(u64, usize)> = Vec::new();
        let mut i: usize = 0;
        while i < self.labels.len()
            invariant
                self.wf(),
                i <= self.labels@.len(),
                entries@.len() == i,
                forall|k: int|
                    0 <= k < i ==> (#[trigger] entries@[k]).0 == self.labels@[k] && entries@[k].1
                        == self.histogram()[self.labels@[k]],
            decreases self.labels@.len() - i,
        {
            entries.push((self.labels[i], self.counts[i]));
            i += 1;
        }
        entries
    }

    /// The histogram as text: one entry per label, in the kept order, joined by
    /// a comma and a space.
    pub fn histogram_as_str(&self) -> (text: String)
        requires
            self.wf(),
        ensures
            text@ == joined_entries(self.labels(), self.histogram()),
    {
        let mut text = String::new();
        let mut i: usize = 0;
        while i < self.labels.len()
            invariant
                self.wf(),
                i <= self.labels@.len(),
                text@ == joined_entries(self.labels@.take(i as int), self.histogram()),
            decreases self.labels@.len() - i,
        {
            if i > 0 {
                push_char(&mut text, ',');
                push_char(&mut text, ' ');
            }
            let label = self.labels[i];
            let count = self.counts[i];
            push_char(&mut text, '[');
            push_decimal(&mut text, label);
            push_char(&mut text, ']');
            push_char(&mut text, ':');
            push_char(&mut text, ' ');
            push_decimal(&mut text, count as u64);
            assert(self.labels@.take(i + 1).drop_last() == self.labels@.take(i as int));
            i += 1;
        }
        assert(self.labels@.take(i as int) == self.labels@);
        text
    }
}

impl Default for CategoryStats {
    /// The empty histogram.
    fn default() -> (stats: Self)
        ensures
            stats.wf(),
            stats.labels() == Seq::<u64>::empty(),
            stats.histogram() == Map::<u64, nat>::empty(),
    {
        CategoryStats::empty()
    }
}

/// The sum of a sequence of counts.
pub open spec fn sum(counts: Seq<usize>) -> nat
    decreases counts.len(),
{
    if counts.len() == 0 {
        0
    } else {
        sum(counts.drop_last()) + counts.last() as nat
    }
}

proof fn lemma_sum_push(counts: Seq<usize>, c: usize)
    ensures
        sum(counts.push(c)) == sum(counts) + c,
{
    assert(counts.push(c).drop_last() == counts);
}

proof fn lemma_sum_update(counts: Seq<usize>, j: int, c: usize)
    requires
        0 <= j < counts.len(),
    ensures
        sum(counts.update(j, c)) == sum(counts) - counts[j] + c,
    decreases counts.len(),
{
    if j == counts.len() - 1 {
        assert(counts.update(j, c).drop_last() == counts.drop_last());
    } else {
        lemma_sum_update(counts.drop_last(), j, c);
        assert(counts.update(j, c).drop_last() == counts.drop_last().update(j, c));
    }
}

proof fn lemma_sum_bounds(counts: Seq<usize>, j: int)
    requires
        0 <= j < counts.len(),
    ensures
        counts[j] <= sum(counts),
    decreases counts.len(),
{
    if j < counts.len() - 1 {
        lemma_sum_bounds(counts.drop_last(), j);
    }
}

/// The index at which `label` stands in `labels`, if it stands there.
fn position(labels: &Vec<u64>, label: u64) -> (found: Option<usize>)
    ensures
        match found {
            Some(j) => j < labels@.len() && labels@[j as int] == label,
            None => !labels@.contains(label),
        },
{
    let mut j: usize = 0;
    while j < labels.len()
        invariant
            j <= labels@.len(),
            forall|k: int| 0 <= k < j ==> labels@[k] != label,
        decreases labels@.len() - j,
    {
        if labels[j] == label {
            return Some(j);
        }
        j += 1;
    }
    None
}

/// The distinct labels of a sample are the labels that occur in it, each
/// once.
pub proof fn lemma_distinct_labels(labels: Seq<u64>)
    ensures
        distinct_labels(labels).no_duplicates(),
        forall|l: u64| distinct_labels(labels).contains(l) <==> labels.contains(l),
    decreases labels.len(),
{
    if labels.len() > 0 {
        let earlier = labels.drop_last();
        let x = labels.last();
        lemma_distinct_labels(earlier);
        assert(labels == earlier.push(x));
        assert forall|l: u64| distinct_labels(labels).contains(l) <==> labels.contains(l) by {
            lemma_contains_after_push(earlier, x, l);
            lemma_contains_after_push(distinct_labels(earlier), x, l);
        }
    }
}

/// A value occurs in a sequence with one more element exactly if it occurred
/// before or is that element.
proof fn lemma_contains_after_push(s: Seq<u64>, x: u64, l: u64)
    ensures
        s.push(x).contains(l) <==> s.contains(l) || l == x,
{
    if s.contains(l) {
        let k = s.index_of(l);
        assert(s.push(x)[k] == l);
    }
    if l == x {
        assert(s.push(x)[s.len() as int] == l);
    }
    if s.push(x).contains(l) {
        let k = s.push(x).index_of(l);
        if k < s.len() {
            assert(s[k] == l);
        }
    }
}

/// One more occurrence of `x` in the sample adds one to the sum of the counts
/// of any distinct labels that hold `x`, and nothing to the sum of those that
/// do not.
proof fn lemma_count_sum_after_push(labels: Seq<u64>, sample: Seq<u64>, x: u64)
    requires
        labels.no_duplicates(),
        forall|l: u64| labels.contains(l) ==> sample.contains(l),
    ensures
        count_sum(labels, histogram_of(sample.push(x))) == count_sum(
            labels,
            histogram_of(sample),
        ) + if labels.contains(x) {
            1nat
        } else {
            0nat
        },
    decreases labels.len(),
{
    broadcast use vstd::seq_lib::to_multiset_build;

    if labels.len() > 0 {
        let rest = labels.drop_last();
        let last = labels.last();
        assert(labels == rest.push(last));
        assert forall|l: u64| rest.contains(l) implies sample.contains(l) by {
            lemma_contains_after_push(rest, last, l);
        }
        lemma_count_sum_after_push(rest, sample, x);
        lemma_contains_after_push(rest, last, x);
        lemma_contains_after_push(rest, last, last);
        lemma_contains_after_push(sample, x, last);
        if rest.contains(x) {
            let k = rest.index_of(x);
            assert(labels[k] == x);
        }
    }
}

/// The counts of the histogram of a sample sum to the length of the sample:
/// every element is counted once.
pub proof fn lemma_counts_sum_to_length(labels: Seq<u64>)
    ensures
        count_sum(distinct_labels(labels), histogram_of(labels)) == labels.len(),
    decreases labels.len(),
{
    broadcast use vstd::seq_lib::to_multiset_build;

    if labels.len() > 0 {
        let earlier = labels.drop_last();
        let x = labels.last();
        assert(labels == earlier.push(x));
        lemma_counts_sum_to_length(earlier);
        lemma_distinct_labels(earlier);
        lemma_count_sum_after_push(distinct_labels(earlier), earlier, x);
        if !distinct_labels(earlier).contains(x) {
            vstd::seq_lib::to_multiset_contains(earlier, x);
            assert(distinct_labels(labels).drop_last() == distinct_labels(earlier));
        }
    }
}

/// The histogram of a sample depends only on how often each label occurs in
/// it, not on the order of the sample.
pub proof fn lemma_histogram_order_independent(a: Seq<u64>, b: Seq<u64>)
    requires
        a.to_multiset() == b.to_multiset(),
    ensures
        histogram_of(a) == histogram_of(b),
{
    assert forall|l: u64| a.contains(l) == b.contains(l) by {
        vstd::seq_lib::to_multiset_contains(a, l);
        vstd::seq_lib::to_multiset_contains(b, l);
    }
}

} // verus!
