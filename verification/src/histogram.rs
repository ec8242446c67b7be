//! Outcome histograms: how many games ended with each termination code.

use std::collections::HashMap;
use vstd::multiset::Multiset;
use vstd::prelude::*;

verus! {

/// The outcomes that a table of counts stands for: each code as often as its
/// count says.
spec fn tally(counts: Map<i8, u64>) -> Multiset<i8> {
    Multiset::from_map(counts.map_values(|c: u64| c as nat))
}

/// How often a code occurs in the tally of a table of counts.
proof fn lemma_tally_count(counts: Map<i8, u64>, code: i8)
    requires
        counts.dom().finite(),
    ensures
        tally(counts).count(code) == if counts.contains_key(code) {
            counts[code] as nat
        } else {
            0
        },
{
    let nats = counts.map_values(|c: u64| c as nat);
    assert(nats.dom() =~= counts.dom());
}

/// Counts of games by termination code.
///
/// Its view is the multiset of the codes recorded so far, so the count of a
/// code is its multiplicity and the total is the size of the multiset.
pub struct Histogram {
    counts: HashMap<i8, u64>,
    total: u64,
}

impl View for Histogram {
    type V = Multiset<i8>;

    closed spec fn view(&self) -> Multiset<i8> {
        tally(self.counts@)
    }
}

impl Histogram {
    /// Only codes that were seen have an entry, and the total is the number of
    /// outcomes recorded.
    pub closed spec fn wf(&self) -> bool {
        &&& forall|code: i8| self.counts@.contains_key(code) ==> self.counts@[code] > 0
        &&& self.total == self@.len()
    }

    /// An empty histogram.
    pub fn new() -> (hist: Histogram)
        ensures
            hist.wf(),
            hist@ == Multiset::<i8>::empty(),
    {
        let hist = Histogram { counts: HashMap::new(), total: 0 };
        proof {
            assert forall|code: i8| hist@.count(code) == 0 by {
                lemma_tally_count(hist.counts@, code);
            }
            assert(hist@ =~= Multiset::<i8>::empty());
        }
        hist
    }

    /// Number of games recorded with this code.
    pub fn count(&self, code: i8) -> (n: u64)
        requires
            self.wf(),
        ensures
            n == self@.count(code),
    {
        proof {
            lemma_tally_count(self.counts@, code);
        }
        match self.counts.get(&code) {
            Some(n) => *n,
            None => 0,
        }
    }

    /// Number of games recorded in all.
    pub fn total(&self) -> (n: u64)
        requires
            self.wf(),
        ensures
            n == self@.len(),
    {
        self.total
    }

    /// Records one more game that ended with `code`.
    pub fn record(&mut self, code: i8)
        requires
            old(self).wf(),
            old(self)@.len() < u64::MAX,
        ensures
            final(self).wf(),
            final(self)@ == old(self)@.insert(code),
    {
        let seen = self.count(code);
        proof {
            lemma_tally_count(self.counts@, code);
        }
        self.counts.insert(code, seen + 1);
        self.total = self.total + 1;
        proof {
            assert forall|other: i8| self@.count(other) == old(self)@.insert(code).count(other) by {
                lemma_tally_count(self.counts@, other);
                lemma_tally_count(old(self).counts@, other);
            }
            assert(self@ =~= old(self)@.insert(code));
        }
    }

    /// Adds every count of `other` to this histogram: a code missing here is
    /// inserted, a code present has the other count added to its own.
    pub fn merge(&mut self, other: &Histogram)
        requires
            old(self).wf(),
            other.wf(),
            old(self)@.len() + other@.len() <= u64::MAX,
        ensures
            final(self).wf(),
            final(self)@ == old(self)@.add(other@),
    {
        let ghost before = self.counts@;
        let mut next: i16 = -128;
        while next <= 127
            invariant
                -128 <= next <= 128,
                before == old(self).counts@,
                self.total == old(self).total,
                old(self).wf(),
                other.wf(),
                old(self)@.len() + other@.len() <= u64::MAX,
                forall|c: i8| self.counts@.contains_key(c) ==> self.counts@[c] > 0,
                forall|c: i8|
                    tally(self.counts@).count(c) == tally(before).count(c) + (if c < next {
                        tally(other.counts@).count(c)
                    } else {
                        0
                    }),
            decreases 128 - next,
        {
            let code: i8 = next as i8;
            proof {
                lemma_tally_count(self.counts@, code);
                lemma_tally_count(other.counts@, code);
            }
            match other.counts.get(&code) {
                Some(extra) => {
                    let seen = match self.counts.get(&code) {
                        Some(n) => *n,
                        None => 0,
                    };
                    let ghost earlier = self.counts@;
                    self.counts.insert(code, seen + *extra);
                    proof {
                        assert forall|c: i8|
                            tally(self.counts@).count(c) == tally(before).count(c) + (if c < next + 1 {
                                tally(other.counts@).count(c)
                            } else {
                                0
                            }) by {
                            lemma_tally_count(self.counts@, c);
                            lemma_tally_count(earlier, c);
                        }
                    }
                },
                None => {},
            }
            next = next + 1;
        }
        self.total = self.total + other.total;
        proof {
            assert(self@ =~= old(self)@.add(other@));
        }
    }

    /// The rows of the final report: every code that was seen, with its count,
    /// in ascending order of the code.
    pub fn entries(&self) -> (rows: Vec<(i8, u64)>)
        requires
            self.wf(),
        ensures
            forall|i: int, j: int| 0 <= i < j < rows.len() ==> rows[i].0 < rows[j].0,
            forall|i: int|
                0 <= i < rows.len() ==> rows[i].1 > 0 && rows[i].1 == self@.count(rows[i].0),
            forall|code: i8|
                self@.count(code) > 0 ==> exists|i: int|
                    0 <= i < rows.len() && (#[trigger] rows[i]).0 == code,
    {
        let mut rows: Vec<(i8, u64)> = Vec::new();
        let mut next: i16 = -128;
        while next <= 127
            invariant
                -128 <= next <= 128,
                self.wf(),
                forall|i: int| 0 <= i < rows.len() ==> (#[trigger] rows[i]).0 < next,
                forall|i: int, j: int| 0 <= i < j < rows.len() ==> rows[i].0 < rows[j].0,
                forall|i: int|
                    0 <= i < rows.len() ==> rows[i].1 > 0 && rows[i].1 == self@.count(rows[i].0),
                forall|code: i8|
                    code < next && self@.count(code) > 0 ==> exists|i: int|
                        0 <= i < rows.len() && (#[trigger] rows[i]).0 == code,
            decreases 128 - next,
        {
            let code: i8 = next as i8;
            let seen = self.count(code);
            if seen > 0 {
                let ghost shorter = rows@;
                rows.push((code, seen));
                proof {
                    assert forall|c: i8| c < next + 1 && self@.count(c) > 0 implies exists|i: int|
                        0 <= i < rows.len() && (#[trigger] rows[i]).0 == c by {
                        if c == code {
                            assert(rows[rows.len() - 1].0 == c);
                        } else {
                            let i = choose|i: int|
                                0 <= i < shorter.len() && (#[trigger] shorter[i]).0 == c;
                            assert(rows[i].0 == c);
                        }
                    }
                }
            }
            next = next + 1;
        }
        rows
    }
}

/// The outcomes of several workers taken together: what the global histogram
/// holds once each local one has been merged into it, in this order.
pub open spec fn merged(locals: Seq<Multiset<i8>>) -> Multiset<i8>
    decreases locals.len(),
{
    if locals.len() == 0 {
        Multiset::empty()
    } else {
        merged(locals.drop_last()).add(locals.last())
    }
}

/// Sum of the totals of several local histograms.
pub open spec fn sum_of_totals(locals: Seq<Multiset<i8>>) -> nat
    decreases locals.len(),
{
    if locals.len() == 0 {
        0
    } else {
        sum_of_totals(locals.drop_last()) + locals.last().len()
    }
}

/// Sum of the counts that several local histograms hold for one code.
pub open spec fn sum_of_counts(locals: Seq<Multiset<i8>>, code: i8) -> nat
    decreases locals.len(),
{
    if locals.len() == 0 {
        0
    } else {
        sum_of_counts(locals.drop_last(), code) + locals.last().count(code)
    }
}

/// Merging loses and invents nothing: the merged total is the sum of the local
/// totals, and the merged count of each code is the sum of its local counts.
pub proof fn lemma_merged_sums(locals: Seq<Multiset<i8>>, code: i8)
    ensures
        merged(locals).len() == sum_of_totals(locals),
        merged(locals).count(code) == sum_of_counts(locals, code),
    decreases locals.len(),
{
    if locals.len() > 0 {
        lemma_merged_sums(locals.drop_last(), code);
    }
}

/// The order in which two workers hand in their histograms does not matter.
pub proof fn lemma_merge_commutes(first: Multiset<i8>, second: Multiset<i8>)
    ensures
        first.add(second) == second.add(first),
{
    assert(first.add(second) =~= second.add(first));
}

/// Number of piles left at the end of a game with this termination code.
pub fn cards_left(code: i8) -> (left: i16)
    ensures
        left == code + 1,
{
    let wide: i16 = code as i16;
    wide + 1
}

} // verus!
