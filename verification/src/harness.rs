//! The harness: workers that shuffle, play and record, and the runs that
//! drive them against a dispatcher until the budget is spent or a win is found.

use rand::seq::SliceRandom;
use rand::thread_rng;
use vstd::multiset::Multiset;
use vstd::prelude::*;
use crate::automaton::{outcome, play_game};
use crate::cards::{gen_deck, is_full_deck, Card};
use crate::dispatch::{within_budget, Dispatcher};
use crate::histogram::Histogram;
use crate::race::{Verdict, WinRace};

verus! {

/// Every code in the multiset is one that a game of fifty-two cards can end
/// with.
pub open spec fn codes_in_range(codes: Multiset<i8>) -> bool {
    forall|code: i8| codes.count(code) > 0 ==> -1 <= code <= 51
}

/// Shuffles the deck in place with `SliceRandom::shuffle` of rand, drawing
/// from the generator that `thread_rng` keeps for the calling thread.
///
/// Trusted: the shuffle only swaps cards, so whatever order comes out, the
/// deck holds the same cards as before. Nothing is claimed of the order. The
/// generator is seeded by the operating system when a thread first uses it,
/// and rand panics if the system has no seed to give; no argument of this
/// function decides that.
#[verifier::external_body]
fn shuffle_in_place(deck: &mut [Card; 52])
    ensures
        final(deck)@.to_multiset() == old(deck)@.to_multiset(),
{
    deck.shuffle(&mut thread_rng());
}

/// Asks num_cpus for the number of processing units available, with `get`.
///
/// Trusted: nothing; the number depends on the machine.
#[verifier::external_body]
fn cpu_count() -> (cpus: usize) {
    num_cpus::get()
}

/// Number of workers to start on a machine with `cpus` processing units: one
/// for each unit, and one if none is reported.
pub fn workers_for(cpus: usize) -> (workers: usize)
    ensures
        workers == if cpus == 0 {
            1
        } else {
            cpus
        },
{
    if cpus == 0 {
        1
    } else {
        cpus
    }
}

/// Number of workers to start on this machine: at least one.
pub fn worker_count() -> (workers: usize)
    ensures
        workers >= 1,
{
    workers_for(cpu_count())
}

/// One worker: its own deck, its own row of piles and its own histogram,
/// shared with nobody.
pub struct Worker {
    deck: [Card; 52],
    hand: [Card; 52],
    local: Histogram,
}

impl Worker {
    /// The deck as the worker last shuffled it.
    pub closed spec fn deck(&self) -> Seq<Card> {
        self.deck@
    }

    /// The outcomes that the worker has recorded.
    pub closed spec fn tally(&self) -> Multiset<i8> {
        self.local@
    }

    /// The deck is complete, and the histogram is sound and holds only codes
    /// that a game can end with.
    pub closed spec fn wf(&self) -> bool {
        &&& is_full_deck(self.deck@)
        &&& self.local.wf()
        &&& codes_in_range(self.local@)
    }

    /// A worker with the deck in canonical order and nothing recorded.
    pub fn new() -> (worker: Worker)
        ensures
            worker.wf(),
            worker.tally() == Multiset::<i8>::empty(),
    {
        Worker { deck: gen_deck(), hand: gen_deck(), local: Histogram::new() }
    }

    /// Shuffles the deck and plays one game on it, without recording it.
    pub fn play(&mut self) -> (code: i8)
        requires
            old(self).wf(),
        ensures
            final(self).wf(),
            final(self).tally() == old(self).tally(),
            is_full_deck(final(self).deck()),
            code == outcome(final(self).deck()),
            -1 <= code <= 51,
    {
        shuffle_in_place(&mut self.deck);
        play_game(&self.deck, &mut self.hand)
    }

    /// Takes a claimed trial index in a fixed-count run: within the budget the
    /// worker plays a trial and records its code, past it the worker does
    /// nothing and is to stop.
    pub fn trial(&mut self, index: u64, budget: u64) -> (ran: Option<i8>)
        requires
            old(self).wf(),
            index <= budget ==> old(self).tally().len() < u64::MAX,
        ensures
            final(self).wf(),
            ran is Some <==> index <= budget,
            ran matches Some(code) ==> {
                &&& code == outcome(final(self).deck())
                &&& final(self).tally() == old(self).tally().insert(code)
            },
            ran is None ==> final(self).tally() == old(self).tally() && final(self).deck() == old(
                self,
            ).deck(),
    {
        if within_budget(index, budget) {
            let code = self.play();
            self.local.record(code);
            proof {
                assert forall|c: i8| self.local@.count(c) > 0 implies -1 <= c <= 51 by {
                    if c != code {
                        assert(old(self).local@.count(c) > 0);
                    }
                }
            }
            Some(code)
        } else {
            None
        }
    }

    /// Number of trials that the worker has recorded.
    pub fn recorded(&self) -> (count: u64)
        requires
            self.wf(),
        ensures
            count == self.tally().len(),
    {
        self.local.total()
    }

    /// A copy of the deck as the worker last shuffled it: after a win, the
    /// winning permutation.
    pub fn last_deck(&self) -> (deck: [Card; 52])
        ensures
            deck@ == self.deck(),
    {
        self.deck
    }

    /// Ends the worker and hands out its histogram, to be merged.
    pub fn finish(self) -> (local: Histogram)
        requires
            self.wf(),
        ensures
            local.wf(),
            local@ == self.tally(),
            codes_in_range(local@),
    {
        self.local
    }
}

/// What is left of a budget once `issued` indices have been claimed.
pub open spec fn budget_left(issued: nat, budget: u64) -> nat {
    if issued < budget {
        (budget - issued) as nat
    } else {
        0
    }
}

/// Runs one worker against the dispatcher until a claim falls past the
/// budget, and returns what it recorded: one outcome for each claim within the
/// budget, so the rest of the budget if any was left.
pub fn run_worker(dispatcher: &mut Dispatcher, budget: u64) -> (local: Histogram)
    requires
        old(dispatcher).issued() < u64::MAX,
        budget < u64::MAX,
    ensures
        local.wf(),
        codes_in_range(local@),
        local@.len() == budget_left(old(dispatcher).issued(), budget),
        final(dispatcher).issued() == old(dispatcher).issued() + local@.len() + 1,
{
    let mut worker = Worker::new();
    let mut running = true;
    while running
        invariant
            worker.wf(),
            budget < u64::MAX,
            old(dispatcher).issued() <= dispatcher.issued() <= u64::MAX,
            running ==> dispatcher.issued() < u64::MAX,
            running ==> dispatcher.issued() <= budget || dispatcher.issued() == old(
                dispatcher,
            ).issued(),
            running ==> worker.tally().len() == dispatcher.issued() - old(dispatcher).issued(),
            !running ==> worker.tally().len() == budget_left(old(dispatcher).issued(), budget),
            !running ==> dispatcher.issued() == old(dispatcher).issued() + worker.tally().len() + 1,
        decreases
            (if running {
                1int
            } else {
                0int
            }) + budget_left(dispatcher.issued(), budget),
    {
        let index = dispatcher.claim();
        if worker.trial(index, budget).is_none() {
            running = false;
        }
    }
    worker.finish()
}

/// A fixed-count run: `workers` workers share one dispatcher and the budget,
/// and each hands its histogram in to the global one when it stops. The
/// global histogram then holds exactly `budget` outcomes.
pub fn run_fixed_count(budget: u64, workers: usize) -> (global: Histogram)
    requires
        budget + workers <= u64::MAX,
    ensures
        global.wf(),
        codes_in_range(global@),
        global@.len() == if workers > 0 {
            budget as nat
        } else {
            0
        },
{
    let mut dispatcher = Dispatcher::new();
    let mut global = Histogram::new();
    let mut started: usize = 0;
    while started < workers
        invariant
            started <= workers,
            budget + workers <= u64::MAX,
            global.wf(),
            codes_in_range(global@),
            started == 0 ==> dispatcher.issued() == 0 && global@.len() == 0,
            started > 0 ==> dispatcher.issued() == budget + started && global@.len() == budget,
        decreases workers - started,
    {
        let local = run_worker(&mut dispatcher, budget);
        global.merge(&local);
        started = started + 1;
    }
    global
}

/// A win race over a given list of deals: the decks are played in order until
/// one ends with the target code. Returns the position of that deck, which is
/// the only one reported, or nothing if no deck of the list wins.
pub fn race_over(decks: &Vec<[Card; 52]>, target: i8) -> (win: Option<usize>)
    ensures
        win is Some <==> exists|i: int|
            0 <= i < decks.len() && outcome(#[trigger] decks[i]@) == target,
        win matches Some(at) ==> {
            &&& at < decks.len()
            &&& outcome(decks[at as int]@) == target
            &&& forall|j: int| 0 <= j < at ==> outcome(#[trigger] decks[j]@) != target
        },
{
    let mut race = WinRace::new();
    let mut hand = gen_deck();
    let mut at: usize = 0;
    while at < decks.len()
        invariant
            at <= decks.len(),
            !race.found(),
            forall|j: int| 0 <= j < at ==> outcome(#[trigger] decks[j]@) != target,
        decreases decks.len() - at,
    {
        let code = play_game(&decks[at], &mut hand);
        match race.observe(code, target) {
            Verdict::Report => {
                return Some(at);
            },
            Verdict::Stop => {
                return None;
            },
            Verdict::Continue => {},
        }
        at = at + 1;
    }
    None
}

/// A win race with a bound: one worker shuffles and plays up to `limit`
/// trials and stops at the first that ends with the target code. Returns the
/// number of attempts it took and the winning deck, or nothing if no trial
/// within the bound won.
pub fn run_win_race(target: i8, limit: u64) -> (win: Option<(u64, [Card; 52])>)
    ensures
        win matches Some((attempts, deck)) ==> {
            &&& 1 <= attempts <= limit
            &&& is_full_deck(deck@)
            &&& outcome(deck@) == target
        },
{
    let mut dispatcher = Dispatcher::new();
    let mut race = WinRace::new();
    let mut worker = Worker::new();
    while dispatcher.claimed() < limit
        invariant
            worker.wf(),
            !race.found(),
            dispatcher.issued() <= limit,
        decreases limit - dispatcher.issued(),
    {
        let index = dispatcher.claim();
        let code = worker.play();
        match race.observe(code, target) {
            Verdict::Report => {
                return Some((index, worker.last_deck()));
            },
            Verdict::Stop => {
                return None;
            },
            Verdict::Continue => {},
        }
    }
    None
}

} // verus!
