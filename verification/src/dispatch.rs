//! The trial dispatcher: one counter from which every worker claims the index
//! of its next trial, and the rule that ends a run with a fixed budget.

use vstd::prelude::*;

verus! {

/// The counter of trial indices. The first claim is 1 and each later claim is
/// one more than the claim before it, whoever makes it.
pub struct Dispatcher {
    issued: u64,
}

impl Dispatcher {
    /// Number of claims made so far, which is also the last index handed out.
    pub closed spec fn issued(&self) -> nat {
        self.issued as nat
    }

    /// A dispatcher from which nothing has been claimed.
    pub fn new() -> (dispatcher: Dispatcher)
        ensures
            dispatcher.issued() == 0,
    {
        Dispatcher { issued: 0 }
    }

    /// Claims the next trial index.
    pub fn claim(&mut self) -> (index: u64)
        requires
            old(self).issued() < u64::MAX,
        ensures
            index == old(self).issued() + 1,
            final(self).issued() == index,
    {
        self.issued = self.issued + 1;
        self.issued
    }

    /// The number of claims made so far, as the progress reporter samples it.
    pub fn claimed(&self) -> (count: u64)
        ensures
            count == self.issued(),
    {
        self.issued
    }
}

/// Whether a claimed index still falls within the budget of a fixed-count
/// run. A worker runs the trial if it does and stops claiming if it does not.
pub fn within_budget(index: u64, budget: u64) -> (valid: bool)
    ensures
        valid == (index <= budget),
{
    index <= budget
}

/// A fixed-count run seen from the dispatcher: how many indices were issued,
/// which of them were within the budget, and which workers have stopped.
pub struct Pool {
    /// Number of claims made so far by all workers together.
    pub issued: nat,
    /// The claims that were within the budget, in the order of issue.
    pub granted: Seq<nat>,
    /// The workers that claimed past the budget and stopped.
    pub stopped: Set<nat>,
}

impl Pool {
    /// The pool before the first claim.
    pub open spec fn start() -> Pool {
        Pool { issued: 0, granted: Seq::empty(), stopped: Set::empty() }
    }

    /// One claim by `worker`. A worker that has stopped claims nothing; any
    /// other receives the next index, and stops if it is past the budget.
    pub open spec fn claim_by(self, worker: nat, budget: nat) -> Pool {
        if self.stopped.contains(worker) {
            self
        } else if self.issued + 1 <= budget {
            Pool {
                issued: self.issued + 1,
                granted: self.granted.push(self.issued + 1),
                stopped: self.stopped,
            }
        } else {
            Pool {
                issued: self.issued + 1,
                granted: self.granted,
                stopped: self.stopped.insert(worker),
            }
        }
    }

    /// The pool after the workers have claimed in the order that `schedule`
    /// names them.
    pub open spec fn run(self, schedule: Seq<nat>, budget: nat) -> Pool
        decreases schedule.len(),
    {
        if schedule.len() == 0 {
            self
        } else {
            self.run(schedule.drop_last(), budget).claim_by(schedule.last(), budget)
        }
    }

    /// The granted claims are 1, 2, 3, ... up to the budget at most, and a
    /// worker has stopped only once the budget was used up.
    pub open spec fn orderly(self, budget: nat) -> bool {
        &&& self.granted.len() == if self.issued <= budget {
            self.issued
        } else {
            budget
        }
        &&& forall|i: int| 0 <= i < self.granted.len() ==> self.granted[i] == i + 1
        &&& forall|worker: nat| self.stopped.contains(worker) ==> self.issued > budget
    }

    /// Every claim keeps the pool orderly.
    pub proof fn lemma_claim_orderly(self, worker: nat, budget: nat)
        requires
            self.orderly(budget),
        ensures
            self.claim_by(worker, budget).orderly(budget),
    {
    }

    /// Whatever the schedule, the pool stays orderly.
    pub proof fn lemma_run_orderly(self, schedule: Seq<nat>, budget: nat)
        requires
            self.orderly(budget),
        ensures
            self.run(schedule, budget).orderly(budget),
        decreases schedule.len(),
    {
        if schedule.len() > 0 {
            self.lemma_run_orderly(schedule.drop_last(), budget);
            self.run(schedule.drop_last(), budget).lemma_claim_orderly(schedule.last(), budget);
        }
    }
}

/// A fixed-count run grants exactly `budget` trials, each index from 1 to
/// `budget` once: in whatever order any number of workers claim, no index is
/// granted twice or skipped and none past the budget is granted, and once the
/// workers have all stopped, and there is at least one, the budget is used up
/// to the last index.
pub proof fn lemma_fixed_count_grants_budget(schedule: Seq<nat>, budget: nat, workers: nat)
    ensures
        ({
            let pool = Pool::start().run(schedule, budget);
            &&& pool.granted.len() <= budget
            &&& forall|i: int| 0 <= i < pool.granted.len() ==> pool.granted[i] == i + 1
            &&& pool.granted.no_duplicates()
            &&& workers >= 1 && (forall|w: nat| w < workers ==> pool.stopped.contains(w))
                ==> pool.granted.len() == budget
        }),
{
    Pool::start().lemma_run_orderly(schedule, budget);
    let pool = Pool::start().run(schedule, budget);
    if workers >= 1 && (forall|w: nat| w < workers ==> pool.stopped.contains(w)) {
        assert(pool.stopped.contains(0));
    }
}

} // verus!
