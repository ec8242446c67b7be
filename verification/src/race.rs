//! The win race: workers play until one of them sees the target outcome, and
//! a single flag decides which of them reports it.

use vstd::prelude::*;

verus! {

/// What a worker does after it has played a trial in a win race.
#[derive(Clone, Copy, Debug, PartialEq, Eq, Structural)]
pub enum Verdict {
    /// The trial missed the target and nobody has won yet: play on.
    Continue,
    /// This worker is the first to hit the target: it reports and stops.
    Report,
    /// Somebody else has already won: stop without reporting.
    Stop,
}

/// Whether a termination code is the one the race is run for.
pub fn is_win(code: i8, target: i8) -> (win: bool)
    ensures
        win == (code == target),
{
    code == target
}

/// The flag of a win race. It starts unset, is set by the first winner, and is
/// never unset again.
pub struct WinRace {
    found: bool,
}

impl WinRace {
    /// Whether a winner has been found.
    pub closed spec fn found(&self) -> bool {
        self.found
    }

    /// A race that nobody has won yet.
    pub fn new() -> (race: WinRace)
        ensures
            !race.found(),
    {
        WinRace { found: false }
    }

    /// Whether a winner has been found.
    pub fn is_found(&self) -> (found: bool)
        ensures
            found == self.found(),
    {
        self.found
    }

    /// Sets the flag and tells whether this call was the one that set it: the
    /// single point at which the race is decided.
    pub fn try_win(&mut self) -> (won: bool)
        ensures
            won == !old(self).found(),
            final(self).found(),
    {
        let won = !self.found;
        self.found = true;
        won
    }

    /// Takes in the code of a trial that a worker has just played.
    ///
    /// If the race is over the worker stops. Otherwise a code equal to
    /// `target` wins the race and is reported, and any other code lets the
    /// worker play on.
    pub fn observe(&mut self, code: i8, target: i8) -> (verdict: Verdict)
        ensures
            verdict == verdict_for(old(self).found(), code, target),
            final(self).found() == (old(self).found() || code == target),
    {
        if self.found {
            Verdict::Stop
        } else if is_win(code, target) {
            if self.try_win() {
                Verdict::Report
            } else {
                Verdict::Stop
            }
        } else {
            Verdict::Continue
        }
    }
}

/// The verdict on a trial, given whether the race was already won.
pub open spec fn verdict_for(found: bool, code: i8, target: i8) -> Verdict {
    if found {
        Verdict::Stop
    } else if code == target {
        Verdict::Report
    } else {
        Verdict::Continue
    }
}

/// Whether the flag is set after these codes have been observed in order.
pub open spec fn found_after(codes: Seq<i8>, target: i8) -> bool
    decreases codes.len(),
{
    if codes.len() == 0 {
        false
    } else {
        found_after(codes.drop_last(), target) || codes.last() == target
    }
}

/// Number of reports made while these codes were observed in order.
pub open spec fn reports(codes: Seq<i8>, target: i8) -> nat
    decreases codes.len(),
{
    if codes.len() == 0 {
        0
    } else {
        let earlier = codes.drop_last();
        let verdict = verdict_for(found_after(earlier, target), codes.last(), target);
        reports(earlier, target) + if verdict == Verdict::Report {
            1nat
        } else {
            0nat
        }
    }
}

/// A race reports exactly once if any observed trial hit the target, and not
/// at all if none did, however many trials hit it and in whatever order they
/// were observed.
pub proof fn lemma_one_report(codes: Seq<i8>, target: i8)
    ensures
        found_after(codes, target) == codes.contains(target),
        reports(codes, target) == if codes.contains(target) {
            1nat
        } else {
            0nat
        },
    decreases codes.len(),
{
    if codes.len() > 0 {
        let earlier = codes.drop_last();
        lemma_one_report(earlier, target);
        if earlier.contains(target) {
            let i = choose|i: int| 0 <= i < earlier.len() && earlier[i] == target;
            assert(codes[i] == target);
        } else if codes.last() == target {
            assert(codes[codes.len() - 1] == target);
        } else {
            if codes.contains(target) {
                let i = choose|i: int| 0 <= i < codes.len() && codes[i] == target;
                assert(earlier[i] == target);
            }
        }
    }
}

} // verus!
