//! Progress reporting: the smoothed rate of trials per interval, and the
//! round numbers of trials that are worth a line of output.

use num_format::{Locale, ToFormattedString};
use vstd::prelude::*;

verus! {

/// Trials between two progress lines.
pub const MILESTONE: u64 = 1_000_000;

/// Sum of a run of samples.
pub open spec fn sum(samples: Seq<u64>) -> nat
    decreases samples.len(),
{
    if samples.len() == 0 {
        0
    } else {
        sum(samples.drop_last()) + samples.last() as nat
    }
}

/// The window after one more sample: the newest sample is added, and the
/// oldest leaves once the window is full.
pub open spec fn slide(window: Seq<u64>, sample: u64) -> Seq<u64> {
    if window.len() < 5 {
        window.push(sample)
    } else {
        window.skip(1).push(sample)
    }
}

/// The smoothed rate: the mean of the samples in the window, rounded down.
pub open spec fn mean(window: Seq<u64>) -> nat {
    if window.len() == 0 {
        0
    } else {
        sum(window) / window.len()
    }
}

/// Trials claimed between two readings of the counter; a reading below the
/// one before it counts as no progress.
pub open spec fn delta(before: u64, now: u64) -> u64 {
    if now >= before {
        (now - before) as u64
    } else {
        0
    }
}

/// The last few samples of the trial counter, from which the reporter states
/// a smoothed rate after every sample.
pub struct RateWindow {
    samples: [u64; 5],
    held: usize,
    last: u64,
}

impl RateWindow {
    /// The samples in the window, the oldest first.
    pub closed spec fn window(&self) -> Seq<u64> {
        self.samples@.subrange(0, self.held as int)
    }

    /// The reading of the counter at the latest sample.
    pub closed spec fn last(&self) -> u64 {
        self.last
    }

    /// The window never holds more samples than it is wide.
    pub closed spec fn wf(&self) -> bool {
        self.held <= 5
    }

    /// An empty window over a counter that stands at zero.
    pub fn new() -> (window: RateWindow)
        ensures
            window.wf(),
            window.window() == Seq::<u64>::empty(),
            window.last() == 0,
    {
        let window = RateWindow { samples: [0, 0, 0, 0, 0], held: 0, last: 0 };
        assert(window.window() =~= Seq::<u64>::empty());
        window
    }

    /// Takes a reading of the trial counter and returns the smoothed rate of
    /// trials per interval.
    pub fn sample(&mut self, reading: u64) -> (rate: u64)
        requires
            old(self).wf(),
        ensures
            final(self).wf(),
            final(self).last() == reading,
            final(self).window() == slide(old(self).window(), delta(old(self).last(), reading)),
            rate == mean(final(self).window()),
    {
        let step: u64 = if reading >= self.last {
            reading - self.last
        } else {
            0
        };
        self.last = reading;
        if self.held < 5 {
            self.samples[self.held] = step;
            self.held = self.held + 1;
        } else {
            self.samples[0] = self.samples[1];
            self.samples[1] = self.samples[2];
            self.samples[2] = self.samples[3];
            self.samples[3] = self.samples[4];
            self.samples[4] = step;
        }
        assert(self.window() =~= slide(old(self).window(), step));

        let mut total: u128 = 0;
        let mut i: usize = 0;
        while i < self.held
            invariant
                i <= self.held <= 5,
                total == sum(self.samples@.subrange(0, i as int)),
                total <= i * u64::MAX,
            decreases self.held - i,
        {
            proof {
                let longer = self.samples@.subrange(0, i + 1);
                assert(longer.drop_last() =~= self.samples@.subrange(0, i as int));
                assert(i * u64::MAX + u64::MAX == (i + 1) * u64::MAX) by (nonlinear_arith);
            }
            total = total + self.samples[i] as u128;
            i = i + 1;
        }
        proof {
            assert(total / (self.held as u128) <= u64::MAX) by (nonlinear_arith)
                requires
                    total <= self.held * u64::MAX,
                    self.held > 0,
            ;
        }
        (total / self.held as u128) as u64
    }
}

/// The character of one decimal digit.
pub open spec fn digit(d: nat) -> char {
    seq!['0', '1', '2', '3', '4', '5', '6', '7', '8', '9'][d as int]
}

/// A number in decimal digits, without leading zeros.
pub open spec fn decimal(n: nat) -> Seq<char>
    decreases n,
{
    if n < 10 {
        seq![digit(n)]
    } else {
        decimal(n / 10).push(digit(n % 10))
    }
}

/// A number in decimal digits with a comma before every group of three
/// digits counted from the right, as in 1,000,000.
pub open spec fn grouped(n: nat) -> Seq<char>
    decreases n,
{
    if n < 1000 {
        decimal(n)
    } else {
        grouped(n / 1000) + seq![','] + seq![
            digit(n / 100 % 10),
            digit(n / 10 % 10),
            digit(n % 10),
        ]
    }
}

/// Formats a count for the English locale with `to_formatted_string` of
/// num_format.
///
/// Trusted: the locale `en` groups the decimal digits in threes and separates
/// the groups by a comma, so the text is `grouped` of the count.
#[verifier::external_body]
fn grouped_text(count: u64) -> (text: String)
    ensures
        text@ == grouped(count as nat),
{
    count.to_formatted_string(&Locale::en)
}

/// Whether a trial index is worth a progress line: every millionth is.
pub fn is_milestone(index: u64) -> (due: bool)
    ensures
        due == (index % 1_000_000 == 0),
{
    index % MILESTONE == 0
}

/// The number to print when a trial index is worth a progress line: the index
/// with its digits grouped, for every millionth index, and nothing otherwise.
pub fn milestone_label(index: u64) -> (label: Option<String>)
    ensures
        label is Some <==> index % 1_000_000 == 0,
        label matches Some(text) ==> text@ == grouped(index as nat),
{
    if is_milestone(index) {
        Some(grouped_text(index))
    } else {
        None
    }
}

} // verus!
