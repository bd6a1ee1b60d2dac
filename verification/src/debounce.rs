//! The zero-crossing detector: it commits to a crossing only after enough
//! consecutive readings agree with the edge that the step waits for.

use vstd::prelude::*;
use crate::table::{Edge, Level};

verus! {

/// The number of consecutive matching readings that the drive was tuned with.
pub const DEFAULT_THRESHOLD: u32 = 3;

/// Counts consecutive readings that match the expected edge.
#[derive(Clone, Copy, Debug, PartialEq, Eq)]
pub struct DebounceCounter {
    count: u32,
    threshold: u32,
}

/// What a counter holds: the matches in a row so far, never more than the
/// threshold, and the threshold at which it commits.
pub struct DebounceView {
    pub count: nat,
    pub threshold: nat,
}

/// The count after one more reading: one more on a match, but never beyond
/// the threshold; zero on a mismatch.
pub open spec fn next_count(count: nat, threshold: nat, matched: bool) -> nat {
    if !matched {
        0
    } else if count + 1 <= threshold {
        count + 1
    } else {
        threshold
    }
}

/// Whether one more reading completes a qualified crossing: it matches, and
/// with it the matches in a row reach the threshold.
pub open spec fn commits(count: nat, threshold: nat, matched: bool) -> bool {
    matched && count + 1 >= threshold
}

/// How many readings at the end of a run match the expected edge without a
/// break.
pub open spec fn trailing_matches(samples: Seq<Level>, expected: Edge) -> nat
    decreases samples.len(),
{
    if samples.len() == 0 {
        0
    } else if samples.last() == expected.level() {
        1 + trailing_matches(samples.drop_last(), expected)
    } else {
        0
    }
}

/// The count after a run of readings, starting from a given count.
pub open spec fn count_after(start: nat, threshold: nat, samples: Seq<Level>, expected: Edge) -> nat
    decreases samples.len(),
{
    if samples.len() == 0 {
        start
    } else {
        next_count(
            count_after(start, threshold, samples.drop_last(), expected),
            threshold,
            samples.last() == expected.level(),
        )
    }
}

/// Whether the last reading of a run, observed after those before it,
/// completes a qualified crossing.
pub open spec fn commits_on_last(
    start: nat,
    threshold: nat,
    samples: Seq<Level>,
    expected: Edge,
) -> bool
    recommends
        samples.len() > 0,
{
    commits(
        count_after(start, threshold, samples.drop_last(), expected),
        threshold,
        samples.last() == expected.level(),
    )
}

impl View for DebounceCounter {
    type V = DebounceView;

    closed spec fn view(&self) -> DebounceView {
        DebounceView { count: self.count as nat, threshold: self.threshold as nat }
    }
}

impl DebounceCounter {
    /// The threshold is at least one and the count has not passed it.
    pub open spec fn wf(&self) -> bool {
        1 <= self@.threshold && self@.count <= self@.threshold
    }

    /// A counter at zero that commits after `threshold` matches in a row. A
    /// threshold of zero is turned down: it would commit on no evidence.
    pub fn new(threshold: u32) -> (r: Option<DebounceCounter>)
        ensures
            r is Some <==> threshold >= 1,
            r matches Some(d) ==> d.wf() && d@.count == 0 && d@.threshold == threshold,
    {
        if threshold == 0 {
            None
        } else {
            Some(DebounceCounter { count: 0, threshold })
        }
    }

    /// Takes one reading. A match adds one to the count, a mismatch sets it
    /// back to zero. The result is true, a commit, when the reading matches
    /// and the matches in a row have reached the threshold.
    pub fn observe(&mut self, sample: Level, expected_edge: Edge) -> (commit: bool)
        requires
            old(self).wf(),
        ensures
            final(self).wf(),
            final(self)@.threshold == old(self)@.threshold,
            final(self)@.count == next_count(
                old(self)@.count,
                old(self)@.threshold,
                sample == expected_edge.level(),
            ),
            commit == commits(
                old(self)@.count,
                old(self)@.threshold,
                sample == expected_edge.level(),
            ),
            commit == (sample == expected_edge.level() && final(self)@.count
                == final(self)@.threshold),
    {
        if expected_edge.matches(sample) {
            if self.count < self.threshold {
                self.count = self.count + 1;
            }
            self.count >= self.threshold
        } else {
            self.count = 0;
            false
        }
    }

    /// Sets the count back to zero, as every change of step does.
    pub fn reset(&mut self)
        ensures
            final(self)@.count == 0,
            final(self)@.threshold == old(self)@.threshold,
            old(self).wf() ==> final(self).wf(),
    {
        self.count = 0;
    }

    /// The matches in a row so far.
    pub fn count(&self) -> (r: u32)
        ensures
            r == self@.count,
    {
        self.count
    }

    /// The number of matches in a row at which the counter commits.
    pub fn threshold(&self) -> (r: u32)
        ensures
            r == self@.threshold,
    {
        self.threshold
    }
}

/// After any run of readings the count is the number of matching readings at
/// the end of the run, capped at the threshold: whatever came before the last
/// mismatch is forgotten.
pub proof fn count_is_trailing_matches(threshold: nat, samples: Seq<Level>, expected: Edge)
    ensures
        count_after(0, threshold, samples, expected) == if trailing_matches(samples, expected)
            <= threshold {
            trailing_matches(samples, expected)
        } else {
            threshold
        },
    decreases samples.len(),
{
    if samples.len() > 0 {
        count_is_trailing_matches(threshold, samples.drop_last(), expected);
    }
}

/// A reading commits exactly when it and the readings just before it make up
/// at least `threshold` matches in a row. A mismatch therefore costs all
/// progress: after it, `threshold` fresh matches are needed, no more and no
/// fewer.
pub proof fn commit_needs_threshold_in_a_row(threshold: nat, samples: Seq<Level>, expected: Edge)
    requires
        threshold >= 1,
        samples.len() >= 1,
    ensures
        commits_on_last(0, threshold, samples, expected) <==> trailing_matches(samples, expected)
            >= threshold,
{
    count_is_trailing_matches(threshold, samples.drop_last(), expected);
}

/// A run of `threshold` matching readings from a counter at zero commits on
/// its last reading and on none before it.
pub proof fn commit_on_threshold_matches(threshold: nat, samples: Seq<Level>, expected: Edge)
    requires
        threshold >= 1,
        samples.len() == threshold,
        forall|i: int| 0 <= i < samples.len() ==> samples[i] == expected.level(),
    ensures
        commits_on_last(0, threshold, samples, expected),
        forall|k: int|
            1 <= k < threshold ==> !commits_on_last(
                0,
                threshold,
                #[trigger] samples.take(k),
                expected,
            ),
{
    all_matching_run(samples, expected);
    commit_needs_threshold_in_a_row(threshold, samples, expected);
    assert forall|k: int| 1 <= k < threshold implies !commits_on_last(
        0,
        threshold,
        #[trigger] samples.take(k),
        expected,
    ) by {
        let head = samples.take(k);
        all_matching_run(head, expected);
        commit_needs_threshold_in_a_row(threshold, head, expected);
    }
}

/// In a run where every reading matches, all of them count.
pub proof fn all_matching_run(samples: Seq<Level>, expected: Edge)
    requires
        forall|i: int| 0 <= i < samples.len() ==> samples[i] == expected.level(),
    ensures
        trailing_matches(samples, expected) == samples.len(),
    decreases samples.len(),
{
    if samples.len() > 0 {
        all_matching_run(samples.drop_last(), expected);
    }
}

} // verus!
