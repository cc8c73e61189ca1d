//! The poll loop's failure policy. Each cycle fetches presence and calendar,
//! pushes the derived status to the display, and reports how it went; the
//! error counter decides whether the loop goes on.

use vstd::prelude::*;

verus! {

/// Consecutive failed cycles tolerated before the loop stops.
pub const DEFAULT_ERROR_TOLERANCE: u64 = 5;

/// How one poll cycle ended.
#[derive(Clone, Copy, Debug, PartialEq, Eq, Structural)]
pub enum CycleOutcome {
    /// Fetching presence or calendar failed; nothing was pushed.
    FetchFailed,
    /// The status was derived but the push to the display failed.
    PushFailed,
    /// Both fetches and the push succeeded.
    Delivered,
}

/// What the loop does after a cycle.
#[derive(Clone, Copy, Debug, PartialEq, Eq, Structural)]
pub enum NextStep {
    /// Sleep for the poll interval, then run the next cycle.
    Sleep,
    /// Stop: the tolerance is exceeded and the failure is fatal.
    Abort,
}

/// The count of consecutive failed cycles since the last delivered one.
pub struct ErrorCounter {
    count: u64,
    tolerance: u64,
}

/// The count after a cycle with `outcome`, from `count`.
pub open spec fn next_count(count: u64, outcome: CycleOutcome) -> u64 {
    match outcome {
        CycleOutcome::Delivered => 0,
        _ => if count < u64::MAX {
            (count + 1) as u64
        } else {
            count
        },
    }
}

/// What the loop does once the count is `count`.
pub open spec fn step_for(count: u64, tolerance: u64) -> NextStep {
    if count > tolerance {
        NextStep::Abort
    } else {
        NextStep::Sleep
    }
}

/// The count after `k` failed cycles in a row, from `count`.
pub open spec fn count_after_failures(count: u64, k: nat) -> u64
    decreases k,
{
    if k == 0 {
        count
    } else {
        next_count(count_after_failures(count, (k - 1) as nat), CycleOutcome::FetchFailed)
    }
}

impl ErrorCounter {
    pub closed spec fn spec_count(&self) -> u64 {
        self.count
    }

    pub closed spec fn spec_tolerance(&self) -> u64 {
        self.tolerance
    }

    /// A counter at zero that tolerates `tolerance` consecutive failures.
    pub fn new(tolerance: u64) -> (r: ErrorCounter)
        ensures
            r.spec_count() == 0,
            r.spec_tolerance() == tolerance,
    {
        ErrorCounter { count: 0, tolerance }
    }

    /// The number of consecutive failed cycles.
    pub fn count(&self) -> (r: u64)
        ensures
            r == self.spec_count(),
    {
        self.count
    }

    /// The number of consecutive failed cycles that is tolerated.
    pub fn tolerance(&self) -> (r: u64)
        ensures
            r == self.spec_tolerance(),
    {
        self.tolerance
    }

    /// Whether more failures than tolerated have occurred in a row.
    pub fn is_exceeded(&self) -> (r: bool)
        ensures
            r == (self.spec_count() > self.spec_tolerance()),
    {
        self.count > self.tolerance
    }

    /// Records how a cycle ended: a delivered cycle resets the count to zero,
    /// a failed one adds one to it. The loop stops once the count exceeds the
    /// tolerance.
    pub fn record(&mut self, outcome: CycleOutcome) -> (r: NextStep)
        ensures
            final(self).spec_count() == next_count(old(self).spec_count(), outcome),
            final(self).spec_tolerance() == old(self).spec_tolerance(),
            r == step_for(final(self).spec_count(), final(self).spec_tolerance()),
    {
        match outcome {
            CycleOutcome::Delivered => {
                self.count = 0;
            },
            _ => {
                if self.count < u64::MAX {
                    self.count = self.count + 1;
                }
            },
        }
        if self.count > self.tolerance {
            NextStep::Abort
        } else {
            NextStep::Sleep
        }
    }
}

/// A cycle whose fetch and push both succeed resets the count to zero,
/// whatever it was (up to the tolerance), and the loop goes on.
pub proof fn lemma_delivery_resets(count: u64, tolerance: u64)
    requires
        count <= tolerance,
    ensures
        next_count(count, CycleOutcome::Delivered) == 0,
        step_for(next_count(count, CycleOutcome::Delivered), tolerance) == NextStep::Sleep,
{
}

/// From zero, `k` failed cycles in a row leave the count at `k`; the loop
/// goes on while `k` is within the tolerance and stops at the first failure
/// beyond it.
pub proof fn lemma_consecutive_failures(tolerance: u64, k: nat)
    requires
        k < u64::MAX,
    ensures
        count_after_failures(0, k) == k,
        step_for(count_after_failures(0, k), tolerance) == NextStep::Abort <==> k > tolerance,
    decreases k,
{
    if k > 0 {
        lemma_consecutive_failures(tolerance, (k - 1) as nat);
    }
}

} // verus!
