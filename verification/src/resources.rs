//! The live star-count resource and the regeneration trigger protocol.
//!
//! UI actions add fixed increments to `value` and raise a change flag; a
//! per-tick watcher regenerates the registry exactly when the flag is up
//! and the value exceeds the baseline recorded at the last generation
//! pass. The spec functions here are the protocol's transition relation,
//! and the lemmas state its laws: a zero increment never triggers a pass,
//! and a pass that has fired does not fire again until the count grows.

use vstd::prelude::*;

verus! {

/// The star count: the live value, the value at the last generation pass,
/// and the per-tick change flag.
#[derive(Clone, Copy, PartialEq, Eq, Structural, Debug)]
pub struct StarsCount {
    pub value: u64,
    pub last_generated_baseline: u64,
    pub changed: bool,
}

/// The state after `increment(by)`: the value grows and the change flag
/// is raised; the baseline is untouched.
pub open spec fn spec_after_increment(c: StarsCount, by: u64) -> StarsCount {
    StarsCount {
        value: (c.value + by) as u64,
        last_generated_baseline: c.last_generated_baseline,
        changed: true,
    }
}

/// Whether the per-tick watcher regenerates from state `c`.
pub open spec fn spec_should_regenerate(c: StarsCount) -> bool {
    c.changed && c.value > c.last_generated_baseline
}

/// The state the watcher leaves behind: the change flag is consumed, and
/// on a fired pass the baseline catches up with the value.
pub open spec fn spec_after_watch(c: StarsCount) -> StarsCount {
    StarsCount {
        value: c.value,
        last_generated_baseline: if spec_should_regenerate(c) {
            c.value
        } else {
            c.last_generated_baseline
        },
        changed: false,
    }
}

impl StarsCount {
    /// Invariant kept by every operation: the value never falls below the
    /// baseline, and any excess over the baseline is flagged as a change.
    pub open spec fn wf(self) -> bool {
        &&& self.value >= self.last_generated_baseline
        &&& (self.value > self.last_generated_baseline ==> self.changed)
    }

    /// A fresh count with nothing generated yet: the flag is up so that
    /// the first watcher pass populates the registry.
    pub fn new(initial: u64) -> (c: StarsCount)
        ensures
            c.value == initial,
            c.last_generated_baseline == 0,
            c.changed,
            c.wf(),
    {
        StarsCount { value: initial, last_generated_baseline: 0, changed: true }
    }

    /// A UI action: add `by` and mark the change for the coming tick.
    pub fn increment(&mut self, by: u64)
        requires
            old(self).value + by <= u64::MAX,
        ensures
            *final(self) == spec_after_increment(*old(self), by),
            old(self).wf() ==> final(self).wf(),
    {
        self.value = self.value + by;
        self.changed = true;
    }
}

impl Default for StarsCount {
    /// The startup count: 1000 stars owed to the first watcher pass.
    fn default() -> (c: StarsCount)
        ensures
            c.value == 1000,
            c.last_generated_baseline == 0,
            c.changed,
            c.wf(),
    {
        StarsCount::new(1000)
    }
}

/// A zero increment never triggers regeneration: on a well-formed state
/// the flag it raises changes nothing about the watcher's decision, since
/// any excess over the baseline was already flagged.
pub proof fn lemma_increment_zero_no_trigger(c: StarsCount)
    requires
        c.wf(),
        c.value + 0 <= u64::MAX,
    ensures
        spec_should_regenerate(spec_after_increment(c, 0)) == spec_should_regenerate(c),
{
}

/// Monotonic regeneration: from a settled state, two increments followed
/// by one watcher pass fire exactly once, at the summed value, and leave
/// a state on which the watcher does not fire again.
pub proof fn lemma_monotonic_regeneration(c: StarsCount, a: u64, b: u64)
    requires
        c.wf(),
        c.value == c.last_generated_baseline,
        c.value + a + b <= u64::MAX,
        a + b > 0,
    ensures
        spec_should_regenerate(spec_after_increment(spec_after_increment(c, a), b)),
        spec_after_increment(spec_after_increment(c, a), b).value == c.value + a + b,
        !spec_should_regenerate(
            spec_after_watch(spec_after_increment(spec_after_increment(c, a), b)),
        ),
{
}

} // verus!
