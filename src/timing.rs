//! The level stopwatch and the table of completed-level times.
use vstd::prelude::*;
use crate::level::{LEVEL_COUNT, valid_level};

verus! {

/// Stopwatch for the level in play, in nanoseconds.
#[derive(Clone, Copy, Debug, PartialEq, Eq, Structural)]
pub struct LevelDuration {
    pub elapsed: u64,
}

impl LevelDuration {
    pub fn new() -> (r: LevelDuration)
        ensures
            r.elapsed == 0,
    {
        LevelDuration { elapsed: 0 }
    }

    pub fn reset(&mut self)
        ensures
            final(self).elapsed == 0,
    {
        self.elapsed = 0;
    }

    /// Advances the stopwatch by `delta` nanoseconds, saturating.
    pub fn tick(&mut self, delta: u64)
        ensures
            final(self).elapsed == if old(self).elapsed + delta > u64::MAX {
                u64::MAX as int
            } else {
                old(self).elapsed + delta
            },
    {
        if delta > u64::MAX - self.elapsed {
            self.elapsed = u64::MAX;
        } else {
            self.elapsed = self.elapsed + delta;
        }
    }

    pub fn elapsed(&self) -> (r: u64)
        ensures
            r == self.elapsed,
    {
        self.elapsed
    }
}

/// The sum of a sequence of times.
pub open spec fn total_spec(s: Seq<u64>) -> int
    decreases s.len(),
{
    if s.len() == 0 {
        0
    } else {
        total_spec(s.drop_last()) + s.last()
    }
}

/// Completed-level times of the run, one slot per level, in nanoseconds.
#[derive(Debug)]
pub struct RunDuration {
    pub results: Vec<u64>,
}

impl RunDuration {
    pub open spec fn wf(&self) -> bool {
        self.results@.len() == LEVEL_COUNT
    }

    pub fn new() -> (r: RunDuration)
        ensures
            r.wf(),
            forall|i: int| 0 <= i < LEVEL_COUNT ==> r.results@[i] == 0,
    {
        let mut results: Vec<u64> = Vec::new();
        let mut i: usize = 0;
        while i < LEVEL_COUNT
            invariant
                i <= LEVEL_COUNT,
                results@.len() == i,
                forall|j: int| 0 <= j < i ==> results@[j] == 0,
            decreases LEVEL_COUNT - i,
        {
            results.push(0);
            i = i + 1;
        }
        RunDuration { results }
    }

    /// Clears every slot.
    pub fn reset(&mut self)
        requires
            old(self).wf(),
        ensures
            final(self).wf(),
            forall|i: int| 0 <= i < LEVEL_COUNT ==> final(self).results@[i] == 0,
    {
        let mut i: usize = 0;
        while i < LEVEL_COUNT
            invariant
                i <= LEVEL_COUNT,
                self.results@.len() == LEVEL_COUNT,
                forall|j: int| 0 <= j < i ==> self.results@[j] == 0,
            decreases LEVEL_COUNT - i,
        {
            self.results.set(i, 0);
            i = i + 1;
        }
    }

    /// Writes the time of `level`.
    pub fn record(&mut self, level: usize, time: u64)
        requires
            old(self).wf(),
            valid_level(level as int),
        ensures
            final(self).wf(),
            final(self).results@ == old(self).results@.update(level - 1, time),
    {
        self.results.set(level - 1, time);
    }

    /// The time recorded for `level`.
    pub fn result(&self, level: usize) -> (r: u64)
        requires
            self.wf(),
            valid_level(level as int),
        ensures
            r == self.results@[level - 1],
    {
        self.results[level - 1]
    }

    /// The time of the whole run.
    pub fn total(&self) -> (r: u128)
        requires
            self.wf(),
        ensures
            r == total_spec(self.results@),
    {
        let mut sum: u128 = 0;
        let mut i: usize = 0;
        while i < self.results.len()
            invariant
                i <= self.results@.len(),
                self.results@.len() == LEVEL_COUNT,
                sum == total_spec(self.results@.take(i as int)),
                sum <= i * (u64::MAX as int),
            decreases self.results@.len() - i,
        {
            assert(self.results@.take(i + 1).drop_last() == self.results@.take(i as int));
            sum = sum + self.results[i] as u128;
            i = i + 1;
        }
        assert(self.results@.take(self.results@.len() as int) == self.results@);
        sum
    }
}

/// Clears the run's table and the level stopwatch for a new run.
pub fn reset_run_duration(run_duration: &mut RunDuration, timer: &mut LevelDuration)
    requires
        old(run_duration).wf(),
    ensures
        final(run_duration).wf(),
        forall|i: int| 0 <= i < LEVEL_COUNT ==> final(run_duration).results@[i] == 0,
        final(timer).elapsed == 0,
{
    run_duration.reset();
    timer.reset();
}

} // verus!
