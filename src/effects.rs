//! Per-level effect tables and the one-shot lifetimes of transient effects.
use vstd::prelude::*;
use crate::level::{LEVEL_COUNT, valid_level};

verus! {

/// Effect handles, one per level for the level-entry and checkpoint effects.
pub struct ParticleEffects<H> {
    pub new_level_fx: Vec<H>,
    pub checkpoint_fx: Vec<H>,
}

impl<H> ParticleEffects<H> {
    pub open spec fn wf(&self) -> bool {
        &&& self.new_level_fx@.len() == LEVEL_COUNT
        &&& self.checkpoint_fx@.len() == LEVEL_COUNT
    }

    /// The level-entry effect of `lvl`.
    pub fn get_new_level_fx(&self, lvl: usize) -> (r: &H)
        requires
            self.wf(),
            valid_level(lvl as int),
        ensures
            *r == self.new_level_fx@[lvl - 1],
    {
        &self.new_level_fx[lvl - 1]
    }

    /// The checkpoint effect of `lvl`.
    pub fn get_checkpoint_fx(&self, lvl: usize) -> (r: &H)
        requires
            self.wf(),
            valid_level(lvl as int),
        ensures
            *r == self.checkpoint_fx@[lvl - 1],
    {
        &self.checkpoint_fx[lvl - 1]
    }
}

/// A one-shot countdown, in nanoseconds, after which an effect is removed.
#[derive(Clone, Copy, Debug, PartialEq, Eq, Structural)]
pub struct Lifetime {
    pub duration: u64,
    pub elapsed: u64,
    pub finished: bool,
}

/// A countdown after a tick of `delta`: once finished it stays as it is;
/// otherwise time runs up to the duration, where it finishes.
pub open spec fn ticked(l: Lifetime, delta: u64) -> Lifetime {
    if l.finished {
        l
    } else if l.elapsed + delta >= l.duration {
        Lifetime { duration: l.duration, elapsed: l.duration, finished: true }
    } else {
        Lifetime { duration: l.duration, elapsed: (l.elapsed + delta) as u64, finished: false }
    }
}

impl Lifetime {
    pub fn new(duration: u64) -> (r: Lifetime)
        ensures
            r == (Lifetime { duration, elapsed: 0, finished: false }),
    {
        Lifetime { duration, elapsed: 0, finished: false }
    }

    /// Advances the countdown; returns whether it finished on this tick.
    pub fn tick(&mut self, delta: u64) -> (r: bool)
        ensures
            *final(self) == ticked(*old(self), delta),
            r == (!old(self).finished && final(self).finished),
    {
        if self.finished {
            return false;
        }
        if delta >= self.duration || self.elapsed >= self.duration - delta {
            self.elapsed = self.duration;
            self.finished = true;
            true
        } else {
            self.elapsed = self.elapsed + delta;
            false
        }
    }
}

/// Positions of the countdowns that finish on a tick, in order.
pub open spec fn finishing(ls: Seq<Lifetime>, delta: u64) -> Seq<usize>
    decreases ls.len(),
{
    if ls.len() == 0 {
        Seq::empty()
    } else if !ls.last().finished && ticked(ls.last(), delta).finished {
        finishing(ls.drop_last(), delta).push((ls.len() - 1) as usize)
    } else {
        finishing(ls.drop_last(), delta)
    }
}

/// Ticks every countdown and returns the positions of those that finished
/// now, whose effects are to be removed.
pub fn cleanup_timed(lifetimes: &mut Vec<Lifetime>, delta: u64) -> (r: Vec<usize>)
    ensures
        final(lifetimes)@.len() == old(lifetimes)@.len(),
        forall|i: int|
            0 <= i < old(lifetimes)@.len() ==> #[trigger] final(lifetimes)@[i] == ticked(
                old(lifetimes)@[i],
                delta,
            ),
        r@ == finishing(old(lifetimes)@, delta),
{
    let n = lifetimes.len();
    let mut r: Vec<usize> = Vec::new();
    let mut i: usize = 0;
    while i < n
        invariant
            n == old(lifetimes)@.len(),
            lifetimes@.len() == n,
            i <= n,
            r@ == finishing(old(lifetimes)@.take(i as int), delta),
            forall|j: int|
                0 <= j < i ==> #[trigger] lifetimes@[j] == ticked(old(lifetimes)@[j], delta),
            forall|j: int| i <= j < n ==> #[trigger] lifetimes@[j] == old(lifetimes)@[j],
        decreases n - i,
    {
        assert(old(lifetimes)@.take(i + 1).drop_last() == old(lifetimes)@.take(i as int));
        assert(old(lifetimes)@.take(i + 1).last() == old(lifetimes)@[i as int]);
        let mut l = lifetimes[i];
        let done = l.tick(delta);
        lifetimes.set(i, l);
        if done {
            r.push(i);
        }
        i = i + 1;
    }
    assert(old(lifetimes)@.take(n as int) == old(lifetimes)@);
    r
}

} // verus!
