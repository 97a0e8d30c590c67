//! The ordered stack of captured checkpoints, the source of the current safe
//! point.
use vstd::prelude::*;
use crate::geometry::{Vec3, spawn_point, ahead_of, spawn_point_spec, ahead_of_spec};

verus! {

/// A touched checkpoint: its entity and its world position.
#[derive(Clone, Copy, Debug, PartialEq, Eq, Structural)]
pub struct Checkpoint {
    pub entity: u64,
    pub position: Vec3,
}

/// The safe point of a capture sequence: ahead of the latest checkpoint, or
/// the level start when nothing was captured.
pub open spec fn safe_point(h: Seq<Checkpoint>) -> Vec3 {
    if h.len() == 0 {
        spawn_point_spec()
    } else {
        ahead_of_spec(h.last().position)
    }
}

/// Checkpoints in the order they were captured; the last one is the current
/// safe point.
#[derive(Debug)]
pub struct History(pub Vec<Checkpoint>);

impl View for History {
    type V = Seq<Checkpoint>;

    open spec fn view(&self) -> Seq<Checkpoint> {
        self.0@
    }
}

impl History {
    pub fn new() -> (r: History)
        ensures
            r@ == Seq::<Checkpoint>::empty(),
    {
        History(Vec::new())
    }

    /// The current safe point.
    pub fn last(&self) -> (r: Vec3)
        ensures
            r == safe_point(self@),
            self@.len() == 0 ==> r == spawn_point_spec(),
            self@.len() > 0 ==> r == ahead_of_spec(self@[self@.len() - 1].position),
    {
        let n = self.0.len();
        if n == 0 {
            spawn_point()
        } else {
            ahead_of(self.0[n - 1].position)
        }
    }

    pub fn empty(&self) -> (r: bool)
        ensures
            r == (self@.len() == 0),
    {
        self.0.len() == 0
    }

    /// Appends a capture; the same checkpoint may be captured again.
    pub fn push(&mut self, c: Checkpoint)
        ensures
            final(self)@ == old(self)@.push(c),
    {
        self.0.push(c);
    }

    pub fn clear(&mut self)
        ensures
            final(self)@ == Seq::<Checkpoint>::empty(),
    {
        self.0.clear();
    }

    pub fn len(&self) -> (r: usize)
        ensures
            r == self@.len(),
    {
        self.0.len()
    }
}

/// Whatever came before, after a non-empty run of captures the safe point is
/// ahead of the latest of them.
pub proof fn lemma_latest_capture_wins(before: Seq<Checkpoint>, pushed: Seq<Checkpoint>)
    requires
        pushed.len() > 0,
    ensures
        safe_point(before + pushed) == ahead_of_spec(pushed.last().position),
{
    assert((before + pushed).last() == pushed.last());
}

} // verus!
