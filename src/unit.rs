//! Tracked units: the bounds monitor that notices a fallen unit and the
//! respawn dispatcher that puts units of a kind back at a target.
use vstd::prelude::*;
use crate::geometry::{Vec3, is_out_of_bounds, out_of_bounds_spec};
use crate::history::{History, safe_point};

verus! {

/// The kinds of units that are watched and respawned.
#[derive(Clone, Copy, Debug, PartialEq, Eq, Structural)]
pub enum UnitKind {
    Player,
    Prop,
}

/// A tracked unit: its kind, position and linear velocity.
#[derive(Clone, Copy, Debug, PartialEq, Eq, Structural)]
pub struct Body {
    pub kind: UnitKind,
    pub position: Vec3,
    pub velocity: Vec3,
}

/// A request to move every unit of `kind` to `translation` and stop it.
#[derive(Clone, Copy, Debug, PartialEq, Eq, Structural)]
pub struct Respawn {
    pub kind: UnitKind,
    pub translation: Vec3,
}

impl Respawn {
    pub fn new(kind: UnitKind, translation: Vec3) -> (r: Respawn)
        ensures
            r == (Respawn { kind, translation }),
    {
        Respawn { kind, translation }
    }
}

/// The requests that one pass of the bounds monitor raises: one for each
/// fallen unit, in order, each aimed at the safe point.
pub open spec fn fall_requests(bodies: Seq<Body>, safe: Vec3) -> Seq<Respawn>
    decreases bodies.len(),
{
    if bodies.len() == 0 {
        Seq::empty()
    } else {
        let rest = fall_requests(bodies.drop_last(), safe);
        let b = bodies.last();
        if out_of_bounds_spec(b.position, safe) {
            rest.push(Respawn { kind: b.kind, translation: safe })
        } else {
            rest
        }
    }
}

/// Where the latest request for `kind` sends its units, if any request does.
pub open spec fn respawn_target(kind: UnitKind, reqs: Seq<Respawn>) -> Option<Vec3>
    decreases reqs.len(),
{
    if reqs.len() == 0 {
        None
    } else if reqs.last().kind == kind {
        Some(reqs.last().translation)
    } else {
        respawn_target(kind, reqs.drop_last())
    }
}

/// A unit after the dispatcher has handled `reqs`.
pub open spec fn respawned(b: Body, reqs: Seq<Respawn>) -> Body {
    match respawn_target(b.kind, reqs) {
        Some(t) => Body { kind: b.kind, position: t, velocity: Vec3::zero_spec() },
        None => b,
    }
}

/// Bounds monitor: one request per unit that has fallen away from the
/// current safe point.
pub fn out_of_bounds(bodies: &Vec<Body>, history: &History) -> (r: Vec<Respawn>)
    ensures
        r@ == fall_requests(bodies@, safe_point(history@)),
{
    let spawn_point = history.last();
    let mut r: Vec<Respawn> = Vec::new();
    let mut i: usize = 0;
    while i < bodies.len()
        invariant
            i <= bodies@.len(),
            spawn_point == safe_point(history@),
            r@ == fall_requests(bodies@.take(i as int), spawn_point),
        decreases bodies@.len() - i,
    {
        let b = bodies[i];
        assert(bodies@.take(i + 1).drop_last() == bodies@.take(i as int));
        if is_out_of_bounds(b.position, spawn_point) {
            r.push(Respawn::new(b.kind, spawn_point));
        }
        i = i + 1;
    }
    assert(bodies@.take(bodies@.len() as int) == bodies@);
    r
}

/// The target of the latest request for `kind`.
pub fn latest_target(kind: UnitKind, reqs: &Vec<Respawn>) -> (r: Option<Vec3>)
    ensures
        r == respawn_target(kind, reqs@),
{
    let mut i: usize = reqs.len();
    assert(reqs@.take(i as int) == reqs@);
    while i > 0
        invariant
            i <= reqs@.len(),
            respawn_target(kind, reqs@) == respawn_target(kind, reqs@.take(i as int)),
        decreases i,
    {
        assert(reqs@.take(i as int).drop_last() == reqs@.take(i - 1));
        if reqs[i - 1].kind == kind {
            return Some(reqs[i - 1].translation);
        }
        i = i - 1;
    }
    None
}

/// Respawn dispatcher: every unit of a kind that a request names is moved to
/// the latest such target and stopped; other units are left alone.
pub fn respawn(bodies: &mut Vec<Body>, reqs: &Vec<Respawn>)
    ensures
        final(bodies)@.len() == old(bodies)@.len(),
        forall|i: int|
            0 <= i < old(bodies)@.len() ==> #[trigger] final(bodies)@[i] == respawned(
                old(bodies)@[i],
                reqs@,
            ),
{
    let player = latest_target(UnitKind::Player, reqs);
    let prop = latest_target(UnitKind::Prop, reqs);
    let n = bodies.len();
    let mut i: usize = 0;
    while i < n
        invariant
            n == old(bodies)@.len(),
            bodies@.len() == n,
            i <= n,
            player == respawn_target(UnitKind::Player, reqs@),
            prop == respawn_target(UnitKind::Prop, reqs@),
            forall|j: int| 0 <= j < i ==> #[trigger] bodies@[j] == respawned(old(bodies)@[j], reqs@),
            forall|j: int| i <= j < n ==> #[trigger] bodies@[j] == old(bodies)@[j],
        decreases n - i,
    {
        let b = bodies[i];
        let target = match b.kind {
            UnitKind::Player => player,
            UnitKind::Prop => prop,
        };
        match target {
            Some(t) => {
                bodies.set(i, Body { kind: b.kind, position: t, velocity: Vec3::zero() });
            },
            None => {},
        }
        i = i + 1;
    }
}

/// Every request raised by the bounds monitor aims at the safe point.
pub proof fn lemma_fall_requests_aim_at_safe_point(bodies: Seq<Body>, safe: Vec3)
    ensures
        forall|j: int|
            0 <= j < fall_requests(bodies, safe).len() ==> (#[trigger] fall_requests(
                bodies,
                safe,
            )[j]).translation == safe,
    decreases bodies.len(),
{
    if bodies.len() > 0 {
        lemma_fall_requests_aim_at_safe_point(bodies.drop_last(), safe);
    }
}

/// A fallen unit gets a request of its kind.
pub proof fn lemma_fallen_unit_is_requested(bodies: Seq<Body>, safe: Vec3, i: int)
    requires
        0 <= i < bodies.len(),
        out_of_bounds_spec(bodies[i].position, safe),
    ensures
        exists|j: int|
            0 <= j < fall_requests(bodies, safe).len() && #[trigger] fall_requests(
                bodies,
                safe,
            )[j] == (Respawn { kind: bodies[i].kind, translation: safe }),
    decreases bodies.len(),
{
    let rest = fall_requests(bodies.drop_last(), safe);
    if i == bodies.len() - 1 {
        assert(fall_requests(bodies, safe)[rest.len() as int] == (Respawn {
            kind: bodies[i].kind,
            translation: safe,
        }));
    } else {
        assert(bodies.drop_last()[i] == bodies[i]);
        lemma_fallen_unit_is_requested(bodies.drop_last(), safe, i);
        let j = choose|j: int|
            0 <= j < rest.len() && #[trigger] rest[j] == (Respawn {
                kind: bodies[i].kind,
                translation: safe,
            });
        assert(fall_requests(bodies, safe)[j] == rest[j]);
    }
}

/// When some request names a kind, the latest request for it is one of them.
pub proof fn lemma_target_is_some_request(kind: UnitKind, reqs: Seq<Respawn>, j: int)
    requires
        0 <= j < reqs.len(),
        reqs[j].kind == kind,
    ensures
        exists|m: int|
            0 <= m < reqs.len() && respawn_target(kind, reqs) == Some(
                (#[trigger] reqs[m]).translation,
            ),
    decreases reqs.len(),
{
    if reqs.last().kind != kind {
        assert(j < reqs.len() - 1);
        assert(reqs.drop_last()[j] == reqs[j]);
        lemma_target_is_some_request(kind, reqs.drop_last(), j);
        let m = choose|m: int|
            0 <= m < reqs.drop_last().len() && respawn_target(kind, reqs.drop_last()) == Some(
                (#[trigger] reqs.drop_last()[m]).translation,
            );
        assert(reqs[m] == reqs.drop_last()[m]);
    } else {
        assert(respawn_target(kind, reqs) == Some(reqs[reqs.len() - 1].translation));
    }
}

/// A unit that has fallen away from the safe point is caught by one pass of
/// the bounds monitor, and the dispatcher then leaves it at the safe point at
/// rest.
pub proof fn lemma_fallen_unit_returns(bodies: Seq<Body>, safe: Vec3, i: int)
    requires
        0 <= i < bodies.len(),
        out_of_bounds_spec(bodies[i].position, safe),
    ensures
        fall_requests(bodies, safe).contains(Respawn { kind: bodies[i].kind, translation: safe }),
        respawn_target(bodies[i].kind, fall_requests(bodies, safe)) == Some(safe),
        respawned(bodies[i], fall_requests(bodies, safe)) == (Body {
            kind: bodies[i].kind,
            position: safe,
            velocity: Vec3::zero_spec(),
        }),
{
    let reqs = fall_requests(bodies, safe);
    lemma_fallen_unit_is_requested(bodies, safe, i);
    lemma_fall_requests_aim_at_safe_point(bodies, safe);
    let j = choose|j: int|
        0 <= j < reqs.len() && #[trigger] reqs[j] == (Respawn {
            kind: bodies[i].kind,
            translation: safe,
        });
    lemma_target_is_some_request(bodies[i].kind, reqs, j);
}

} // verus!
