//! Collision categories, the one-time collider setup of scene objects, and
//! the dispatch of collision events into the progression core.
use vstd::prelude::*;
use crate::game::{AppState, EndOutcome, Game};
use crate::geometry::{Vec3, boosted_spec};
use crate::history::Checkpoint;
use crate::level::{LEVEL_COUNT, SpawnLevel};

verus! {

/// Collision categories of the world.
#[derive(Clone, Copy, Debug, PartialEq, Eq, Structural)]
pub enum CollisionLayer {
    Default,
    Player,
    Prop,
    Boost,
    Checkpoint,
    End,
}

/// The mask bit of a layer.
pub open spec fn layer_bit_spec(l: CollisionLayer) -> u32 {
    match l {
        CollisionLayer::Default => 1,
        CollisionLayer::Player => 2,
        CollisionLayer::Prop => 4,
        CollisionLayer::Boost => 8,
        CollisionLayer::Checkpoint => 16,
        CollisionLayer::End => 32,
    }
}

pub fn layer_bit(l: CollisionLayer) -> (r: u32)
    ensures
        r == layer_bit_spec(l),
{
    match l {
        CollisionLayer::Default => 1,
        CollisionLayer::Player => 2,
        CollisionLayer::Prop => 4,
        CollisionLayer::Boost => 8,
        CollisionLayer::Checkpoint => 16,
        CollisionLayer::End => 32,
    }
}

/// A mask that admits every layer.
pub const ALL_LAYERS: u32 = 0xffff_ffff;

/// Kinds of scene objects that get a collider once the scene is in place.
#[derive(Clone, Copy, Debug, PartialEq, Eq, Structural)]
pub enum HazardKind {
    Prop,
    Ground,
    Checkpoint,
    End,
    Boost,
}

/// How a scene object's collider is set up: its layer, the layers it
/// collides with, and whether it reports contacts.
#[derive(Clone, Copy, Debug, PartialEq, Eq, Structural)]
pub struct ColliderSetup {
    pub layer: CollisionLayer,
    pub filter: u32,
    pub events: bool,
}

pub open spec fn setup_spec(kind: HazardKind) -> ColliderSetup {
    match kind {
        HazardKind::Prop => ColliderSetup {
            layer: CollisionLayer::Prop,
            filter: ALL_LAYERS,
            events: false,
        },
        HazardKind::Ground => ColliderSetup {
            layer: CollisionLayer::Default,
            filter: ALL_LAYERS,
            events: false,
        },
        HazardKind::Checkpoint => ColliderSetup {
            layer: CollisionLayer::Checkpoint,
            filter: 2,
            events: true,
        },
        HazardKind::End => ColliderSetup { layer: CollisionLayer::End, filter: 2, events: true },
        HazardKind::Boost => ColliderSetup { layer: CollisionLayer::Boost, filter: 6, events: true },
    }
}

pub fn collider_setup(kind: HazardKind) -> (r: ColliderSetup)
    ensures
        r == setup_spec(kind),
{
    assert(2u32 | 4u32 == 6u32) by (bit_vector);
    match kind {
        HazardKind::Prop => ColliderSetup {
            layer: CollisionLayer::Prop,
            filter: ALL_LAYERS,
            events: false,
        },
        HazardKind::Ground => ColliderSetup {
            layer: CollisionLayer::Default,
            filter: ALL_LAYERS,
            events: false,
        },
        HazardKind::Checkpoint => ColliderSetup {
            layer: CollisionLayer::Checkpoint,
            filter: layer_bit(CollisionLayer::Player),
            events: true,
        },
        HazardKind::End => ColliderSetup {
            layer: CollisionLayer::End,
            filter: layer_bit(CollisionLayer::Player),
            events: true,
        },
        HazardKind::Boost => ColliderSetup {
            layer: CollisionLayer::Boost,
            filter: layer_bit(CollisionLayer::Player) | layer_bit(CollisionLayer::Prop),
            events: true,
        },
    }
}

/// A scene object that may need a collider; `ready` marks one already set up.
#[derive(Clone, Copy, Debug, PartialEq, Eq, Structural)]
pub struct Hazard {
    pub kind: HazardKind,
    pub ready: bool,
}

/// Positions of the objects not yet set up, in order.
pub open spec fn unclaimed(h: Seq<Hazard>) -> Seq<usize>
    decreases h.len(),
{
    if h.len() == 0 {
        Seq::empty()
    } else if !h.last().ready {
        unclaimed(h.drop_last()).push((h.len() - 1) as usize)
    } else {
        unclaimed(h.drop_last())
    }
}

/// Claims every scene object not yet set up, once the level's scene is in
/// place during play, and returns their positions; each object is claimed
/// once only. Before the scene is in place nothing is claimed.
pub fn claim_hazards(game: &Game, hazards: &mut Vec<Hazard>) -> (r: Vec<usize>)
    ensures
        final(hazards)@.len() == old(hazards)@.len(),
        !(game.app_state == AppState::InGame && game.scene_spawned) ==> {
            &&& final(hazards)@ == old(hazards)@
            &&& r@.len() == 0
        },
        game.app_state == AppState::InGame && game.scene_spawned ==> {
            &&& r@ == unclaimed(old(hazards)@)
            &&& forall|i: int|
                0 <= i < old(hazards)@.len() ==> #[trigger] final(hazards)@[i] == (Hazard {
                    kind: old(hazards)@[i].kind,
                    ready: true,
                })
        },
{
    let mut r: Vec<usize> = Vec::new();
    if !(game.app_state == AppState::InGame && game.scene_spawned) {
        return r;
    }
    let n = hazards.len();
    let mut i: usize = 0;
    while i < n
        invariant
            n == old(hazards)@.len(),
            hazards@.len() == n,
            i <= n,
            r@ == unclaimed(old(hazards)@.take(i as int)),
            forall|j: int|
                0 <= j < i ==> #[trigger] hazards@[j] == (Hazard {
                    kind: old(hazards)@[j].kind,
                    ready: true,
                }),
            forall|j: int| i <= j < n ==> #[trigger] hazards@[j] == old(hazards)@[j],
        decreases n - i,
    {
        let h = hazards[i];
        assert(old(hazards)@.take(i + 1).drop_last() == old(hazards)@.take(i as int));
        assert(old(hazards)@.take(i + 1).last() == old(hazards)@[i as int]);
        if !h.ready {
            r.push(i);
            hazards.set(i, Hazard { kind: h.kind, ready: true });
        }
        i = i + 1;
    }
    assert(old(hazards)@.take(n as int) == old(hazards)@);
    r
}

/// A contact reported by the physics engine, tagged with the category of
/// the scene object that was touched.
#[derive(Clone, Copy, Debug, PartialEq, Eq, Structural)]
pub enum Contact {
    /// A contact began with the object `entity` of `layer` at `position`.
    Started { layer: CollisionLayer, entity: u64, position: Vec3 },
    /// A contact ended; `velocity` is that of the other unit, when it moves.
    Ended { layer: CollisionLayer, velocity: Option<Vec3> },
}

/// The reaction a contact calls for.
#[derive(Clone, Copy, Debug, PartialEq, Eq, Structural)]
pub enum Route {
    Checkpoint,
    End,
    Boost,
    Ignore,
}

/// Checkpoints and end zones react when touched; boosts when left.
pub open spec fn route_spec(c: Contact) -> Route {
    match c {
        Contact::Started { layer, .. } => if layer == CollisionLayer::Checkpoint {
            Route::Checkpoint
        } else if layer == CollisionLayer::End {
            Route::End
        } else {
            Route::Ignore
        },
        Contact::Ended { layer, .. } => if layer == CollisionLayer::Boost {
            Route::Boost
        } else {
            Route::Ignore
        },
    }
}

pub fn route(c: &Contact) -> (r: Route)
    ensures
        r == route_spec(*c),
{
    match c {
        Contact::Started { layer, .. } => match layer {
            CollisionLayer::Checkpoint => Route::Checkpoint,
            CollisionLayer::End => Route::End,
            _ => Route::Ignore,
        },
        Contact::Ended { layer, .. } => match layer {
            CollisionLayer::Boost => Route::Boost,
            _ => Route::Ignore,
        },
    }
}

/// What a contact changed, for the effects and sounds that follow it.
#[derive(Clone, Copy, Debug, PartialEq, Eq, Structural)]
pub enum Reaction {
    Nothing,
    /// A checkpoint was captured.
    CheckpointReached(Checkpoint),
    /// The level was finished and the next one is to be loaded.
    Advance(SpawnLevel),
    /// The last level was finished.
    RunComplete,
    /// The other unit's velocity after a boost.
    Boosted(Vec3),
}

/// Routes one contact into the progression core.
pub fn on_collision(game: &mut Game, contact: Contact) -> (r: Reaction)
    requires
        old(game).wf(),
    ensures
        final(game).wf(),
        !old(game).reacting() || route_spec(contact) == Route::Ignore ==> r == Reaction::Nothing
            && *final(game) == *old(game),
        old(game).reacting() ==> match contact {
            Contact::Started { layer: CollisionLayer::Checkpoint, entity, position } => {
                &&& r == Reaction::CheckpointReached(Checkpoint { entity, position })
                &&& final(game).history@ == old(game).history@.push(
                    Checkpoint { entity, position },
                )
                &&& final(game).level == old(game).level
                &&& final(game).clock == old(game).clock
                &&& final(game).run.results@ == old(game).run.results@
                &&& final(game).app_state == old(game).app_state
                &&& final(game).scene_spawned == old(game).scene_spawned
                &&& final(game).paused == old(game).paused
            },
            Contact::Started { layer: CollisionLayer::End, .. } => {
                &&& final(game).run.results@ == old(game).run.results@.update(
                    old(game).level - 1,
                    old(game).clock.elapsed,
                )
                &&& final(game).history@ == old(game).history@
                &&& final(game).clock == old(game).clock
                &&& final(game).paused == old(game).paused
                &&& (old(game).level == LEVEL_COUNT ==> r == Reaction::RunComplete
                    && final(game).app_state == AppState::GameOver && final(game).level
                == old(game).level && final(game).scene_spawned == old(game).scene_spawned)
                &&& (old(game).level < LEVEL_COUNT ==> r == Reaction::Advance(
                    SpawnLevel((old(game).level + 1) as usize),
                ) && final(game).level == old(game).level && final(game).app_state
                    == old(game).app_state && final(game).scene_spawned
                    == old(game).scene_spawned)
            },
            Contact::Ended { layer: CollisionLayer::Boost, velocity } => {
                &&& *final(game) == *old(game)
                &&& r == match velocity {
                    Some(v) => Reaction::Boosted(boosted_spec(v)),
                    None => Reaction::Nothing,
                }
            },
            _ => true,
        },
{
    if !game.is_reacting() {
        return Reaction::Nothing;
    }
    match route(&contact) {
        Route::Checkpoint => {
            match contact {
                Contact::Started { entity, position, .. } => {
                    let c = Checkpoint { entity, position };
                    game.reach_checkpoint(c);
                    Reaction::CheckpointReached(c)
                },
                Contact::Ended { .. } => Reaction::Nothing,
            }
        },
        Route::End => match game.reach_end() {
            EndOutcome::Advance(req) => Reaction::Advance(req),
            EndOutcome::RunComplete => Reaction::RunComplete,
            EndOutcome::Ignored => Reaction::Nothing,
        },
        Route::Boost => match contact {
            Contact::Ended { velocity: Some(v), .. } => Reaction::Boosted(game.leave_boost(v)),
            _ => Reaction::Nothing,
        },
        Route::Ignore => Reaction::Nothing,
    }
}

} // verus!
