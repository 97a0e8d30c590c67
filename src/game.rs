//! The level progression state machine, the run timer's reset rules and the
//! routing of collision events into them.
use vstd::prelude::*;
use crate::geometry::{
    Vec3,
    ahead_of_spec,
    boosted,
    boosted_spec,
    out_of_bounds_spec,
    spawn_point,
    spawn_point_spec,
};
use crate::history::{Checkpoint, History, safe_point};
use crate::level::{LEVEL_COUNT, LevelError, SpawnLevel, next_level, select_spec, valid_level};
use crate::timing::{LevelDuration, RunDuration, reset_run_duration};
use crate::unit::{
    Body,
    Respawn,
    UnitKind,
    fall_requests,
    lemma_fallen_unit_returns,
    latest_target,
    out_of_bounds,
    respawn,
    respawn_target,
    respawned,
};

verus! {

/// The outer application states.
#[derive(Clone, Copy, Debug, PartialEq, Eq, Structural)]
pub enum AppState {
    MainMenu,
    InGame,
    GameOver,
}

/// What an end-zone contact led to.
#[derive(Clone, Copy, Debug, PartialEq, Eq, Structural)]
pub enum EndOutcome {
    /// The contact came while play was not running; nothing changed.
    Ignored,
    /// The next level is to be loaded.
    Advance(SpawnLevel),
    /// The last level was finished: the run is over.
    RunComplete,
}

/// A unit of the player kind moved to the level start, all else kept.
pub open spec fn moved_to_start(b: Body) -> Body {
    if b.kind == UnitKind::Player {
        Body { kind: b.kind, position: spawn_point_spec(), velocity: b.velocity }
    } else {
        b
    }
}

/// The stopwatch after a step that applied `pending`: a player respawn
/// resets it while no checkpoint has been reached, and nothing else does.
pub open spec fn clock_after_respawns(elapsed: u64, h: Seq<Checkpoint>, pending: Seq<Respawn>) -> u64 {
    if h.len() == 0 && respawn_target(UnitKind::Player, pending) is Some {
        0
    } else {
        elapsed
    }
}

/// The progression core: level, scene readiness, checkpoint history, level
/// stopwatch and run results.
#[derive(Debug)]
pub struct Game {
    pub app_state: AppState,
    pub paused: bool,
    pub level: usize,
    pub scene_spawned: bool,
    pub history: History,
    pub clock: LevelDuration,
    pub run: RunDuration,
}

impl Game {
    pub open spec fn wf(&self) -> bool {
        &&& valid_level(self.level as int)
        &&& self.run.wf()
    }

    /// Gameplay systems run: in play and not paused.
    pub open spec fn playing(&self) -> bool {
        self.app_state == AppState::InGame && !self.paused
    }

    /// Collision reactions run: gameplay runs and the scene is in place.
    pub open spec fn reacting(&self) -> bool {
        self.playing() && self.scene_spawned
    }

    /// The state before any run: main menu, level 1.
    pub fn new() -> (r: Game)
        ensures
            r.wf(),
            r.app_state == AppState::MainMenu,
            !r.paused,
            r.level == 1,
            !r.scene_spawned,
            r.history@.len() == 0,
            r.clock.elapsed == 0,
            forall|i: int| 0 <= i < LEVEL_COUNT ==> r.run.results@[i] == 0,
    {
        Game {
            app_state: AppState::MainMenu,
            paused: false,
            level: 1,
            scene_spawned: false,
            history: History::new(),
            clock: LevelDuration::new(),
            run: RunDuration::new(),
        }
    }

    pub fn is_playing(&self) -> (r: bool)
        ensures
            r == self.playing(),
    {
        self.app_state == AppState::InGame && !self.paused
    }

    pub fn is_reacting(&self) -> (r: bool)
        ensures
            r == self.reacting(),
    {
        self.is_playing() && self.scene_spawned
    }

    /// Enters active play: a fresh run from level 1.
    pub fn start_run(&mut self)
        requires
            old(self).wf(),
        ensures
            final(self).wf(),
            final(self).app_state == AppState::InGame,
            !final(self).paused,
            final(self).level == 1,
            !final(self).scene_spawned,
            final(self).history@.len() == 0,
            final(self).clock.elapsed == 0,
            forall|i: int| 0 <= i < LEVEL_COUNT ==> final(self).run.results@[i] == 0,
    {
        self.app_state = AppState::InGame;
        self.paused = false;
        self.level = 1;
        self.scene_spawned = false;
        self.history.clear();
        reset_run_duration(&mut self.run, &mut self.clock);
    }

    /// Leaves active play for the main menu, dropping all progress.
    pub fn leave_run(&mut self)
        requires
            old(self).wf(),
        ensures
            final(self).wf(),
            final(self).app_state == AppState::MainMenu,
            !final(self).paused,
            final(self).level == 1,
            !final(self).scene_spawned,
            final(self).history@.len() == 0,
            final(self).clock.elapsed == 0,
            forall|i: int| 0 <= i < LEVEL_COUNT ==> final(self).run.results@[i] == 0,
    {
        self.app_state = AppState::MainMenu;
        self.paused = false;
        self.level = 1;
        self.scene_spawned = false;
        self.history.clear();
        self.clock.reset();
        self.run.reset();
    }

    /// Pauses or resumes play; progress is kept either way.
    pub fn set_paused(&mut self, paused: bool)
        ensures
            final(self).paused == paused,
            final(self).app_state == old(self).app_state,
            final(self).level == old(self).level,
            final(self).scene_spawned == old(self).scene_spawned,
            final(self).history@ == old(self).history@,
            final(self).clock == old(self).clock,
            final(self).run.results@ == old(self).run.results@,
    {
        self.paused = paused;
    }

    /// Flips between paused and running play; returns whether play is now
    /// paused.
    pub fn toggle_pause(&mut self) -> (r: bool)
        ensures
            r == !old(self).paused,
            final(self).paused == r,
            final(self).app_state == old(self).app_state,
            final(self).level == old(self).level,
            final(self).scene_spawned == old(self).scene_spawned,
            final(self).history@ == old(self).history@,
            final(self).clock == old(self).clock,
            final(self).run.results@ == old(self).run.results@,
    {
        let p = !self.paused;
        self.set_paused(p);
        p
    }

    /// Loads the requested level: the old scene goes, the history and the
    /// stopwatch are cleared, and the players stand at the level start. A
    /// request for a level that does not exist is refused and changes
    /// nothing. Returns whether the request was taken.
    pub fn spawn_level(&mut self, req: SpawnLevel, bodies: &mut Vec<Body>) -> (r: bool)
        requires
            old(self).wf(),
        ensures
            final(self).wf(),
            r == req.valid(),
            !r ==> *final(self) == *old(self) && final(bodies)@ == old(bodies)@,
            r ==> {
                &&& final(self).level == req.0
                &&& final(self).history@.len() == 0
                &&& final(self).clock.elapsed == 0
                &&& !final(self).scene_spawned
                &&& final(self).app_state == old(self).app_state
                &&& final(self).paused == old(self).paused
                &&& final(self).run.results@ == old(self).run.results@
                &&& final(bodies)@.len() == old(bodies)@.len()
                &&& forall|i: int|
                    0 <= i < old(bodies)@.len() ==> #[trigger] final(bodies)@[i]
                        == moved_to_start(old(bodies)@[i])
            },
    {
        if req.0 == 0 || req.0 > LEVEL_COUNT {
            return false;
        }
        self.history.clear();
        self.clock.reset();
        self.level = req.0;
        self.scene_spawned = false;
        let start = spawn_point();
        let n = bodies.len();
        let mut i: usize = 0;
        while i < n
            invariant
                n == old(bodies)@.len(),
                bodies@.len() == n,
                i <= n,
                start == spawn_point_spec(),
                forall|j: int| 0 <= j < i ==> #[trigger] bodies@[j] == moved_to_start(old(bodies)@[j]),
                forall|j: int| i <= j < n ==> #[trigger] bodies@[j] == old(bodies)@[j],
            decreases n - i,
        {
            let b = bodies[i];
            if b.kind == UnitKind::Player {
                bodies.set(i, Body { kind: b.kind, position: start, velocity: b.velocity });
            }
            i = i + 1;
        }
        true
    }

    /// A level selection made by the player: refused, with nothing changed,
    /// unless `n` names a level; loaded otherwise.
    pub fn select_level(&mut self, n: usize, bodies: &mut Vec<Body>) -> (r: Result<(), LevelError>)
        requires
            old(self).wf(),
        ensures
            final(self).wf(),
            r is Ok <==> valid_level(n as int),
            r matches Err(e) ==> select_spec(n as int) == Err::<SpawnLevel, LevelError>(e),
            r is Err ==> *final(self) == *old(self) && final(bodies)@ == old(bodies)@,
            r is Ok ==> {
                &&& final(self).level == n
                &&& final(self).history@.len() == 0
                &&& final(self).clock.elapsed == 0
                &&& !final(self).scene_spawned
                &&& final(self).app_state == old(self).app_state
                &&& final(self).paused == old(self).paused
                &&& final(self).run.results@ == old(self).run.results@
                &&& final(bodies)@.len() == old(bodies)@.len()
                &&& forall|i: int|
                    0 <= i < old(bodies)@.len() ==> #[trigger] final(bodies)@[i]
                        == moved_to_start(old(bodies)@[i])
            },
    {
        match SpawnLevel::new(n) {
            Ok(req) => {
                let _ = self.spawn_level(req, bodies);
                Ok(())
            },
            Err(e) => Err(e),
        }
    }

    /// The scene of the current level finished loading. Returns whether this
    /// is the first report since the level was requested, when the one-time
    /// setup of the level is due.
    pub fn scene_loaded(&mut self) -> (r: bool)
        ensures
            r == !old(self).scene_spawned,
            final(self).scene_spawned,
            final(self).app_state == old(self).app_state,
            final(self).paused == old(self).paused,
            final(self).level == old(self).level,
            final(self).history@ == old(self).history@,
            final(self).clock == old(self).clock,
            final(self).run.results@ == old(self).run.results@,
    {
        if self.scene_spawned {
            false
        } else {
            self.scene_spawned = true;
            true
        }
    }

    /// Advances the level stopwatch while play runs.
    pub fn advance_clock(&mut self, delta: u64)
        ensures
            final(self).clock.elapsed == if !old(self).playing() {
                old(self).clock.elapsed as int
            } else if old(self).clock.elapsed + delta > u64::MAX {
                u64::MAX as int
            } else {
                old(self).clock.elapsed + delta
            },
            final(self).app_state == old(self).app_state,
            final(self).paused == old(self).paused,
            final(self).level == old(self).level,
            final(self).scene_spawned == old(self).scene_spawned,
            final(self).history@ == old(self).history@,
            final(self).run.results@ == old(self).run.results@,
    {
        if self.is_playing() {
            self.clock.tick(delta);
        }
    }

    /// Stopwatch reset rules: any level load resets it; a respawn of the
    /// player resets it only while no checkpoint has been reached.
    pub fn reset_timer(&mut self, level_requests: usize, player_respawns: usize)
        ensures
            final(self).clock.elapsed == if level_requests > 0 || (old(self).history@.len() == 0
                && player_respawns > 0) {
                0
            } else {
                old(self).clock.elapsed
            },
            final(self).app_state == old(self).app_state,
            final(self).paused == old(self).paused,
            final(self).level == old(self).level,
            final(self).scene_spawned == old(self).scene_spawned,
            final(self).history@ == old(self).history@,
            final(self).run.results@ == old(self).run.results@,
    {
        if level_requests > 0 {
            self.clock.reset();
        }
        if !self.history.empty() {
            return;
        }
        if player_respawns > 0 {
            self.clock.reset();
        }
    }

    /// One fixed-rate step of gameplay: the requests raised last step are
    /// applied, the stopwatch follows a player respawn, and the bounds monitor
    /// raises this step's requests. Outside of running play nothing happens.
    pub fn fixed_update(&mut self, bodies: &mut Vec<Body>, pending: &Vec<Respawn>) -> (r: Vec<
        Respawn,
    >)
        ensures
            final(self).app_state == old(self).app_state,
            final(self).paused == old(self).paused,
            final(self).level == old(self).level,
            final(self).scene_spawned == old(self).scene_spawned,
            final(self).history@ == old(self).history@,
            final(self).run.results@ == old(self).run.results@,
            !old(self).playing() ==> {
                &&& final(bodies)@ == old(bodies)@
                &&& final(self).clock == old(self).clock
                &&& r@.len() == 0
            },
            old(self).playing() ==> {
                &&& final(bodies)@.len() == old(bodies)@.len()
                &&& forall|i: int|
                    0 <= i < old(bodies)@.len() ==> #[trigger] final(bodies)@[i] == respawned(
                        old(bodies)@[i],
                        pending@,
                    )
                &&& final(self).clock.elapsed == clock_after_respawns(
                    old(self).clock.elapsed,
                    old(self).history@,
                    pending@,
                )
                &&& r@ == fall_requests(final(bodies)@, safe_point(old(self).history@))
            },
    {
        if !self.is_playing() {
            return Vec::new();
        }
        respawn(bodies, pending);
        let player_respawns: usize = if latest_target(UnitKind::Player, pending).is_some() {
            1
        } else {
            0
        };
        self.reset_timer(0, player_respawns);
        out_of_bounds(bodies, &self.history)
    }

    /// The player asked to go back: to the safe point, or, when `clear` is
    /// set, to the level start with the history dropped. Nothing happens
    /// outside of running play.
    pub fn manual_reset(&mut self, clear: bool) -> (r: Option<Respawn>)
        ensures
            !old(self).playing() ==> r is None && final(self).history@ == old(self).history@,
            old(self).playing() ==> {
                &&& final(self).history@ == if clear {
                    Seq::<Checkpoint>::empty()
                } else {
                    old(self).history@
                }
                &&& r == Some(
                    Respawn { kind: UnitKind::Player, translation: safe_point(final(self).history@) },
                )
            },
            final(self).app_state == old(self).app_state,
            final(self).paused == old(self).paused,
            final(self).level == old(self).level,
            final(self).scene_spawned == old(self).scene_spawned,
            final(self).clock == old(self).clock,
            final(self).run.results@ == old(self).run.results@,
    {
        if !self.is_playing() {
            return None;
        }
        if clear {
            self.history.clear();
        }
        Some(Respawn::new(UnitKind::Player, self.history.last()))
    }

    /// The player touched a checkpoint: it becomes the safe point. Returns
    /// whether the contact was taken.
    pub fn reach_checkpoint(&mut self, c: Checkpoint) -> (r: bool)
        ensures
            r == old(self).reacting(),
            final(self).history@ == if r {
                old(self).history@.push(c)
            } else {
                old(self).history@
            },
            final(self).app_state == old(self).app_state,
            final(self).paused == old(self).paused,
            final(self).level == old(self).level,
            final(self).scene_spawned == old(self).scene_spawned,
            final(self).clock == old(self).clock,
            final(self).run.results@ == old(self).run.results@,
    {
        if !self.is_reacting() {
            return false;
        }
        self.history.push(c);
        true
    }

    /// The player reached the end zone: the level's time is recorded, and
    /// either the next level is requested or, after the last level, the run
    /// is over.
    pub fn reach_end(&mut self) -> (r: EndOutcome)
        requires
            old(self).wf(),
        ensures
            final(self).wf(),
            !old(self).reacting() ==> r == EndOutcome::Ignored && *final(self) == *old(self),
            old(self).reacting() ==> {
                &&& final(self).run.results@ == old(self).run.results@.update(
                    old(self).level - 1,
                    old(self).clock.elapsed,
                )
                &&& final(self).history@ == old(self).history@
                &&& final(self).clock == old(self).clock
                &&& final(self).paused == old(self).paused
            },
            old(self).reacting() && old(self).level == LEVEL_COUNT ==> {
                &&& r == EndOutcome::RunComplete
                &&& final(self).app_state == AppState::GameOver
                &&& final(self).level == old(self).level
                &&& final(self).scene_spawned == old(self).scene_spawned
            },
            old(self).reacting() && old(self).level < LEVEL_COUNT ==> {
                &&& r == EndOutcome::Advance(SpawnLevel((old(self).level + 1) as usize))
                &&& final(self).app_state == old(self).app_state
                &&& final(self).level == old(self).level
                &&& final(self).scene_spawned == old(self).scene_spawned
            },
    {
        if !self.is_reacting() {
            return EndOutcome::Ignored;
        }
        self.run.record(self.level, self.clock.elapsed());
        match next_level(self.level) {
            Some(req) => EndOutcome::Advance(req),
            None => {
                self.app_state = AppState::GameOver;
                EndOutcome::RunComplete
            },
        }
    }

    /// A unit left a boost volume with `velocity`: its horizontal speed is
    /// scaled up. Outside of reacting play the velocity is kept.
    pub fn leave_boost(&self, velocity: Vec3) -> (r: Vec3)
        ensures
            r == if self.reacting() {
                boosted_spec(velocity)
            } else {
                velocity
            },
    {
        if self.is_reacting() {
            boosted(velocity)
        } else {
            velocity
        }
    }
}

/// A player who falls after reaching a checkpoint is caught by the bounds
/// monitor and comes back, at rest, four units ahead of the latest
/// checkpoint; applying that respawn keeps the stopwatch running.
pub proof fn lemma_fall_after_checkpoint(h: Seq<Checkpoint>, bodies: Seq<Body>, i: int, elapsed: u64)
    requires
        h.len() > 0,
        0 <= i < bodies.len(),
        bodies[i].kind == UnitKind::Player,
        out_of_bounds_spec(bodies[i].position, safe_point(h)),
    ensures
        respawned(bodies[i], fall_requests(bodies, safe_point(h))) == (Body {
            kind: UnitKind::Player,
            position: ahead_of_spec(h.last().position),
            velocity: Vec3::zero_spec(),
        }),
        clock_after_respawns(elapsed, h, fall_requests(bodies, safe_point(h))) == elapsed,
{
    lemma_fallen_unit_returns(bodies, safe_point(h), i);
}

/// A player who falls before any checkpoint of the level is reached comes
/// back, at rest, to the level start, and applying that respawn resets the
/// stopwatch; the history stays empty, so every such fall does the same.
pub proof fn lemma_early_fall(bodies: Seq<Body>, i: int, elapsed: u64)
    requires
        0 <= i < bodies.len(),
        bodies[i].kind == UnitKind::Player,
        out_of_bounds_spec(bodies[i].position, spawn_point_spec()),
    ensures
        respawned(bodies[i], fall_requests(bodies, spawn_point_spec())) == (Body {
            kind: UnitKind::Player,
            position: spawn_point_spec(),
            velocity: Vec3::zero_spec(),
        }),
        clock_after_respawns(
            elapsed,
            Seq::<Checkpoint>::empty(),
            fall_requests(bodies, spawn_point_spec()),
        ) == 0,
{
    lemma_fallen_unit_returns(bodies, spawn_point_spec(), i);
}

} // verus!
