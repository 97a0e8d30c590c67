use hop_core::collider::{on_collision, CollisionLayer, Contact, Reaction};
use hop_core::game::{AppState, EndOutcome, Game};
use hop_core::geometry::{spawn_point, Vec3, UNIT};
use hop_core::history::{Checkpoint, History};
use hop_core::level::{LevelError, SpawnLevel, LEVEL_COUNT};
use hop_core::unit::{Body, Respawn, UnitKind};

fn player_at(y: i64) -> Body {
    Body {
        kind: UnitKind::Player,
        position: Vec3::new(0, y, 0),
        velocity: Vec3::new(2 * UNIT, -7 * UNIT, UNIT),
    }
}

fn ready_game() -> Game {
    let mut g = Game::new();
    g.start_run();
    assert!(g.scene_loaded());
    g
}

fn checkpoint(entity: u64, x: i64, y: i64, z: i64) -> Checkpoint {
    Checkpoint { entity, position: Vec3::new(x, y, z) }
}

#[test]
fn last_of_empty_history_is_level_start() {
    let h = History::new();
    assert!(h.empty());
    assert_eq!(h.last(), Vec3::new(0, 8 * UNIT, 0));
    assert_eq!(h.last(), spawn_point());
}

#[test]
fn last_is_ahead_of_latest_checkpoint() {
    let mut h = History::new();
    h.push(checkpoint(1, 5 * UNIT, 20 * UNIT, -3 * UNIT));
    assert!(!h.empty());
    assert_eq!(h.last(), Vec3::new(5 * UNIT, 20 * UNIT, UNIT));
}

#[test]
fn latest_of_many_checkpoints_wins() {
    let mut h = History::new();
    h.push(checkpoint(1, 0, 10 * UNIT, 0));
    h.push(checkpoint(2, 100 * UNIT, 30 * UNIT, 50 * UNIT));
    h.push(checkpoint(3, -40 * UNIT, 60 * UNIT, 70 * UNIT));
    assert_eq!(h.len(), 3);
    assert_eq!(h.last(), Vec3::new(-40 * UNIT, 60 * UNIT, 74 * UNIT));
}

#[test]
fn same_checkpoint_may_be_pushed_twice() {
    let mut h = History::new();
    let a = checkpoint(1, 0, 10 * UNIT, 0);
    let b = checkpoint(2, 0, 20 * UNIT, 0);
    h.push(a);
    h.push(b);
    h.push(a);
    assert_eq!(h.len(), 3);
    assert_eq!(h.last(), Vec3::new(0, 10 * UNIT, 4 * UNIT));
    h.clear();
    assert!(h.empty());
}

#[test]
fn out_of_range_level_is_refused() {
    let mut g = ready_game();
    let mut bodies = vec![player_at(3 * UNIT)];
    assert_eq!(g.select_level(0, &mut bodies), Err(LevelError::Zero));
    assert_eq!(g.select_level(LEVEL_COUNT + 1, &mut bodies), Err(LevelError::TooHigh));
    assert_eq!(g.select_level(usize::MAX, &mut bodies), Err(LevelError::TooHigh));
    assert_eq!(g.level, 1);
    assert!(g.scene_spawned);
    assert_eq!(bodies[0], player_at(3 * UNIT));
    assert_eq!(SpawnLevel::new(0), Err(LevelError::Zero));
    assert_eq!(SpawnLevel::new(4), Err(LevelError::TooHigh));
    assert_eq!(SpawnLevel::new(3), Ok(SpawnLevel(3)));
}

#[test]
fn accepted_level_starts_fresh() {
    let mut g = ready_game();
    let c = checkpoint(9, 0, 0, 0);
    assert!(g.reach_checkpoint(c));
    g.advance_clock(1_000_000);
    let prop = Body {
        kind: UnitKind::Prop,
        position: Vec3::new(1, 2, 3),
        velocity: Vec3::new(4, 5, 6),
    };
    let mut bodies = vec![player_at(-50 * UNIT), prop];
    assert_eq!(g.select_level(3, &mut bodies), Ok(()));
    assert_eq!(g.level, 3);
    assert!(g.history.empty());
    assert_eq!(g.clock.elapsed(), 0);
    assert!(!g.scene_spawned);
    assert_eq!(bodies[0].position, spawn_point());
    assert_eq!(bodies[0].velocity, player_at(0).velocity);
    assert_eq!(bodies[1], prop);
    assert!(g.scene_loaded());
    assert!(g.scene_spawned);
    assert!(!g.scene_loaded());
}

#[test]
fn fall_after_checkpoint_keeps_clock() {
    let mut g = ready_game();
    let a = checkpoint(7, UNIT, 20 * UNIT, 30 * UNIT);
    let r = on_collision(
        &mut g,
        Contact::Started { layer: CollisionLayer::Checkpoint, entity: 7, position: a.position },
    );
    assert_eq!(r, Reaction::CheckpointReached(a));
    g.advance_clock(5_000);
    let mut bodies = vec![player_at(-80 * UNIT)];
    let reqs = g.fixed_update(&mut bodies, &Vec::new());
    let target = Vec3::new(UNIT, 20 * UNIT, 34 * UNIT);
    assert_eq!(reqs, vec![Respawn::new(UnitKind::Player, target)]);
    let again = g.fixed_update(&mut bodies, &reqs);
    assert!(again.is_empty());
    assert_eq!(bodies[0].position, target);
    assert_eq!(bodies[0].velocity, Vec3::zero());
    assert_eq!(g.clock.elapsed(), 5_000);
}

#[test]
fn early_falls_reset_clock_each_time() {
    let mut g = ready_game();
    let mut bodies = vec![player_at(8 * UNIT)];
    assert_eq!(g.select_level(2, &mut bodies), Ok(()));
    assert!(g.scene_loaded());
    for _ in 0..3 {
        g.advance_clock(7_000);
        assert_eq!(g.clock.elapsed(), 7_000);
        bodies[0].position = Vec3::new(3 * UNIT, -90 * UNIT, 0);
        let reqs = g.fixed_update(&mut bodies, &Vec::new());
        assert_eq!(reqs, vec![Respawn::new(UnitKind::Player, spawn_point())]);
        let none = g.fixed_update(&mut bodies, &reqs);
        assert!(none.is_empty());
        assert_eq!(bodies[0].position, spawn_point());
        assert_eq!(bodies[0].velocity, Vec3::zero());
        assert_eq!(g.clock.elapsed(), 0);
        assert_eq!(g.level, 2);
    }
}

#[test]
fn end_of_last_level_completes_run() {
    let mut g = ready_game();
    let mut bodies = vec![player_at(0)];
    assert_eq!(g.select_level(LEVEL_COUNT, &mut bodies), Ok(()));
    assert!(g.scene_loaded());
    g.advance_clock(42_000);
    let r = on_collision(
        &mut g,
        Contact::Started { layer: CollisionLayer::End, entity: 3, position: Vec3::zero() },
    );
    assert_eq!(r, Reaction::RunComplete);
    assert_eq!(g.run.result(LEVEL_COUNT), 42_000);
    assert_eq!(g.app_state, AppState::GameOver);
    assert_eq!(g.level, LEVEL_COUNT);
    assert!(g.scene_spawned);
    assert_eq!(g.reach_end(), EndOutcome::Ignored);
    assert_eq!(g.run.result(LEVEL_COUNT), 42_000);
}

#[test]
fn end_of_level_advances() {
    let mut g = ready_game();
    g.advance_clock(11_000);
    assert!(g.reach_checkpoint(checkpoint(4, 0, 0, 0)));
    assert_eq!(g.reach_end(), EndOutcome::Advance(SpawnLevel(2)));
    assert_eq!(g.run.result(1), 11_000);
    assert_eq!(g.level, 1);
    let mut bodies = vec![player_at(30 * UNIT)];
    assert!(g.spawn_level(SpawnLevel(2), &mut bodies));
    assert_eq!(g.level, 2);
    assert!(g.history.empty());
    assert_eq!(g.clock.elapsed(), 0);
    assert_eq!(g.run.result(1), 11_000);
    assert_eq!(g.app_state, AppState::InGame);
}

#[test]
fn whole_run_records_every_level() {
    let mut g = ready_game();
    let mut bodies = vec![player_at(0)];
    let times = [3_000u64, 5_000, 9_000];
    for (i, t) in times.iter().enumerate() {
        g.advance_clock(*t);
        let r = on_collision(
            &mut g,
            Contact::Started { layer: CollisionLayer::End, entity: 1, position: Vec3::zero() },
        );
        if i + 1 < LEVEL_COUNT {
            match r {
                Reaction::Advance(req) => {
                    assert_eq!(req.get(), i + 2);
                    assert!(g.spawn_level(req, &mut bodies));
                    assert!(g.scene_loaded());
                }
                other => panic!("unexpected reaction {:?}", other),
            }
        } else {
            assert_eq!(r, Reaction::RunComplete);
        }
    }
    assert_eq!(g.run.results, vec![3_000, 5_000, 9_000]);
    assert_eq!(g.run.total(), 17_000);
    g.leave_run();
    assert_eq!(g.app_state, AppState::MainMenu);
    assert_eq!(g.run.total(), 0);
}

#[test]
fn boost_scales_horizontal_speed_on_exit() {
    let mut g = ready_game();
    let v = Vec3::new(10 * UNIT, -5 * UNIT, 0);
    let r = on_collision(
        &mut g,
        Contact::Ended { layer: CollisionLayer::Boost, velocity: Some(v) },
    );
    assert_eq!(r, Reaction::Boosted(Vec3::new(12 * UNIT, -5 * UNIT, 0)));
    let none = on_collision(&mut g, Contact::Ended { layer: CollisionLayer::Boost, velocity: None });
    assert_eq!(none, Reaction::Nothing);
    let start = on_collision(
        &mut g,
        Contact::Started { layer: CollisionLayer::Boost, entity: 2, position: Vec3::zero() },
    );
    assert_eq!(start, Reaction::Nothing);
}

#[test]
fn no_reactions_while_paused_or_loading() {
    let mut g = Game::new();
    g.start_run();
    let c = checkpoint(1, 0, 0, 0);
    let touch = Contact::Started { layer: CollisionLayer::Checkpoint, entity: 1, position: c.position };
    assert_eq!(on_collision(&mut g, touch), Reaction::Nothing);
    assert!(g.history.empty());
    assert!(g.scene_loaded());
    assert!(g.toggle_pause());
    assert_eq!(on_collision(&mut g, touch), Reaction::Nothing);
    assert_eq!(g.reach_end(), EndOutcome::Ignored);
    g.advance_clock(1_000);
    assert_eq!(g.clock.elapsed(), 0);
    let mut bodies = vec![player_at(-500 * UNIT)];
    assert!(g.fixed_update(&mut bodies, &Vec::new()).is_empty());
    assert_eq!(g.manual_reset(false), None);
    assert!(!g.toggle_pause());
    assert_eq!(on_collision(&mut g, touch), Reaction::CheckpointReached(c));
    assert_eq!(g.history.len(), 1);
}

#[test]
fn invalid_level_request_changes_nothing() {
    let mut g = ready_game();
    assert!(g.reach_checkpoint(checkpoint(2, 0, 5 * UNIT, 0)));
    g.advance_clock(300);
    let mut bodies = vec![player_at(-20 * UNIT)];
    assert!(!g.spawn_level(SpawnLevel(0), &mut bodies));
    assert!(!g.spawn_level(SpawnLevel(LEVEL_COUNT + 1), &mut bodies));
    assert_eq!(g.level, 1);
    assert_eq!(g.history.len(), 1);
    assert_eq!(g.clock.elapsed(), 300);
    assert!(g.scene_spawned);
    assert_eq!(bodies[0], player_at(-20 * UNIT));
}
