use hop_core::game::Game;
use hop_core::geometry::{
    ahead_of, boost_component, boosted, is_out_of_bounds, saturating_add_i64, spawn_point,
    water_height, Vec3, OUT_OF_BOUNDS_DISTANCE, UNIT,
};
use hop_core::history::{Checkpoint, History};
use hop_core::unit::{latest_target, out_of_bounds, respawn, Body, Respawn, UnitKind};

fn body(kind: UnitKind, y: i64) -> Body {
    Body { kind, position: Vec3::new(UNIT, y, -UNIT), velocity: Vec3::new(3, 4, 5) }
}

#[test]
fn threshold_is_inclusive() {
    let safe = spawn_point();
    assert!(is_out_of_bounds(Vec3::new(0, 8 * UNIT - 95 * UNIT, 0), safe));
    assert!(!is_out_of_bounds(Vec3::new(0, 8 * UNIT - 95 * UNIT + 1, 0), safe));
    assert!(is_out_of_bounds(Vec3::new(0, 8 * UNIT + 95 * UNIT, 0), safe));
    assert!(!is_out_of_bounds(Vec3::new(500 * UNIT, 8 * UNIT, -900 * UNIT), safe));
    assert!(is_out_of_bounds(Vec3::new(0, i64::MIN, 0), Vec3::new(0, i64::MAX, 0)));
    assert_eq!(OUT_OF_BOUNDS_DISTANCE, 95_000);
}

#[test]
fn monitor_raises_one_request_per_fallen_unit() {
    let h = History::new();
    let bodies = vec![
        body(UnitKind::Player, -100 * UNIT),
        body(UnitKind::Prop, 0),
        body(UnitKind::Prop, 200 * UNIT),
    ];
    let reqs = out_of_bounds(&bodies, &h);
    assert_eq!(
        reqs,
        vec![
            Respawn::new(UnitKind::Player, spawn_point()),
            Respawn::new(UnitKind::Prop, spawn_point()),
        ]
    );
    let none = out_of_bounds(&vec![body(UnitKind::Player, 0)], &h);
    assert!(none.is_empty());
}

#[test]
fn dispatcher_moves_every_unit_of_a_kind() {
    let mut bodies = vec![
        body(UnitKind::Player, -100 * UNIT),
        body(UnitKind::Player, 7),
        body(UnitKind::Prop, 9),
    ];
    let t1 = Vec3::new(1, 2, 3);
    let t2 = Vec3::new(4, 5, 6);
    let reqs = vec![Respawn::new(UnitKind::Player, t1), Respawn::new(UnitKind::Player, t2)];
    assert_eq!(latest_target(UnitKind::Player, &reqs), Some(t2));
    assert_eq!(latest_target(UnitKind::Prop, &reqs), None);
    respawn(&mut bodies, &reqs);
    for b in &bodies[..2] {
        assert_eq!(b.position, t2);
        assert_eq!(b.velocity, Vec3::zero());
    }
    assert_eq!(bodies[2], body(UnitKind::Prop, 9));
}

#[test]
fn fallen_prop_returns_to_checkpoint() {
    let mut g = Game::new();
    g.start_run();
    assert!(g.scene_loaded());
    assert!(g.reach_checkpoint(Checkpoint { entity: 3, position: Vec3::new(0, 50 * UNIT, 0) }));
    let mut bodies = vec![body(UnitKind::Prop, -45 * UNIT), body(UnitKind::Player, 50 * UNIT)];
    let reqs = g.fixed_update(&mut bodies, &Vec::new());
    assert_eq!(reqs, vec![Respawn::new(UnitKind::Prop, Vec3::new(0, 50 * UNIT, 4 * UNIT))]);
    let _ = g.fixed_update(&mut bodies, &reqs);
    assert_eq!(bodies[0].position, Vec3::new(0, 50 * UNIT, 4 * UNIT));
    assert_eq!(bodies[0].velocity, Vec3::zero());
    assert_eq!(bodies[1], body(UnitKind::Player, 50 * UNIT));
}

#[test]
fn manual_reset_targets_safe_point() {
    let mut g = Game::new();
    g.start_run();
    assert!(g.scene_loaded());
    g.advance_clock(900);
    assert!(g.reach_checkpoint(Checkpoint { entity: 3, position: Vec3::new(1, 2, 3) }));
    assert_eq!(
        g.manual_reset(false),
        Some(Respawn::new(UnitKind::Player, Vec3::new(1, 2, 4003)))
    );
    assert_eq!(g.history.len(), 1);
    assert_eq!(g.manual_reset(true), Some(Respawn::new(UnitKind::Player, spawn_point())));
    assert!(g.history.empty());
    assert_eq!(g.clock.elapsed(), 900);
}

#[test]
fn boost_rounds_toward_zero_and_saturates() {
    assert_eq!(boost_component(10), 12);
    assert_eq!(boost_component(-10), -12);
    assert_eq!(boost_component(7), 8);
    assert_eq!(boost_component(-7), -8);
    assert_eq!(boost_component(0), 0);
    assert_eq!(boost_component(i64::MAX), i64::MAX);
    assert_eq!(boost_component(i64::MIN), i64::MIN);
    assert_eq!(
        boosted(Vec3::new(10 * UNIT, -5 * UNIT, -20 * UNIT)),
        Vec3::new(12 * UNIT, -5 * UNIT, -24 * UNIT)
    );
}

#[test]
fn offsets_and_water_saturate() {
    assert_eq!(ahead_of(Vec3::new(1, 2, 3)), Vec3::new(1, 2, 4003));
    assert_eq!(ahead_of(Vec3::new(0, 0, i64::MAX - 1)), Vec3::new(0, 0, i64::MAX));
    assert_eq!(water_height(Vec3::new(0, 30 * UNIT, 0)), 20 * UNIT);
    assert_eq!(water_height(Vec3::new(0, i64::MIN + 5, 0)), i64::MIN);
    assert_eq!(saturating_add_i64(i64::MAX, 1), i64::MAX);
    assert_eq!(saturating_add_i64(-3, 1), -2);
}
