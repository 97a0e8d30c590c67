//! Fixed-point world positions and velocities.
//!
//! One world unit is `UNIT` steps; coordinates are signed 64-bit step counts.
//! The vertical axis is `y`, the forward axis is `z`.
use vstd::prelude::*;

verus! {

/// Fixed-point steps in one world unit.
pub const UNIT: i64 = 1000;

/// Vertical distance from the safe point at which a unit counts as fallen.
pub const OUT_OF_BOUNDS_DISTANCE: i64 = 95 * UNIT;

/// Forward distance between a checkpoint and the point a unit respawns at.
pub const CHECKPOINT_OFFSET: i64 = 4 * UNIT;

/// Height of the level start position.
pub const SPAWN_HEIGHT: i64 = 8 * UNIT;

/// Depth of the water surface below the safe point.
pub const WATER_DEPTH: i64 = 10 * UNIT;

/// Clamps a mathematical integer into the range of `i64`.
pub open spec fn clamp_i64(v: int) -> int {
    if v > i64::MAX as int {
        i64::MAX as int
    } else if v < i64::MIN as int {
        i64::MIN as int
    } else {
        v
    }
}

/// Adds two `i64` values, saturating at the bounds of the type.
pub fn saturating_add_i64(a: i64, b: i64) -> (r: i64)
    ensures
        r as int == clamp_i64(a as int + b as int),
{
    let s: i128 = a as i128 + b as i128;
    if s > i64::MAX as i128 {
        i64::MAX
    } else if s < i64::MIN as i128 {
        i64::MIN
    } else {
        s as i64
    }
}

/// A point or a velocity in fixed-point world coordinates.
#[derive(Clone, Copy, Debug, PartialEq, Eq, Structural)]
pub struct Vec3 {
    pub x: i64,
    pub y: i64,
    pub z: i64,
}

/// `v` scaled by six fifths, rounded toward zero.
pub open spec fn boost_axis(v: int) -> int {
    if v >= 0 {
        clamp_i64(v + v / 5)
    } else {
        clamp_i64(v - (-v) / 5)
    }
}

impl Vec3 {
    pub open spec fn zero_spec() -> Vec3 {
        Vec3 { x: 0, y: 0, z: 0 }
    }

    pub fn new(x: i64, y: i64, z: i64) -> (r: Vec3)
        ensures
            r == (Vec3 { x, y, z }),
    {
        Vec3 { x, y, z }
    }

    pub fn zero() -> (r: Vec3)
        ensures
            r == Vec3::zero_spec(),
    {
        Vec3 { x: 0, y: 0, z: 0 }
    }
}

/// Multiplies one velocity component by the boost factor of six fifths.
pub fn boost_component(v: i64) -> (r: i64)
    ensures
        r as int == boost_axis(v as int),
{
    if v >= 0 {
        let q: i64 = v / 5;
        saturating_add_i64(v, q)
    } else {
        let m: i128 = -(v as i128);
        let q: i128 = m / 5;
        saturating_add_i64(v, -(q as i64))
    }
}

/// The level start position.
pub open spec fn spawn_point_spec() -> Vec3 {
    Vec3 { x: 0, y: SPAWN_HEIGHT, z: 0 }
}

/// The level start position, where every level begins.
pub fn spawn_point() -> (r: Vec3)
    ensures
        r == spawn_point_spec(),
{
    Vec3 { x: 0, y: SPAWN_HEIGHT, z: 0 }
}

/// Whether a unit at `translation` has left the playable volume around
/// `spawn_point`: their vertical distance is at least `OUT_OF_BOUNDS_DISTANCE`.
pub open spec fn out_of_bounds_spec(translation: Vec3, spawn_point: Vec3) -> bool {
    let d = spawn_point.y as int - translation.y as int;
    d >= OUT_OF_BOUNDS_DISTANCE as int || -d >= OUT_OF_BOUNDS_DISTANCE as int
}

pub fn is_out_of_bounds(translation: Vec3, spawn_point: Vec3) -> (r: bool)
    ensures
        r == out_of_bounds_spec(translation, spawn_point),
{
    let d: i128 = spawn_point.y as i128 - translation.y as i128;
    d >= OUT_OF_BOUNDS_DISTANCE as i128 || -d >= OUT_OF_BOUNDS_DISTANCE as i128
}

/// A point moved forward by `CHECKPOINT_OFFSET`, saturating at the edge of
/// the coordinate range.
pub open spec fn ahead_of_spec(p: Vec3) -> Vec3 {
    Vec3 { x: p.x, y: p.y, z: clamp_i64(p.z + CHECKPOINT_OFFSET) as i64 }
}

pub fn ahead_of(p: Vec3) -> (r: Vec3)
    ensures
        r == ahead_of_spec(p),
{
    Vec3 { x: p.x, y: p.y, z: saturating_add_i64(p.z, CHECKPOINT_OFFSET) }
}

/// A velocity after leaving a boost volume: the horizontal components scaled
/// by six fifths, the vertical one unchanged.
pub open spec fn boosted_spec(v: Vec3) -> Vec3 {
    Vec3 { x: boost_axis(v.x as int) as i64, y: v.y, z: boost_axis(v.z as int) as i64 }
}

pub fn boosted(v: Vec3) -> (r: Vec3)
    ensures
        r == boosted_spec(v),
{
    Vec3 { x: boost_component(v.x), y: v.y, z: boost_component(v.z) }
}

/// Height of the water surface under a safe point.
pub open spec fn water_height_spec(safe_point: Vec3) -> int {
    clamp_i64(safe_point.y - WATER_DEPTH)
}

pub fn water_height(safe_point: Vec3) -> (r: i64)
    ensures
        r as int == water_height_spec(safe_point),
{
    saturating_add_i64(safe_point.y, -WATER_DEPTH)
}

} // verus!
