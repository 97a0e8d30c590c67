//! Level numbers, level-select requests and the settings keyed by level.
use vstd::prelude::*;

verus! {

/// Number of levels in a run.
pub const LEVEL_COUNT: usize = 3;

/// Whether `n` names a level: levels are numbered from 1 to `LEVEL_COUNT`.
pub open spec fn valid_level(n: int) -> bool {
    1 <= n <= LEVEL_COUNT as int
}

/// Why a level selection was refused.
#[derive(Clone, Copy, Debug, PartialEq, Eq, Structural)]
pub enum LevelError {
    /// Level 0 was asked for; levels start at 1.
    Zero,
    /// A level beyond `LEVEL_COUNT` was asked for.
    TooHigh,
}

/// A request to load a level, always one of `1..=LEVEL_COUNT` when made by
/// `SpawnLevel::new`.
#[derive(Clone, Copy, Debug, PartialEq, Eq, Structural)]
pub struct SpawnLevel(pub usize);

/// The outcome of selecting level `n`.
pub open spec fn select_spec(n: int) -> Result<SpawnLevel, LevelError> {
    if n == 0 {
        Err(LevelError::Zero)
    } else if n > LEVEL_COUNT as int {
        Err(LevelError::TooHigh)
    } else {
        Ok(SpawnLevel(n as usize))
    }
}

impl SpawnLevel {
    /// Checks a level number at the boundary where a selection is made.
    pub fn new(n: usize) -> (r: Result<SpawnLevel, LevelError>)
        ensures
            r == select_spec(n as int),
            r is Ok <==> valid_level(n as int),
    {
        if n == 0 {
            Err(LevelError::Zero)
        } else if n > LEVEL_COUNT {
            Err(LevelError::TooHigh)
        } else {
            Ok(SpawnLevel(n))
        }
    }

    pub open spec fn valid(self) -> bool {
        valid_level(self.0 as int)
    }

    pub fn get(&self) -> (r: usize)
        ensures
            r == self.0,
    {
        self.0
    }
}

/// The level after `level`, or `None` when `level` is the last one.
pub fn next_level(level: usize) -> (r: Option<SpawnLevel>)
    requires
        valid_level(level as int),
    ensures
        level == LEVEL_COUNT ==> r is None,
        level < LEVEL_COUNT ==> r == Some(SpawnLevel((level + 1) as usize)),
        r matches Some(s) ==> s.valid(),
{
    if level < LEVEL_COUNT {
        Some(SpawnLevel(level + 1))
    } else {
        None
    }
}

/// The slot of a level in tables that hold one entry per level.
pub fn level_slot(level: usize) -> (r: usize)
    requires
        valid_level(level as int),
    ensures
        r == level - 1,
        r < LEVEL_COUNT,
{
    level - 1
}

/// Skybox brightness of each level.
pub open spec fn skybox_brightness_spec(level: int) -> u32 {
    if level == 1 {
        30000
    } else if level == 2 || level == 3 {
        50000
    } else {
        10000
    }
}

pub fn skybox_brightness(level: usize) -> (r: u32)
    ensures
        r == skybox_brightness_spec(level as int),
{
    match level {
        1 => 30000,
        2 => 50000,
        3 => 50000,
        _ => 10000,
    }
}

/// The deep-water tint chosen for a level.
#[derive(Clone, Copy, Debug, PartialEq, Eq, Structural)]
pub enum WaterColor {
    DeepPurple,
    DarkCyan,
    DarkRed,
}

pub open spec fn water_color_spec(level: int) -> WaterColor {
    if level == 1 {
        WaterColor::DeepPurple
    } else if level == 3 {
        WaterColor::DarkRed
    } else {
        WaterColor::DarkCyan
    }
}

pub fn water_color(level: usize) -> (r: WaterColor)
    ensures
        r == water_color_spec(level as int),
{
    match level {
        1 => WaterColor::DeepPurple,
        2 => WaterColor::DarkCyan,
        3 => WaterColor::DarkRed,
        _ => WaterColor::DarkCyan,
    }
}

} // verus!
