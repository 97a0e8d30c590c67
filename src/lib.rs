//! Progression core of a first-person obstacle-course game: out-of-bounds
//! detection, respawning, checkpoint history, level progression and run
//! timing, all over plain fixed-point values.
//!
//! The engine around it reports events (a contact, a finished scene load, a
//! level selection, elapsed time) and applies what comes back. Within one
//! fixed step `Game::fixed_update` first applies the respawn requests of the
//! previous step and then raises those of this step.

pub mod geometry;
pub mod history;
pub mod unit;
pub mod level;
pub mod timing;
pub mod game;
pub mod collider;
pub mod effects;
pub mod input;
pub mod assets;
