//! Simulation core of a first-person-shooter style game: enemy-unit roaming
//! and combat state machines, line-of-sight targeting, projectile flight and
//! damage resolution, and the level-progression tables.
//!
//! All world quantities (positions, distances, speeds, timers, health) are
//! fixed-point integers with one million subunits per world unit or second,
//! so that every rule of the simulation can be stated and proved exactly.
//! Rendering, physics ray casts and input are outside collaborators: the
//! functions here consume their results as plain values.

use vstd::prelude::*;

pub mod character_controller;
pub mod levels;
pub mod math;
pub mod player;
pub mod rng;
pub mod scene;
pub mod ui;
pub mod units;
pub mod vec3;

verus! {

/// Wound state of the player or of a unit, in health subunits
/// (one million subunits is full health).
#[derive(Clone, Copy, PartialEq, Eq, Structural, Debug)]
pub struct Health(pub i64);

} // verus!
