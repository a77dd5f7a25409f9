//! The player's two-entity representation as the unit system sees it:
//! the visible/camera entity and the physics body it resolves to, plus
//! the jump speed the controller grants where a level allows jumping.

use vstd::prelude::*;

verus! {

/// Upward speed of a jump, in subunits per second, granted in the levels
/// that allow jumping.
pub const JUMP_SPEED: i64 = 12_000_000;

/// Marker for an entity the units are allowed to target and shoot.
#[derive(Clone, Copy, PartialEq, Eq, Structural, Debug)]
pub struct ShootableByUnit;

/// The player's physics body, distinct from its visible/camera entity:
/// a sight ray that strikes it still counts as seeing the player.
#[derive(Clone, Copy, PartialEq, Eq, Structural, Debug)]
pub struct LogicalPlayerEntity(pub u64);

} // verus!
