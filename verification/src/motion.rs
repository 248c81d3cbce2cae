//! Locomotion intent and the bridge from intent to physics.
//!
//! Intent is a mode (idle, walking or running) together with per-mode
//! strengths fixed at entity creation. The bridge turns intent into either a
//! pending impulse handed to the physics collaborator, or a direct kinematic
//! displacement of a world position.

use vstd::prelude::*;

use crate::facing::Facing;

verus! {

/// The entity's current movement state. Walking and running are mutually
/// exclusive by construction.
#[derive(Clone, Copy, Debug, PartialEq, Eq, Structural)]
pub enum LocomotionMode {
    Idle,
    Walking,
    Running,
}

/// A pending impulse vector for the physics collaborator, in integer force
/// units. The collaborator integrates, damps and zeroes consumed impulses.
#[derive(Clone, Copy, Debug, PartialEq, Eq, Structural)]
pub struct Impulse {
    pub x: i64,
    pub y: i64,
}

/// A world position in integer units.
#[derive(Clone, Copy, Debug, PartialEq, Eq, Structural)]
pub struct Position {
    pub x: i64,
    pub y: i64,
}

/// Horizontal component of the unit vector for a facing.
pub open spec fn unit_x(facing: Facing) -> int {
    match facing {
        Facing::Down => 0,
        Facing::Left => -1,
        Facing::Right => 1,
        Facing::Up => 0,
    }
}

/// Vertical component of the unit vector for a facing.
pub open spec fn unit_y(facing: Facing) -> int {
    match facing {
        Facing::Down => -1,
        Facing::Left => 0,
        Facing::Right => 0,
        Facing::Up => 1,
    }
}

/// The strength applied in a mode: the per-mode constant while moving,
/// nothing while idle.
pub open spec fn strength_for(mode: LocomotionMode, walk_strength: u32, run_strength: u32) -> int {
    match mode {
        LocomotionMode::Idle => 0,
        LocomotionMode::Walking => walk_strength as int,
        LocomotionMode::Running => run_strength as int,
    }
}

/// Impulse-based bridge: the pending impulse for one frame is the mode's
/// strength along the unit vector of the facing, and zero while idle.
pub fn impulse_for(
    mode: LocomotionMode,
    facing: Facing,
    walk_strength: u32,
    run_strength: u32,
) -> (imp: Impulse)
    ensures
        imp.x == unit_x(facing) * strength_for(mode, walk_strength, run_strength),
        imp.y == unit_y(facing) * strength_for(mode, walk_strength, run_strength),
{
    let strength: i64 = match mode {
        LocomotionMode::Idle => 0,
        LocomotionMode::Walking => walk_strength as i64,
        LocomotionMode::Running => run_strength as i64,
    };
    match facing {
        Facing::Down => Impulse { x: 0, y: -strength },
        Facing::Left => Impulse { x: -strength, y: 0 },
        Facing::Right => Impulse { x: strength, y: 0 },
        Facing::Up => Impulse { x: 0, y: strength },
    }
}

/// Kinematic bridge: displace the position by `strength × Δt` along the unit
/// vector of the facing; an idle entity stays where it is.
pub fn kinematic_step(
    pos: Position,
    mode: LocomotionMode,
    facing: Facing,
    walk_strength: u32,
    run_strength: u32,
    dt_ms: u64,
) -> (p: Position)
    requires
        dt_ms <= i64::MAX as u64,
        strength_for(mode, walk_strength, run_strength) * dt_ms <= i64::MAX,
        i64::MIN <= pos.x + unit_x(facing) * (strength_for(mode, walk_strength, run_strength)
            * dt_ms) <= i64::MAX,
        i64::MIN <= pos.y + unit_y(facing) * (strength_for(mode, walk_strength, run_strength)
            * dt_ms) <= i64::MAX,
    ensures
        p.x == pos.x + unit_x(facing) * (strength_for(mode, walk_strength, run_strength) * dt_ms),
        p.y == pos.y + unit_y(facing) * (strength_for(mode, walk_strength, run_strength) * dt_ms),
{
    let strength: i64 = match mode {
        LocomotionMode::Idle => 0,
        LocomotionMode::Walking => walk_strength as i64,
        LocomotionMode::Running => run_strength as i64,
    };
    assert(strength * dt_ms >= 0) by (nonlinear_arith)
        requires
            strength >= 0,
            dt_ms >= 0,
    ;
    let step: i64 = strength * (dt_ms as i64);
    match facing {
        Facing::Down => Position { x: pos.x, y: pos.y - step },
        Facing::Left => Position { x: pos.x - step, y: pos.y },
        Facing::Right => Position { x: pos.x + step, y: pos.y },
        Facing::Up => Position { x: pos.x, y: pos.y + step },
    }
}

} // verus!
