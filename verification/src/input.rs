//! Input interpretation: from a per-frame keyboard edge snapshot to facing
//! and locomotion mode.
//!
//! The input collaborator supplies one fresh [`InputSnapshot`] per frame;
//! the core never holds onto a stale snapshot across frames. Interpretation
//! follows a fixed precedence:
//!
//! 1. a just-pressed direction key sets the facing unconditionally, with
//!    simultaneous presses resolved by sequential overwrite in the order
//!    up, left, down, right (the last write wins);
//! 2. if any direction key was just pressed, the mode becomes running if the
//!    run modifier is currently held, else walking;
//! 3. a just-released direction key that equals the updated facing stops
//!    movement; a released key that does not match the facing is ignored;
//! 4. pressing the run modifier while a direction key is held switches to
//!    running; releasing it while a direction key is held switches to
//!    walking. Neither changes the facing.

use vstd::prelude::*;

use crate::facing::Facing;
use crate::motion::LocomotionMode;

verus! {

/// Edge state of one logical key for the current frame.
#[derive(Clone, Copy, Debug, PartialEq, Eq, Structural)]
pub struct KeyEdges {
    /// The key went down this frame.
    pub just_pressed: bool,
    /// The key went up this frame.
    pub just_released: bool,
    /// The key is currently down.
    pub held: bool,
}

/// A read-only snapshot of the five logical keys for one frame.
#[derive(Clone, Copy, Debug, PartialEq, Eq, Structural)]
pub struct InputSnapshot {
    pub up: KeyEdges,
    pub left: KeyEdges,
    pub down: KeyEdges,
    pub right: KeyEdges,
    /// The run modifier.
    pub run: KeyEdges,
}

/// Some direction key went down this frame.
pub open spec fn any_direction_just_pressed(s: InputSnapshot) -> bool {
    s.up.just_pressed || s.left.just_pressed || s.down.just_pressed || s.right.just_pressed
}

/// Some direction key is currently down.
pub open spec fn any_direction_held(s: InputSnapshot) -> bool {
    s.up.held || s.left.held || s.down.held || s.right.held
}

/// The direction key matching `facing` went up this frame.
pub open spec fn released_matches(s: InputSnapshot, facing: Facing) -> bool {
    match facing {
        Facing::Down => s.down.just_released,
        Facing::Left => s.left.just_released,
        Facing::Right => s.right.just_released,
        Facing::Up => s.up.just_released,
    }
}

/// The facing after interpreting one frame of input: each just-pressed
/// direction overwrites the facing in the order up, left, down, right, so
/// the last direction in that order wins; with no direction pressed the
/// facing is kept.
pub open spec fn facing_after(s: InputSnapshot, facing: Facing) -> Facing {
    if s.right.just_pressed {
        Facing::Right
    } else if s.down.just_pressed {
        Facing::Down
    } else if s.left.just_pressed {
        Facing::Left
    } else if s.up.just_pressed {
        Facing::Up
    } else {
        facing
    }
}

/// The locomotion mode after interpreting one frame of input, given the
/// already-updated facing `new_facing`. The four rules of the module
/// documentation apply in order, each overwriting the result of the one
/// before it.
pub open spec fn mode_after(
    s: InputSnapshot,
    new_facing: Facing,
    mode: LocomotionMode,
) -> LocomotionMode {
    let after_press = if any_direction_just_pressed(s) {
        if s.run.held {
            LocomotionMode::Running
        } else {
            LocomotionMode::Walking
        }
    } else {
        mode
    };
    let after_release = if released_matches(s, new_facing) {
        LocomotionMode::Idle
    } else {
        after_press
    };
    let after_run_press = if s.run.just_pressed && any_direction_held(s) {
        LocomotionMode::Running
    } else {
        after_release
    };
    if s.run.just_released && any_direction_held(s) {
        LocomotionMode::Walking
    } else {
        after_run_press
    }
}

/// Interpret one frame of input: returns the updated facing and locomotion
/// mode for an entity currently at `facing` and `mode`.
pub fn interpret(s: &InputSnapshot, facing: Facing, mode: LocomotionMode) -> (r: (
    Facing,
    LocomotionMode,
))
    ensures
        r.0 == facing_after(*s, facing),
        r.1 == mode_after(*s, r.0, mode),
{
    let mut new_facing = facing;
    let mut new_mode = mode;

    // just-pressed direction keys overwrite the facing in fixed order
    if s.up.just_pressed {
        new_facing = Facing::Up;
    }
    if s.left.just_pressed {
        new_facing = Facing::Left;
    }
    if s.down.just_pressed {
        new_facing = Facing::Down;
    }
    if s.right.just_pressed {
        new_facing = Facing::Right;
    }

    // a fresh direction press starts moving, running if the modifier is held
    if s.up.just_pressed || s.left.just_pressed || s.down.just_pressed || s.right.just_pressed {
        if s.run.held {
            new_mode = LocomotionMode::Running;
        } else {
            new_mode = LocomotionMode::Walking;
        }
    }

    // releasing the direction key that matches the facing stops movement
    if s.up.just_released && new_facing == Facing::Up {
        new_mode = LocomotionMode::Idle;
    }
    if s.left.just_released && new_facing == Facing::Left {
        new_mode = LocomotionMode::Idle;
    }
    if s.down.just_released && new_facing == Facing::Down {
        new_mode = LocomotionMode::Idle;
    }
    if s.right.just_released && new_facing == Facing::Right {
        new_mode = LocomotionMode::Idle;
    }

    // run modifier edges toggle walking and running while a direction is held
    if s.run.just_pressed && (s.up.held || s.left.held || s.down.held || s.right.held) {
        new_mode = LocomotionMode::Running;
    }
    if s.run.just_released && (s.up.held || s.left.held || s.down.held || s.right.held) {
        new_mode = LocomotionMode::Walking;
    }

    (new_facing, new_mode)
}

/// Law: a frame whose only key edges are just-released direction keys that
/// do not match the current facing changes neither the facing nor the
/// locomotion mode.
pub proof fn lemma_release_nonmatching_direction_ignored(
    s: InputSnapshot,
    facing: Facing,
    mode: LocomotionMode,
)
    requires
        !s.up.just_pressed,
        !s.left.just_pressed,
        !s.down.just_pressed,
        !s.right.just_pressed,
        !s.run.just_pressed,
        !s.run.just_released,
        !released_matches(s, facing),
    ensures
        facing_after(s, facing) == facing,
        mode_after(s, facing_after(s, facing), mode) == mode,
{
}

} // verus!
