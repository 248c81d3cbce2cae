//! The player character: facing, locomotion intent and animation facets,
//! and the per-frame step that keeps them mutually consistent.
//!
//! The frame step runs the systems in their documented order: input
//! interpretation first, then animation selection and advance together with
//! the locomotion-to-physics bridge, both reading the state the input step
//! just wrote — a facing or mode change is visible to animation and physics
//! within the same frame. Physics integration and the subsequent depth sort
//! happen outside, on the position the physics collaborator hands back.

use vstd::prelude::*;

use crate::animation::Animation;
use crate::animation::BASE_PERIOD_MS;
use crate::animation::CHARACTER_CYCLE_LENGTH;
use crate::animation::FrameRange;
use crate::animation::character_range;
use crate::animation::period_ms_for;
use crate::animation::spec_character_range_start;
use crate::animation::spec_period_ms;
use crate::facing::Facing;
use crate::input::InputSnapshot;
use crate::input::facing_after;
use crate::input::mode_after;
use crate::motion::Impulse;
use crate::motion::LocomotionMode;
use crate::motion::impulse_for;
use crate::motion::strength_for;
use crate::motion::unit_x;
use crate::motion::unit_y;

verus! {

/// Impulse strength while walking, fixed at spawn.
pub const WALK_STRENGTH: u32 = 24;

/// Impulse strength while running, fixed at spawn.
pub const RUN_STRENGTH: u32 = 48;

/// The player entity's simulation facets.
#[derive(Clone, Copy, Debug, PartialEq, Eq, Structural)]
pub struct Character {
    pub facing: Facing,
    pub mode: LocomotionMode,
    /// Per-mode strengths, attached at creation and never mutated.
    pub walk_strength: u32,
    pub run_strength: u32,
    pub anim: Animation,
}

impl Character {
    pub open spec fn wf(self) -> bool {
        self.anim.wf()
    }

    /// The entity is moving: walking or running.
    pub open spec fn spec_moving(self) -> bool {
        !(self.mode is Idle)
    }

    /// The character after one frame of input interpretation: facing and
    /// mode updated, everything else untouched.
    pub open spec fn spec_apply_input(self, s: InputSnapshot) -> Character {
        let new_facing = facing_after(s, self.facing);
        Character { facing: new_facing, mode: mode_after(s, new_facing, self.mode), ..self }
    }

    /// The character after animation selection: the frame window looked up
    /// from facing and moving state, the displayed frame kept if it still
    /// lies in the new window and wrapped to its start otherwise, and the
    /// clock period set for the mode without resetting the elapsed time
    /// (except when the elapsed time no longer fits under a shorter period).
    pub open spec fn spec_select_animation(self) -> Character {
        let range = FrameRange {
            start: spec_character_range_start(self.facing, self.spec_moving()) as usize,
            length: CHARACTER_CYCLE_LENGTH,
        };
        Character {
            anim: self.anim.spec_set_range(range).spec_set_period(spec_period_ms(self.mode) as u64),
            ..self
        }
    }

    /// The clock overflows its period during a tick of `dt_ms`.
    pub open spec fn spec_advances(self, dt_ms: u64) -> bool {
        self.anim.spec_advances(dt_ms)
    }

    /// The character after its animation advances by `dt_ms`: on clock
    /// overflow the frame moves exactly one step through the window.
    pub open spec fn spec_tick(self, dt_ms: u64) -> Character {
        Character { anim: self.anim.spec_tick(dt_ms), ..self }
    }

    /// Spawn the player: facing down, idle, displaying the first frame of
    /// the idle-down window, with a fresh clock at the base period.
    pub fn new() -> (c: Character)
        ensures
            c.wf(),
            c.facing == Facing::Down,
            c.mode == LocomotionMode::Idle,
            c.walk_strength == WALK_STRENGTH,
            c.run_strength == RUN_STRENGTH,
            c.anim.range.start == spec_character_range_start(Facing::Down, false),
            c.anim.range.length == CHARACTER_CYCLE_LENGTH,
            c.anim.frame == c.anim.range.start,
            c.anim.clock.period_ms == BASE_PERIOD_MS,
            c.anim.clock.elapsed_ms == 0,
    {
        let range = character_range(Facing::Down, false);
        Character {
            facing: Facing::Down,
            mode: LocomotionMode::Idle,
            walk_strength: WALK_STRENGTH,
            run_strength: RUN_STRENGTH,
            anim: Animation::new(range, BASE_PERIOD_MS),
        }
    }

    /// Interpret one frame of input, updating facing and locomotion mode.
    pub fn apply_input(&mut self, s: &InputSnapshot)
        ensures
            *final(self) == old(self).spec_apply_input(*s),
    {
        let (new_facing, new_mode) = crate::input::interpret(s, self.facing, self.mode);
        self.facing = new_facing;
        self.mode = new_mode;
    }

    /// Select the frame window and clock period for the current facing and
    /// mode.
    pub fn select_animation(&mut self)
        requires
            old(self).wf(),
        ensures
            *final(self) == old(self).spec_select_animation(),
            final(self).wf(),
    {
        let moving = match self.mode {
            LocomotionMode::Idle => false,
            _ => true,
        };
        let range = character_range(self.facing, moving);
        self.anim.set_range(range);
        let period = period_ms_for(self.mode);
        self.anim.set_period(period);
    }

    /// Advance the animation clock by `dt_ms`, stepping the displayed frame
    /// on overflow.
    pub fn advance_animation(&mut self, dt_ms: u64) -> (advanced: bool)
        requires
            old(self).wf(),
            dt_ms <= u64::MAX - old(self).anim.clock.elapsed_ms,
        ensures
            *final(self) == old(self).spec_tick(dt_ms),
            final(self).wf(),
            advanced == old(self).spec_advances(dt_ms),
    {
        self.anim.tick(dt_ms)
    }

    /// One whole frame of the character pipeline: interpret the input,
    /// select and advance the animation for the resulting state, and hand
    /// back the pending impulse for the physics collaborator — all reading
    /// the facing and mode written this same frame.
    pub fn step_frame(&mut self, s: &InputSnapshot, dt_ms: u64) -> (imp: Impulse)
        requires
            old(self).wf(),
            dt_ms <= u64::MAX - BASE_PERIOD_MS,
        ensures
            *final(self) == old(self).spec_apply_input(*s).spec_select_animation().spec_tick(dt_ms),
            final(self).wf(),
            imp.x == unit_x(final(self).facing) * strength_for(
                final(self).mode,
                old(self).walk_strength,
                old(self).run_strength,
            ),
            imp.y == unit_y(final(self).facing) * strength_for(
                final(self).mode,
                old(self).walk_strength,
                old(self).run_strength,
            ),
    {
        self.apply_input(s);
        self.select_animation();
        self.advance_animation(dt_ms);
        impulse_for(self.mode, self.facing, self.walk_strength, self.run_strength)
    }
}

} // verus!
