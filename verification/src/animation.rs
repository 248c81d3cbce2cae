//! Sprite-frame animation: cyclic frame windows, a repeating clock, and the
//! lookup table from facing and locomotion mode to the character's window.
//!
//! A window is a contiguous range of atlas indices. The displayed frame is
//! always inside the current window; when the window changes because the
//! entity's state changed, the frame is not reset — it is kept where it is
//! if it still lies in the new window, and wraps to the window's start only
//! otherwise. The clock advances the frame by exactly one step per overflow
//! event, even when more than one period elapsed in a single tick, so the
//! animation may fall behind real time during large stutters; that is the
//! intended behaviour.

use vstd::prelude::*;

use crate::facing::Facing;
use crate::motion::LocomotionMode;

verus! {

/// A contiguous cyclic window `[start, start + length)` of sprite atlas
/// indices representing one animation cycle.
#[derive(Clone, Copy, Debug, PartialEq, Eq, Structural)]
pub struct FrameRange {
    pub start: usize,
    pub length: usize,
}

impl FrameRange {
    /// A usable window has at least one frame and fits in the atlas index
    /// type.
    pub open spec fn wf(self) -> bool {
        1 <= self.length && self.start + self.length <= usize::MAX
    }

    /// `frame` lies inside the window.
    pub open spec fn contains_spec(self, frame: int) -> bool {
        self.start <= frame < self.start + self.length
    }

    /// One step forward from `frame`: the next index, wrapping to the start
    /// of the window when it would otherwise leave it.
    pub open spec fn spec_next(self, frame: int) -> int {
        if self.contains_spec(frame + 1) {
            frame + 1
        } else {
            self.start as int
        }
    }

    /// Construct a window, rejecting degenerate configurations: a window of
    /// length zero, or one that overruns the atlas index type, yields `None`.
    pub fn new(start: usize, length: usize) -> (r: Option<FrameRange>)
        ensures
            r is Some <==> (1 <= length && start + length <= usize::MAX),
            r is Some ==> r->Some_0 == (FrameRange { start, length }),
            r is Some ==> r->Some_0.wf(),
    {
        if 1 <= length && length <= usize::MAX - start {
            Some(FrameRange { start, length })
        } else {
            None
        }
    }

    /// Whether `frame` lies inside the window.
    pub fn contains(&self, frame: usize) -> (b: bool)
        ensures
            b == self.contains_spec(frame as int),
    {
        self.start <= frame && frame - self.start < self.length
    }

    /// The frame displayed one step after `frame`.
    pub fn next_frame(&self, frame: usize) -> (f: usize)
        requires
            self.wf(),
            self.contains_spec(frame as int),
        ensures
            f == self.spec_next(frame as int),
            self.contains_spec(f as int),
    {
        let next = frame + 1;
        if self.contains(next) {
            next
        } else {
            self.start
        }
    }
}

/// A repeating timer in integer milliseconds, with `elapsed_ms` always
/// strictly below `period_ms`.
#[derive(Clone, Copy, Debug, PartialEq, Eq, Structural)]
pub struct AnimationClock {
    pub elapsed_ms: u64,
    pub period_ms: u64,
}

impl AnimationClock {
    pub open spec fn wf(self) -> bool {
        1 <= self.period_ms && self.elapsed_ms < self.period_ms
    }

    /// A fresh clock with nothing elapsed.
    pub fn new(period_ms: u64) -> (c: AnimationClock)
        requires
            1 <= period_ms,
        ensures
            c.wf(),
            c.period_ms == period_ms,
            c.elapsed_ms == 0,
    {
        AnimationClock { elapsed_ms: 0, period_ms }
    }

    /// Advance the clock by `dt_ms`. Returns whether the clock overflowed
    /// its period; on overflow the elapsed time resets to zero, so at most
    /// one overflow event is reported per tick however large `dt_ms` is.
    pub fn tick(&mut self, dt_ms: u64) -> (advanced: bool)
        requires
            old(self).wf(),
            dt_ms <= u64::MAX - old(self).elapsed_ms,
        ensures
            final(self).wf(),
            final(self).period_ms == old(self).period_ms,
            advanced == (old(self).elapsed_ms + dt_ms >= old(self).period_ms),
            final(self).elapsed_ms == if advanced {
                0int
            } else {
                old(self).elapsed_ms + dt_ms
            },
    {
        let total = self.elapsed_ms + dt_ms;
        if total >= self.period_ms {
            self.elapsed_ms = 0;
            true
        } else {
            self.elapsed_ms = total;
            false
        }
    }

    /// Change the period without resetting the elapsed time. Only when the
    /// elapsed time no longer fits under the new, shorter period does the
    /// cycle restart at zero, keeping the clock invariant.
    pub fn set_period(&mut self, period_ms: u64)
        requires
            old(self).wf(),
            1 <= period_ms,
        ensures
            final(self).wf(),
            final(self).period_ms == period_ms,
            final(self).elapsed_ms == if old(self).elapsed_ms < period_ms {
                old(self).elapsed_ms as int
            } else {
                0int
            },
    {
        self.period_ms = period_ms;
        if self.elapsed_ms >= period_ms {
            self.elapsed_ms = 0;
        }
    }
}

/// Number of frames in every character animation cycle.
pub const CHARACTER_CYCLE_LENGTH: usize = 6;

/// Clock period while idle or walking, in milliseconds.
pub const BASE_PERIOD_MS: u64 = 200;

/// Clock period while running, in milliseconds: running animates twice as
/// fast.
pub const RUN_PERIOD_MS: u64 = 100;

/// The character sheet lookup table: the first atlas index of the cycle for
/// each facing × moving pair.
pub open spec fn spec_character_range_start(facing: Facing, moving: bool) -> int {
    match facing {
        Facing::Down => if moving {
            130
        } else {
            74
        },
        Facing::Left => if moving {
            124
        } else {
            68
        },
        Facing::Right => if moving {
            112
        } else {
            56
        },
        Facing::Up => if moving {
            118
        } else {
            62
        },
    }
}

/// Look up the character's frame window for a facing × moving pair. Every
/// window of the table has [`CHARACTER_CYCLE_LENGTH`] frames and starts at
/// the documented atlas index.
pub fn character_range(facing: Facing, moving: bool) -> (r: FrameRange)
    ensures
        r.wf(),
        r.start == spec_character_range_start(facing, moving),
        r.length == CHARACTER_CYCLE_LENGTH,
{
    let start: usize = match facing {
        Facing::Down => if moving {
            130
        } else {
            74
        },
        Facing::Left => if moving {
            124
        } else {
            68
        },
        Facing::Right => if moving {
            112
        } else {
            56
        },
        Facing::Up => if moving {
            118
        } else {
            62
        },
    };
    FrameRange { start, length: CHARACTER_CYCLE_LENGTH }
}

/// The clock period for a locomotion mode: the running period while running,
/// the base period otherwise.
pub open spec fn spec_period_ms(mode: LocomotionMode) -> int {
    match mode {
        LocomotionMode::Running => RUN_PERIOD_MS as int,
        _ => BASE_PERIOD_MS as int,
    }
}

/// The clock period used while in `mode`.
pub fn period_ms_for(mode: LocomotionMode) -> (p: u64)
    ensures
        p == spec_period_ms(mode),
        1 <= p,
{
    match mode {
        LocomotionMode::Running => RUN_PERIOD_MS,
        _ => BASE_PERIOD_MS,
    }
}

/// One animated sprite facet: the current window, the displayed frame, and
/// the clock that advances it.
#[derive(Clone, Copy, Debug, PartialEq, Eq, Structural)]
pub struct Animation {
    pub range: FrameRange,
    pub frame: usize,
    pub clock: AnimationClock,
}

impl Animation {
    /// The window is usable, the displayed frame lies inside it, and the
    /// clock keeps its invariant.
    pub open spec fn wf(self) -> bool {
        self.range.wf() && self.range.contains_spec(self.frame as int) && self.clock.wf()
    }

    /// A freshly spawned sprite starts at the first frame of its window —
    /// the only occasion on which the frame is forced to the window start.
    pub fn new(range: FrameRange, period_ms: u64) -> (a: Animation)
        requires
            range.wf(),
            1 <= period_ms,
        ensures
            a.wf(),
            a.range == range,
            a.frame == range.start,
            a.clock.period_ms == period_ms,
            a.clock.elapsed_ms == 0,
    {
        Animation { range, frame: range.start, clock: AnimationClock::new(period_ms) }
    }

    /// The animation after its window is swapped for `range`: the displayed
    /// frame is kept if it still lies in the new window and wraps to the new
    /// window's start otherwise; the clock is untouched.
    pub open spec fn spec_set_range(self, range: FrameRange) -> Animation {
        Animation {
            range,
            frame: if range.contains_spec(self.frame as int) {
                self.frame
            } else {
                range.start
            },
            clock: self.clock,
        }
    }

    /// The animation after its clock period changes: window, frame and
    /// elapsed time are kept, except that an elapsed time no longer below a
    /// shorter period restarts at zero.
    pub open spec fn spec_set_period(self, period_ms: u64) -> Animation {
        Animation {
            range: self.range,
            frame: self.frame,
            clock: AnimationClock {
                elapsed_ms: if self.elapsed_fits(period_ms) {
                    self.clock.elapsed_ms
                } else {
                    0u64
                },
                period_ms,
            },
        }
    }

    /// The elapsed time still lies below `period_ms`.
    pub open spec fn elapsed_fits(self, period_ms: u64) -> bool {
        self.clock.elapsed_ms < period_ms
    }

    /// The clock overflows its period during a tick of `dt_ms`.
    pub open spec fn spec_advances(self, dt_ms: u64) -> bool {
        self.clock.elapsed_ms + dt_ms >= self.clock.period_ms
    }

    /// The animation after a tick of `dt_ms`: on clock overflow the frame
    /// moves exactly one step through the window and the elapsed time resets
    /// to zero; otherwise only the elapsed time grows.
    pub open spec fn spec_tick(self, dt_ms: u64) -> Animation {
        if self.spec_advances(dt_ms) {
            Animation {
                range: self.range,
                frame: self.range.spec_next(self.frame as int) as usize,
                clock: AnimationClock { elapsed_ms: 0, period_ms: self.clock.period_ms },
            }
        } else {
            Animation {
                range: self.range,
                frame: self.frame,
                clock: AnimationClock {
                    elapsed_ms: (self.clock.elapsed_ms + dt_ms) as u64,
                    period_ms: self.clock.period_ms,
                },
            }
        }
    }

    /// Law: swapping the window on a state change preserves the displayed
    /// frame whenever it still lies in the new window, and wraps it to the
    /// new window's start otherwise — never to any other value. The clock is
    /// untouched.
    pub fn set_range(&mut self, range: FrameRange)
        requires
            old(self).wf(),
            range.wf(),
        ensures
            final(self).wf(),
            *final(self) == old(self).spec_set_range(range),
    {
        if !range.contains(self.frame) {
            self.frame = range.start;
        }
        self.range = range;
    }

    /// Change the clock period, as when the locomotion mode changes; the
    /// window and displayed frame are untouched.
    pub fn set_period(&mut self, period_ms: u64)
        requires
            old(self).wf(),
            1 <= period_ms,
        ensures
            final(self).wf(),
            *final(self) == old(self).spec_set_period(period_ms),
    {
        self.clock.set_period(period_ms);
    }

    /// Advance the animation by `dt_ms` of real time: on clock overflow the
    /// displayed frame moves exactly one step through the window, wrapping
    /// at the window end back to its start.
    pub fn tick(&mut self, dt_ms: u64) -> (advanced: bool)
        requires
            old(self).wf(),
            dt_ms <= u64::MAX - old(self).clock.elapsed_ms,
        ensures
            final(self).wf(),
            *final(self) == old(self).spec_tick(dt_ms),
            advanced == old(self).spec_advances(dt_ms),
    {
        let advanced = self.clock.tick(dt_ms);
        if advanced {
            self.frame = self.range.next_frame(self.frame);
        }
        advanced
    }
}

/// The animation system's pass over the scene: advance every animated
/// sprite by one frame's elapsed time.
pub fn animate_all(sprites: &mut Vec<Animation>, dt_ms: u64)
    requires
        forall|i: int|
            0 <= i < old(sprites)@.len() ==> (#[trigger] old(sprites)@[i]).wf()
                && old(sprites)@[i].clock.elapsed_ms + dt_ms <= u64::MAX,
    ensures
        final(sprites)@.len() == old(sprites)@.len(),
        forall|i: int|
            0 <= i < old(sprites)@.len() ==> (#[trigger] final(sprites)@[i]) == old(
                sprites,
            )@[i].spec_tick(dt_ms),
        forall|i: int| 0 <= i < final(sprites)@.len() ==> (#[trigger] final(sprites)@[i]).wf(),
{
    let mut i: usize = 0;
    while i < sprites.len()
        invariant
            i <= sprites@.len(),
            sprites@.len() == old(sprites)@.len(),
            forall|j: int|
                i <= j < sprites@.len() ==> (#[trigger] sprites@[j]) == old(sprites)@[j],
            forall|j: int|
                0 <= j < old(sprites)@.len() ==> (#[trigger] old(sprites)@[j]).wf()
                    && old(sprites)@[j].clock.elapsed_ms + dt_ms <= u64::MAX,
            forall|j: int|
                0 <= j < i ==> (#[trigger] sprites@[j]) == old(sprites)@[j].spec_tick(dt_ms)
                    && sprites@[j].wf(),
        decreases sprites@.len() - i,
    {
        let mut sprite = sprites[i];
        sprite.tick(dt_ms);
        sprites.set(i, sprite);
        i = i + 1;
    }
}

} // verus!
