//! Reflection-strength engine of the mirror objects.
//!
//! Each mirror owns a fixed-size set of boolean charge levels and a ring of
//! child proximity sensors, one per level, with the nearest ring mapped to
//! the highest level. The physics collaborator reports contact begin and end
//! events between pairs of bodies; when a body of a pair is a registered
//! sensor whose parent mirror exists, the begin or end sets or clears that
//! sensor's level in the parent's charge set. Events for bodies that are not
//! sensors, or whose parent mirror is gone, are silently ignored. Events are
//! consumed exactly once, in emission order, so for one level the last event
//! of a frame wins. The mirror's displayed frame is the index of the highest
//! active level, or zero when none is active.
//!
//! The engine is keyed per contact pair, not per overlapping body: when two
//! bodies overlap the same sensor and one of them departs, the end event
//! clears the level even though the other body still overlaps. That follows
//! the event stream faithfully and is kept as defined behaviour.

use vstd::prelude::*;

verus! {

/// Number of charge levels per mirror.
pub const MAX_REFLECTION_LEVELS: usize = 7;

/// The per-mirror set of charge level flags, indices
/// `0..MAX_REFLECTION_LEVELS`, each set and cleared independently by its own
/// sensor's overlap events.
#[derive(Debug)]
pub struct ChargeSet {
    levels: Vec<bool>,
}

impl View for ChargeSet {
    type V = Seq<bool>;

    closed spec fn view(&self) -> Seq<bool> {
        self.levels@
    }
}

/// The displayed frame selected by a charge set: the index of the highest
/// active level, or zero when no level is active.
pub open spec fn spec_display_frame(s: Seq<bool>) -> int
    decreases s.len(),
{
    if s.len() == 0 {
        0
    } else if s[s.len() - 1] {
        s.len() - 1
    } else {
        spec_display_frame(s.drop_last())
    }
}

impl ChargeSet {
    /// A charge set always carries exactly one flag per level.
    pub open spec fn wf(self) -> bool {
        self@.len() == MAX_REFLECTION_LEVELS
    }

    /// A fresh mirror has no active level.
    pub fn new() -> (c: ChargeSet)
        ensures
            c.wf(),
            forall|i: int| 0 <= i < c@.len() ==> !c@[i],
    {
        let mut levels: Vec<bool> = Vec::new();
        let mut i: usize = 0;
        while i < MAX_REFLECTION_LEVELS
            invariant
                i <= MAX_REFLECTION_LEVELS,
                levels@.len() == i,
                forall|j: int| 0 <= j < i ==> !levels@[j],
            decreases MAX_REFLECTION_LEVELS - i,
        {
            levels.push(false);
            i = i + 1;
        }
        ChargeSet { levels }
    }

    /// Set or clear one level. Level indices are a programming invariant of
    /// the sensor ring, so an index out of range is a precondition violation.
    pub fn set_level(&mut self, level: usize, active: bool)
        requires
            old(self).wf(),
            level < MAX_REFLECTION_LEVELS,
        ensures
            final(self).wf(),
            final(self)@ == old(self)@.update(level as int, active),
    {
        self.levels.set(level, active);
    }

    /// Whether one level is currently active.
    pub fn is_active(&self, level: usize) -> (b: bool)
        requires
            self.wf(),
            level < MAX_REFLECTION_LEVELS,
        ensures
            b == self@[level as int],
    {
        self.levels[level]
    }

    /// The frame the mirror displays this frame: the highest active level,
    /// or zero when none is active. Recomputed every frame with no timer.
    pub fn display_frame(&self) -> (f: usize)
        requires
            self.wf(),
        ensures
            f == spec_display_frame(self@),
            f < MAX_REFLECTION_LEVELS,
    {
        let mut i: usize = self.levels.len();
        assert(self@.take(i as int) =~= self@);
        while i > 0
            invariant
                i <= self@.len(),
                self.wf(),
                spec_display_frame(self@) == spec_display_frame(self@.take(i as int)),
            decreases i,
        {
            i = i - 1;
            if self.levels[i] {
                assert(self@.take(i + 1)[i as int]);
                return i;
            }
            assert(self@.take(i + 1).drop_last() =~= self@.take(i as int));
        }
        0
    }
}

/// Law: the displayed frame is the index of the highest active level, or
/// zero when none is active — every level above the displayed frame is
/// inactive, and a nonzero displayed frame is itself active.
pub proof fn lemma_display_frame_is_highest_active(s: Seq<bool>)
    ensures
        0 <= spec_display_frame(s),
        s.len() == 0 ==> spec_display_frame(s) == 0,
        s.len() > 0 ==> spec_display_frame(s) < s.len(),
        forall|i: int| spec_display_frame(s) < i < s.len() ==> !s[i],
        spec_display_frame(s) > 0 ==> s[spec_display_frame(s)],
    decreases s.len(),
{
    if s.len() == 0 {
    } else if s[s.len() - 1] {
    } else {
        lemma_display_frame_is_highest_active(s.drop_last());
        assert forall|i: int| spec_display_frame(s) < i < s.len() implies !s[i] by {
            if i < s.len() - 1 {
                assert(s.drop_last()[i] == s[i]);
            }
        }
        if spec_display_frame(s) > 0 {
            assert(s.drop_last()[spec_display_frame(s)] == s[spec_display_frame(s)]);
        }
    }
}

/// One proximity sensor: the mirror it is a child of, and the charge level
/// its overlaps drive.
#[derive(Clone, Copy, Debug, PartialEq, Eq, Structural)]
pub struct Sensor {
    /// Index of the parent mirror among the scene's mirrors.
    pub mirror: usize,
    /// The charge level this sensor sets and clears.
    pub level: usize,
}

/// A contact either begins or ends.
#[derive(Clone, Copy, Debug, PartialEq, Eq, Structural)]
pub enum CollisionPhase {
    Started,
    Stopped,
}

/// A collision event from the physics collaborator: a contact between the
/// two bodies named by id begins or ends.
#[derive(Clone, Copy, Debug, PartialEq, Eq, Structural)]
pub struct CollisionEvent {
    pub phase: CollisionPhase,
    pub body_a: usize,
    pub body_b: usize,
}

/// The sensor registry maps every body id to the sensor it is, if any. Every
/// registered sensor drives a level inside the charge set bounds.
pub open spec fn registry_wf(sensors: Seq<Option<Sensor>>) -> bool {
    forall|i: int|
        0 <= i < sensors.len() && sensors[i] is Some ==> (#[trigger] sensors[i])->Some_0.level
            < MAX_REFLECTION_LEVELS
}

/// Every mirror of the scene carries a well-formed charge set.
pub open spec fn mirrors_wf(mirrors: Seq<ChargeSet>) -> bool {
    forall|i: int| 0 <= i < mirrors.len() ==> (#[trigger] mirrors[i]).wf()
}

/// The charge sets of a sequence of mirrors, as plain flag sequences.
pub open spec fn charge_views(mirrors: Seq<ChargeSet>) -> Seq<Seq<bool>> {
    mirrors.map_values(|c: ChargeSet| c@)
}

/// The charge sets after one body of a contact pair is processed: if the
/// body is a registered sensor whose parent mirror exists, the sensor's
/// level in that mirror is set to `active`; any other body leaves the
/// mirrors untouched (an orphaned or foreign body is ignored).
pub open spec fn spec_touch(
    mirrors: Seq<Seq<bool>>,
    sensors: Seq<Option<Sensor>>,
    body: int,
    active: bool,
) -> Seq<Seq<bool>> {
    if 0 <= body < sensors.len() && sensors[body] is Some && (sensors[body]->Some_0.mirror as int)
        < mirrors.len() {
        let s = sensors[body]->Some_0;
        mirrors.update(s.mirror as int, mirrors[s.mirror as int].update(s.level as int, active))
    } else {
        mirrors
    }
}

/// The charge sets after one collision event: both bodies of the pair are
/// looked up, in order, and each registered one sets or clears its level.
pub open spec fn spec_apply_event(
    mirrors: Seq<Seq<bool>>,
    sensors: Seq<Option<Sensor>>,
    ev: CollisionEvent,
) -> Seq<Seq<bool>> {
    let active = ev.phase is Started;
    spec_touch(spec_touch(mirrors, sensors, ev.body_a as int, active), sensors, ev.body_b as int, active)
}

/// The charge sets after a whole frame's event stream, applied in emission
/// order.
pub open spec fn spec_apply_events(
    mirrors: Seq<Seq<bool>>,
    sensors: Seq<Option<Sensor>>,
    events: Seq<CollisionEvent>,
) -> Seq<Seq<bool>>
    decreases events.len(),
{
    if events.len() == 0 {
        mirrors
    } else {
        spec_apply_event(spec_apply_events(mirrors, sensors, events.drop_last()), sensors, events.last())
    }
}

/// Process one body of one contact pair against the sensor registry.
fn touch(mirrors: &mut Vec<ChargeSet>, sensors: &Vec<Option<Sensor>>, body: usize, active: bool)
    requires
        mirrors_wf(old(mirrors)@),
        registry_wf(sensors@),
    ensures
        mirrors_wf(final(mirrors)@),
        final(mirrors)@.len() == old(mirrors)@.len(),
        charge_views(final(mirrors)@) == spec_touch(
            charge_views(old(mirrors)@),
            sensors@,
            body as int,
            active,
        ),
{
    let ghost orig = mirrors@;
    if body < sensors.len() {
        if let Some(s) = sensors[body] {
            if s.mirror < mirrors.len() {
                let mut charge = mirrors.remove(s.mirror);
                charge.set_level(s.level, active);
                mirrors.insert(s.mirror, charge);
                assert(mirrors@ =~= orig.update(s.mirror as int, mirrors@[s.mirror as int]));
                assert(charge_views(mirrors@) =~= spec_touch(
                    charge_views(orig),
                    sensors@,
                    body as int,
                    active,
                ));
                return ;
            }
        }
    }
    assert(charge_views(mirrors@) =~= spec_touch(charge_views(orig), sensors@, body as int, active));
}

/// Apply one collision event to the scene's mirrors: each body of the pair
/// that is a registered sensor with a live parent sets or clears its level;
/// everything else is ignored.
pub fn apply_collision_event(
    mirrors: &mut Vec<ChargeSet>,
    sensors: &Vec<Option<Sensor>>,
    ev: &CollisionEvent,
)
    requires
        mirrors_wf(old(mirrors)@),
        registry_wf(sensors@),
    ensures
        mirrors_wf(final(mirrors)@),
        final(mirrors)@.len() == old(mirrors)@.len(),
        charge_views(final(mirrors)@) == spec_apply_event(charge_views(old(mirrors)@), sensors@, *ev),
{
    let active = match ev.phase {
        CollisionPhase::Started => true,
        CollisionPhase::Stopped => false,
    };
    touch(mirrors, sensors, ev.body_a, active);
    touch(mirrors, sensors, ev.body_b, active);
}

/// Apply a whole frame's collision event stream to the scene's mirrors, in
/// emission order: for one level, the last event of the frame wins.
pub fn apply_collision_events(
    mirrors: &mut Vec<ChargeSet>,
    sensors: &Vec<Option<Sensor>>,
    events: &Vec<CollisionEvent>,
)
    requires
        mirrors_wf(old(mirrors)@),
        registry_wf(sensors@),
    ensures
        mirrors_wf(final(mirrors)@),
        final(mirrors)@.len() == old(mirrors)@.len(),
        charge_views(final(mirrors)@) == spec_apply_events(
            charge_views(old(mirrors)@),
            sensors@,
            events@,
        ),
{
    let ghost orig = charge_views(mirrors@);
    let mut i: usize = 0;
    assert(events@.take(0int) =~= Seq::<CollisionEvent>::empty());
    while i < events.len()
        invariant
            i <= events@.len(),
            mirrors_wf(mirrors@),
            mirrors@.len() == old(mirrors)@.len(),
            registry_wf(sensors@),
            orig == charge_views(old(mirrors)@),
            charge_views(mirrors@) == spec_apply_events(orig, sensors@, events@.take(i as int)),
        decreases events@.len() - i,
    {
        apply_collision_event(mirrors, sensors, &events[i]);
        assert(events@.take(i + 1).drop_last() =~= events@.take(i as int));
        assert(events@.take(i + 1).last() == events@[i as int]);
        i = i + 1;
    }
    assert(events@.take(events@.len() as int) =~= events@);
}

/// The mirror animation system's pass over the scene: select every mirror's
/// displayed frame from its charge set, with no timer involved.
pub fn display_frames(mirrors: &Vec<ChargeSet>) -> (frames: Vec<usize>)
    requires
        mirrors_wf(mirrors@),
    ensures
        frames@.len() == mirrors@.len(),
        forall|i: int|
            0 <= i < mirrors@.len() ==> (#[trigger] frames@[i]) == spec_display_frame(
                mirrors@[i]@,
            ),
{
    let mut frames: Vec<usize> = Vec::new();
    let mut i: usize = 0;
    while i < mirrors.len()
        invariant
            i <= mirrors@.len(),
            mirrors_wf(mirrors@),
            frames@.len() == i,
            forall|j: int|
                0 <= j < i ==> (#[trigger] frames@[j]) == spec_display_frame(mirrors@[j]@),
        decreases mirrors@.len() - i,
    {
        frames.push(mirrors[i].display_frame());
        i = i + 1;
    }
    frames
}

/// Build the sensor ring of one mirror: one sensor per ring, nearest ring
/// first, with levels assigned in decreasing distance — the outermost ring
/// drives level one and the nearest ring the highest level. Level zero is
/// driven by no sensor; it is the displayed frame of an uncharged mirror.
pub fn sensor_ring(mirror: usize) -> (ring: Vec<Sensor>)
    ensures
        ring@.len() == MAX_REFLECTION_LEVELS - 1,
        forall|i: int|
            0 <= i < ring@.len() ==> (#[trigger] ring@[i]) == (Sensor {
                mirror,
                level: (MAX_REFLECTION_LEVELS - 1 - i) as usize,
            }),
{
    let mut ring: Vec<Sensor> = Vec::new();
    let mut i: usize = 1;
    while i < MAX_REFLECTION_LEVELS
        invariant
            1 <= i <= MAX_REFLECTION_LEVELS,
            ring@.len() == i - 1,
            forall|j: int|
                0 <= j < ring@.len() ==> (#[trigger] ring@[j]) == (Sensor {
                    mirror,
                    level: (MAX_REFLECTION_LEVELS - 1 - j) as usize,
                }),
        decreases MAX_REFLECTION_LEVELS - i,
    {
        ring.push(Sensor { mirror, level: MAX_REFLECTION_LEVELS - i });
        i = i + 1;
    }
    ring
}

} // verus!
