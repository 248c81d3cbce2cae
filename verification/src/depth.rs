//! Depth sort: a stable draw order derived from vertical world position.
//!
//! The depth of an entity is recomputed every frame as a pure function of
//! its world y coordinate and its class base offset: entities higher up the
//! room are farther away and draw behind entities lower down, and the class
//! offsets separate whole classes (floor tiles behind every movable entity)
//! whatever their y positions. Depth is carried in integer ticks, each worth
//! a small fraction of one base-offset unit, so that within one class the
//! order is decided by y alone.

use vstd::prelude::*;

use crate::motion::Position;

verus! {

/// Depth ticks per unit of class base offset. One world unit of y is worth
/// a single tick, so a whole class step dwarfs any plausible y difference.
pub const CLASS_UNIT: i64 = 100_000_000;

/// Class base offset of floor tiles: the lowest class, drawn behind
/// everything that moves.
pub const FLOOR_CLASS_OFFSET: i64 = 4;

/// Class base offset of characters and mirrors.
pub const CHARACTER_CLASS_OFFSET: i64 = 500;

/// The depth derived from a world y and a class base offset: a lower value
/// draws farther back.
pub open spec fn spec_depth(world_y: int, base_offset: int) -> int {
    base_offset * CLASS_UNIT - world_y
}

/// Compute the draw-order depth for one entity. Pure: no history and no
/// hysteresis, only the current position and class go in.
pub fn depth_for(world_y: i64, base_offset: i64) -> (d: i64)
    requires
        i64::MIN <= base_offset * CLASS_UNIT <= i64::MAX,
        i64::MIN <= base_offset * CLASS_UNIT - world_y <= i64::MAX,
    ensures
        d == spec_depth(world_y as int, base_offset as int),
{
    base_offset * CLASS_UNIT - world_y
}

/// The depth-sorted facet of an entity: its world position, its class base
/// offset, and the depth it hands to the render collaborator.
#[derive(Clone, Copy, Debug, PartialEq, Eq, Structural)]
pub struct DepthSorted {
    pub pos: Position,
    pub base_offset: i64,
    pub depth: i64,
}

impl DepthSorted {
    /// The carried depth agrees with the entity's current position.
    pub open spec fn depth_current(self) -> bool {
        self.depth == spec_depth(self.pos.y as int, self.base_offset as int)
    }

    /// The entity's depth fits the depth type: the machine limit under which
    /// the sort runs.
    pub open spec fn depth_computable(self) -> bool {
        &&& i64::MIN <= self.base_offset * CLASS_UNIT <= i64::MAX
        &&& i64::MIN <= self.base_offset * CLASS_UNIT - self.pos.y <= i64::MAX
    }

    /// Recompute the depth from the current position, leaving position and
    /// class untouched.
    pub fn refresh_depth(&mut self)
        requires
            old(self).depth_computable(),
        ensures
            final(self).pos == old(self).pos,
            final(self).base_offset == old(self).base_offset,
            final(self).depth_current(),
    {
        self.depth = depth_for(self.pos.y, self.base_offset);
    }
}

/// The depth-sort system's pass over the scene: recompute every entity's
/// depth from its current position, touching nothing else.
pub fn refresh_all(entities: &mut Vec<DepthSorted>)
    requires
        forall|i: int|
            0 <= i < old(entities)@.len() ==> (#[trigger] old(entities)@[i]).depth_computable(),
    ensures
        final(entities)@.len() == old(entities)@.len(),
        forall|i: int|
            0 <= i < old(entities)@.len() ==> {
                &&& (#[trigger] final(entities)@[i]).pos == old(entities)@[i].pos
                &&& final(entities)@[i].base_offset == old(entities)@[i].base_offset
                &&& final(entities)@[i].depth_current()
            },
{
    let mut i: usize = 0;
    while i < entities.len()
        invariant
            i <= entities@.len(),
            entities@.len() == old(entities)@.len(),
            forall|j: int|
                i <= j < entities@.len() ==> (#[trigger] entities@[j]) == old(entities)@[j],
            forall|j: int|
                0 <= j < old(entities)@.len() ==> (#[trigger] old(
                    entities,
                )@[j]).depth_computable(),
            forall|j: int|
                0 <= j < i ==> {
                    &&& (#[trigger] entities@[j]).pos == old(entities)@[j].pos
                    &&& entities@[j].base_offset == old(entities)@[j].base_offset
                    &&& entities@[j].depth_current()
                },
        decreases entities@.len() - i,
    {
        let mut entity = entities[i];
        entity.refresh_depth();
        entities.set(i, entity);
        i = i + 1;
    }
}

/// Law: within one class, a higher world y gives a strictly lower depth, so
/// of two entities with the same base offset the higher one always draws
/// farther back.
pub proof fn lemma_depth_monotone_in_y(y1: int, y2: int, base_offset: int)
    requires
        y1 < y2,
    ensures
        spec_depth(y2, base_offset) < spec_depth(y1, base_offset),
{
}

/// Law: the depth sort is idempotent. Two runs over an entity whose position
/// and class did not change in between produce the identical facet: each run
/// only replaces the depth by the same pure function of the unchanged
/// position.
pub proof fn lemma_depth_sort_idempotent(once: DepthSorted, twice: DepthSorted)
    requires
        twice.pos == once.pos,
        twice.base_offset == once.base_offset,
        once.depth_current(),
        twice.depth_current(),
    ensures
        twice == once,
{
}

/// Law: class separation dominates y. As long as both y positions stay
/// within half a class unit of the origin, an entity of a strictly lower
/// class draws farther back than any entity of a higher class.
pub proof fn lemma_class_separation(y1: int, b1: int, y2: int, b2: int)
    requires
        b1 < b2,
        -(CLASS_UNIT as int) / 2 < y1 < CLASS_UNIT as int / 2,
        -(CLASS_UNIT as int) / 2 < y2 < CLASS_UNIT as int / 2,
    ensures
        spec_depth(y1, b1) < spec_depth(y2, b2),
{
    assert(b1 * CLASS_UNIT + CLASS_UNIT <= b2 * CLASS_UNIT) by (nonlinear_arith)
        requires
            b1 < b2,
    ;
}

} // verus!
