//! Cardinal facing of an entity.

use vstd::prelude::*;

verus! {

/// The direction an entity is currently oriented toward.
///
/// Every entity that can face has exactly one of these values; characters
/// spawn facing [`Facing::Down`].
#[derive(Clone, Copy, Debug, PartialEq, Eq, Structural)]
pub enum Facing {
    Down,
    Left,
    Right,
    Up,
}

} // verus!
