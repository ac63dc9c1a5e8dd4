//! The rotation control of the touchscreen interface.
use vstd::prelude::*;

verus! {

/// The orientations the picture cycles through, in the order of the rotate button.
#[derive(Clone, Copy, Debug, PartialEq, Eq, Structural)]
pub enum Rotation {
    /// As captured.
    Identity,
    /// A quarter turn clockwise.
    Clockwise90,
    /// A half turn.
    Rotate180,
    /// A quarter turn counter-clockwise.
    Counterclockwise90,
}

/// The number of orientations in the cycle.
pub const ROTATION_COUNT: usize = 4;

/// The orientation at position `index` of the cycle.
pub open spec fn rotation_at(index: nat) -> Rotation {
    if index == 0 {
        Rotation::Identity
    } else if index == 1 {
        Rotation::Clockwise90
    } else if index == 2 {
        Rotation::Rotate180
    } else {
        Rotation::Counterclockwise90
    }
}

/// The position after one press of the rotate button.
pub open spec fn next_rotation_index(index: nat) -> nat {
    (index + 1) % (ROTATION_COUNT as nat)
}

/// The orientation at position `index` of the cycle.
pub fn rotation_for(index: usize) -> (res: Rotation)
    requires
        index < ROTATION_COUNT,
    ensures
        res == rotation_at(index as nat),
{
    if index == 0 {
        Rotation::Identity
    } else if index == 1 {
        Rotation::Clockwise90
    } else if index == 2 {
        Rotation::Rotate180
    } else {
        Rotation::Counterclockwise90
    }
}

/// One press of the rotate button: moves `rotation_index` to the next position of the cycle
/// and returns the orientation to apply there.
pub fn rotate_video(rotation_index: &mut usize) -> (rotation: Rotation)
    requires
        *old(rotation_index) < usize::MAX,
    ensures
        *final(rotation_index) == next_rotation_index(*old(rotation_index) as nat),
        rotation == rotation_at(*final(rotation_index) as nat),
{
    let next = (*rotation_index + 1) % ROTATION_COUNT;
    *rotation_index = next;
    rotation_for(next)
}

/// Every press leaves the position inside the cycle.
pub proof fn law_rotation_index_in_cycle(index: nat)
    ensures
        next_rotation_index(index) < ROTATION_COUNT,
{
}

/// The rotate button steps through the four orientations in order, and four presses bring
/// the picture back to where it was.
pub proof fn law_four_presses_return(index: nat)
    requires
        index < ROTATION_COUNT,
    ensures
        rotation_at(next_rotation_index(0)) == Rotation::Clockwise90,
        rotation_at(next_rotation_index(1)) == Rotation::Rotate180,
        rotation_at(next_rotation_index(2)) == Rotation::Counterclockwise90,
        rotation_at(next_rotation_index(3)) == Rotation::Identity,
        next_rotation_index(
            next_rotation_index(next_rotation_index(next_rotation_index(index))),
        ) == index,
{
}

} // verus!
