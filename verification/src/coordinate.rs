//! Grid coordinates.

use vstd::prelude::*;

verus! {

/// A cell of the stage grid. `x` grows to the right and `y` grows downwards;
/// the top-left cell of a stage is `(0, 0)`.
#[derive(Copy, Clone, Debug, PartialEq, Eq, Structural)]
pub struct StageCoordinate {
    pub x: i32,
    pub y: i32,
}

/// The coordinate of an actor that has not been placed on a stage yet. It lies
/// far outside every stage.
pub open spec fn hidden_coordinate() -> StageCoordinate {
    StageCoordinate { x: 1000, y: 1000 }
}

/// The top-left cell.
pub open spec fn origin() -> StageCoordinate {
    StageCoordinate { x: 0, y: 0 }
}

impl StageCoordinate {
    pub fn new(x: i32, y: i32) -> (c: Self)
        ensures
            c.x == x,
            c.y == y,
    {
        Self { x, y }
    }

    pub fn equals(&self, other: &StageCoordinate) -> (same: bool)
        ensures
            same == (*self == *other),
    {
        self.x == other.x && self.y == other.y
    }

    /// The coordinate that stands for "not placed".
    pub fn hidden() -> (c: Self)
        ensures
            c == hidden_coordinate(),
    {
        Self { x: 1000, y: 1000 }
    }
}

} // verus!
