//! The six axis-aligned face orientations and their fixed bit order.

use vstd::prelude::*;

verus! {

/// One of the six cube face orientations. The order Up, Down, Left,
/// Right, Front, Back is load-bearing: it fixes both the visibility
/// mask's bit positions and the concatenation order of the face lists.
#[allow(non_camel_case_types)]
#[derive(Debug, Clone, Copy, PartialEq, Eq, Structural)]
pub enum Direction {
    UP,
    DOWN,
    LEFT,
    RIGHT,
    FRONT,
    BACK,
}

impl Direction {
    /// The direction's fixed position: Up=0, Down=1, Left=2, Right=3,
    /// Front=4, Back=5. This is both its visibility-mask bit and its
    /// slot in every per-direction table.
    pub open spec fn index_spec(self) -> int {
        match self {
            Direction::UP => 0,
            Direction::DOWN => 1,
            Direction::LEFT => 2,
            Direction::RIGHT => 3,
            Direction::FRONT => 4,
            Direction::BACK => 5,
        }
    }

    /// The human-readable name of the direction.
    pub open spec fn name_spec(self) -> Seq<char> {
        match self {
            Direction::UP => "Up"@,
            Direction::DOWN => "Down"@,
            Direction::LEFT => "Left"@,
            Direction::RIGHT => "Right"@,
            Direction::FRONT => "Front"@,
            Direction::BACK => "Back"@,
        }
    }

    /// Returns the direction's display name, used to label the GPU
    /// buffers built for it.
    pub fn name(&self) -> (r: &str)
        ensures
            r@ == self.name_spec(),
    {
        match self {
            Direction::UP => "Up",
            Direction::DOWN => "Down",
            Direction::LEFT => "Left",
            Direction::RIGHT => "Right",
            Direction::FRONT => "Front",
            Direction::BACK => "Back",
        }
    }

    /// Returns the direction's fixed table slot and mask bit.
    pub fn index(&self) -> (i: usize)
        ensures
            i == self.index_spec(),
    {
        match self {
            Direction::UP => 0,
            Direction::DOWN => 1,
            Direction::LEFT => 2,
            Direction::RIGHT => 3,
            Direction::FRONT => 4,
            Direction::BACK => 5,
        }
    }
}

} // verus!
