//! Compass directions on the tile grid.
use vstd::prelude::*;

verus! {

#[derive(Clone, Copy, Debug, PartialEq, Eq, Structural)]
pub enum Direction {
    North,
    East,
    South,
    West,
}

impl Direction {
    /// Horizontal grid step of one move in this direction.
    pub open spec fn spec_dx(self) -> i32 {
        match self {
            Direction::North => 0i32,
            Direction::East => 1i32,
            Direction::South => 0i32,
            Direction::West => -1i32,
        }
    }

    /// Vertical grid step of one move in this direction; the y axis points south.
    pub open spec fn spec_dy(self) -> i32 {
        match self {
            Direction::North => -1i32,
            Direction::East => 0i32,
            Direction::South => 1i32,
            Direction::West => 0i32,
        }
    }

    /// The direction that points the opposite way.
    pub open spec fn spec_reverse(self) -> Direction {
        match self {
            Direction::North => Direction::South,
            Direction::East => Direction::West,
            Direction::South => Direction::North,
            Direction::West => Direction::East,
        }
    }

    #[verifier::when_used_as_spec(spec_dx)]
    pub fn dx(self) -> (d: i32)
        ensures
            d == self.spec_dx(),
    {
        match self {
            Direction::North => 0,
            Direction::East => 1,
            Direction::South => 0,
            Direction::West => -1,
        }
    }

    #[verifier::when_used_as_spec(spec_dy)]
    pub fn dy(self) -> (d: i32)
        ensures
            d == self.spec_dy(),
    {
        match self {
            Direction::North => -1,
            Direction::East => 0,
            Direction::South => 1,
            Direction::West => 0,
        }
    }

    #[verifier::when_used_as_spec(spec_reverse)]
    pub fn reverse(self) -> (r: Direction)
        ensures
            r == self.spec_reverse(),
    {
        match self {
            Direction::North => Direction::South,
            Direction::East => Direction::West,
            Direction::South => Direction::North,
            Direction::West => Direction::East,
        }
    }

    /// Position of this direction in the order north, east, south, west.
    pub fn index(self) -> (i: usize)
        ensures
            i == self.spec_index(),
    {
        match self {
            Direction::North => 0,
            Direction::East => 1,
            Direction::South => 2,
            Direction::West => 3,
        }
    }

    pub open spec fn spec_index(self) -> int {
        match self {
            Direction::North => 0,
            Direction::East => 1,
            Direction::South => 2,
            Direction::West => 3,
        }
    }
}

/// Reversing twice gives the direction back, and a direction and its reverse
/// step in exactly opposite ways along both axes.
pub proof fn lemma_reverse_is_involution(d: Direction)
    ensures
        d.reverse().reverse() == d,
        d.reverse().dx() == -d.dx(),
        d.reverse().dy() == -d.dy(),
        d.reverse() != d,
{
}

/// Every direction moves exactly one tile along exactly one axis.
pub proof fn lemma_unit_step(d: Direction)
    ensures
        d.dx() * d.dx() + d.dy() * d.dy() == 1,
{
    match d {
        Direction::North => {},
        Direction::East => {},
        Direction::South => {},
        Direction::West => {},
    }
}

} // verus!
