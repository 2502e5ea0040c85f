use vstd::prelude::*;

verus! {

/// The four cardinal headings the agent can travel in.
#[derive(Copy, Clone, Debug, PartialEq, Eq, Structural)]
pub enum Direction {
    Up,
    Down,
    Left,
    Right,
}

impl Direction {
    /// One quarter turn counter-clockwise: Up -> Left -> Down -> Right -> Up.
    pub open spec fn spec_rotate_left(self) -> Direction {
        match self {
            Direction::Up => Direction::Left,
            Direction::Left => Direction::Down,
            Direction::Down => Direction::Right,
            Direction::Right => Direction::Up,
        }
    }

    /// One quarter turn clockwise: Up -> Right -> Down -> Left -> Up.
    pub open spec fn spec_rotate_right(self) -> Direction {
        match self {
            Direction::Up => Direction::Right,
            Direction::Right => Direction::Down,
            Direction::Down => Direction::Left,
            Direction::Left => Direction::Up,
        }
    }

    pub fn rotate_left(self) -> (r: Direction)
        ensures
            r == self.spec_rotate_left(),
    {
        match self {
            Direction::Up => Direction::Left,
            Direction::Left => Direction::Down,
            Direction::Down => Direction::Right,
            Direction::Right => Direction::Up,
        }
    }

    pub fn rotate_right(self) -> (r: Direction)
        ensures
            r == self.spec_rotate_right(),
    {
        match self {
            Direction::Up => Direction::Right,
            Direction::Right => Direction::Down,
            Direction::Down => Direction::Left,
            Direction::Left => Direction::Up,
        }
    }

    /// Displacement along the x axis that one step in this heading adds.
    pub open spec fn spec_dx(self) -> int {
        match self {
            Direction::Left => 1,
            Direction::Right => -1,
            _ => 0,
        }
    }

    /// Displacement along the y axis that one step in this heading adds.
    pub open spec fn spec_dy(self) -> int {
        match self {
            Direction::Up => 1,
            Direction::Down => -1,
            _ => 0,
        }
    }

    /// The unit displacement `(dx, dy)` paired with this heading.
    pub fn offset(&self) -> (r: (i8, i8))
        ensures
            r.0 as int == self.spec_dx(),
            r.1 as int == self.spec_dy(),
    {
        match *self {
            Direction::Up => (0, 1),
            Direction::Down => (0, -1),
            Direction::Left => (1, 0),
            Direction::Right => (-1, 0),
        }
    }
}

/// Law: each rotation is a four-cycle, and the two rotations invert each other.
pub proof fn lemma_rotation_cycles(h: Direction)
    ensures
        h.spec_rotate_left().spec_rotate_left().spec_rotate_left().spec_rotate_left() == h,
        h.spec_rotate_right().spec_rotate_right().spec_rotate_right().spec_rotate_right() == h,
        h.spec_rotate_left().spec_rotate_right() == h,
        h.spec_rotate_right().spec_rotate_left() == h,
{
}

/// Law: the four headings' displacements sum to zero component-wise.
pub proof fn lemma_offsets_cancel()
    ensures
        Direction::Up.spec_dx() + Direction::Down.spec_dx() + Direction::Left.spec_dx()
            + Direction::Right.spec_dx() == 0,
        Direction::Up.spec_dy() + Direction::Down.spec_dy() + Direction::Left.spec_dy()
            + Direction::Right.spec_dy() == 0,
{
}

} // verus!
