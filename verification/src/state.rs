use vstd::prelude::*;

verus! {

/// The binary color of a cell: every cell is either White or Black.
#[derive(Copy, Clone, Debug, PartialEq, Eq, Structural)]
pub enum State {
    White,
    Black,
}

impl State {
    /// The opposite color.
    pub open spec fn spec_toggle(self) -> State {
        match self {
            State::White => State::Black,
            State::Black => State::White,
        }
    }

    pub fn toggle(self) -> (r: State)
        ensures
            r == self.spec_toggle(),
    {
        match self {
            State::White => State::Black,
            State::Black => State::White,
        }
    }
}

/// Law: toggling a color twice gives the color back.
pub proof fn lemma_toggle_involution(c: State)
    ensures
        c.spec_toggle().spec_toggle() == c,
{
}

} // verus!
