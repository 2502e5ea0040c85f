use vstd::prelude::*;
use crate::direction::Direction;
use crate::grid::AntError;
use crate::grid::Grid;
use crate::state::State;

verus! {

/// What the renderer should draw on the cell the agent just entered.
#[derive(Copy, Clone, Debug, PartialEq, Eq, Structural)]
pub enum RenderHint {
    /// A White cell was entered and the path is hidden.
    Blank,
    /// A White cell was entered and the path is shown.
    Shaded,
    /// A Black cell was entered; always drawn filled.
    Filled,
}

/// The result of one tick of the automaton.
#[derive(Copy, Clone, Debug, PartialEq, Eq)]
pub enum StepOutcome {
    /// The agent moved onto `painted_cell`, which now stores `painted_color`;
    /// `hint` says what to draw there.
    Continued { painted_cell: (u16, u16), painted_color: State, hint: RenderHint },
    /// The candidate position lay outside the grid; nothing was changed.
    LeftGrid,
}

/// The automaton: one grid, one agent, and the classic two-color rule.
pub struct Automaton {
    grid: Grid,
    x: u16,
    y: u16,
    heading: Direction,
    show_path: bool,
}

impl Automaton {
    pub closed spec fn spec_x(&self) -> int {
        self.x as int
    }

    pub closed spec fn spec_y(&self) -> int {
        self.y as int
    }

    pub closed spec fn spec_heading(&self) -> Direction {
        self.heading
    }

    pub closed spec fn spec_show_path(&self) -> bool {
        self.show_path
    }

    pub closed spec fn spec_width(&self) -> int {
        self.grid.spec_width()
    }

    pub closed spec fn spec_height(&self) -> int {
        self.grid.spec_height()
    }

    /// The color currently stored at `(x, y)`.
    pub closed spec fn cell(&self, x: int, y: int) -> State {
        self.grid.at(x, y)
    }

    pub open spec fn in_bounds(&self, x: int, y: int) -> bool {
        0 <= x < self.spec_width() && 0 <= y < self.spec_height()
    }

    /// Every automaton the library hands out satisfies this: a well-formed
    /// grid and an agent position inside it.
    pub closed spec fn wf(&self) -> bool {
        &&& self.grid.wf()
        &&& self.in_bounds(self.spec_x(), self.spec_y())
    }

    /// The candidate position one offset ahead of the agent.
    pub open spec fn next_x(&self) -> int {
        self.spec_x() + self.spec_heading().spec_dx()
    }

    pub open spec fn next_y(&self) -> int {
        self.spec_y() + self.spec_heading().spec_dy()
    }

    pub open spec fn next_in_bounds(&self) -> bool {
        self.in_bounds(self.next_x(), self.next_y())
    }

    /// The heading after entering a cell of color `c`: a White cell turns the
    /// agent left, a Black cell turns it right.
    pub open spec fn turned(c: State, h: Direction) -> Direction {
        match c {
            State::White => h.spec_rotate_left(),
            State::Black => h.spec_rotate_right(),
        }
    }

    /// The rendering hint attached to entering a cell of color `c`.
    pub open spec fn hint_for(c: State, show_path: bool) -> RenderHint {
        match c {
            State::White => if show_path {
                RenderHint::Shaded
            } else {
                RenderHint::Blank
            },
            State::Black => RenderHint::Filled,
        }
    }

    /// The outcome one tick returns, as a function of the current state.
    pub open spec fn outcome_spec(&self) -> StepOutcome {
        if self.next_in_bounds() {
            StepOutcome::Continued {
                painted_cell: (self.next_x() as u16, self.next_y() as u16),
                painted_color: self.cell(self.next_x(), self.next_y()).spec_toggle(),
                hint: Self::hint_for(
                    self.cell(self.next_x(), self.next_y()),
                    self.spec_show_path(),
                ),
            }
        } else {
            StepOutcome::LeftGrid
        }
    }

    /// The agent's x coordinate after one tick.
    pub open spec fn x_after(&self) -> int {
        if self.next_in_bounds() {
            self.next_x()
        } else {
            self.spec_x()
        }
    }

    /// The agent's y coordinate after one tick.
    pub open spec fn y_after(&self) -> int {
        if self.next_in_bounds() {
            self.next_y()
        } else {
            self.spec_y()
        }
    }

    /// The agent's heading after one tick.
    pub open spec fn heading_after(&self) -> Direction {
        if self.next_in_bounds() {
            Self::turned(self.cell(self.next_x(), self.next_y()), self.spec_heading())
        } else {
            self.spec_heading()
        }
    }

    /// The color stored at `(x, y)` after one tick: only the entered cell
    /// changes, and it changes to its toggle.
    pub open spec fn cell_after(&self, x: int, y: int) -> State {
        if self.next_in_bounds() && x == self.next_x() && y == self.next_y() {
            self.cell(x, y).spec_toggle()
        } else {
            self.cell(x, y)
        }
    }

    /// Builds an automaton over a fresh all-Black grid, rejecting a zero
    /// dimension and a start position outside the grid.
    pub fn new(
        width: u16,
        height: u16,
        start_position: (u16, u16),
        start_heading: Direction,
        show_path: bool,
    ) -> (r: Result<Automaton, AntError>)
        ensures
            (width == 0 || height == 0) ==> r == Err::<Automaton, AntError>(
                AntError::InvalidDimensions,
            ),
            (width >= 1 && height >= 1 && (start_position.0 >= width || start_position.1
                >= height)) ==> r == Err::<Automaton, AntError>(AntError::OutOfBounds),
            (width >= 1 && height >= 1 && start_position.0 < width && start_position.1 < height)
                ==> (r matches Ok(a) && a.wf() && a.spec_width() == width && a.spec_height()
                == height && a.spec_x() == start_position.0 && a.spec_y() == start_position.1
                && a.spec_heading() == start_heading && a.spec_show_path() == show_path && (
            forall|x: int, y: int| a.in_bounds(x, y) ==> a.cell(x, y) == State::Black)),
    {
        if width == 0 || height == 0 {
            Err(AntError::InvalidDimensions)
        } else if start_position.0 >= width || start_position.1 >= height {
            Err(AntError::OutOfBounds)
        } else {
            Ok(
                Automaton {
                    grid: Grid::new(width, height),
                    x: start_position.0,
                    y: start_position.1,
                    heading: start_heading,
                    show_path,
                },
            )
        }
    }

    /// Advances the simulation by one tick.
    ///
    /// The candidate position is the agent's position plus the heading's
    /// offset. If it lies outside the grid, nothing changes and `LeftGrid`
    /// is returned. Otherwise the agent commits the move, the entered cell's
    /// current color decides the turn, and that cell is toggled.
    pub fn step(&mut self) -> (r: StepOutcome)
        requires
            old(self).wf(),
        ensures
            final(self).wf(),
            r == old(self).outcome_spec(),
            final(self).spec_width() == old(self).spec_width(),
            final(self).spec_height() == old(self).spec_height(),
            final(self).spec_show_path() == old(self).spec_show_path(),
            final(self).spec_x() == old(self).x_after(),
            final(self).spec_y() == old(self).y_after(),
            final(self).spec_heading() == old(self).heading_after(),
            forall|x: int, y: int|
                old(self).in_bounds(x, y) ==> final(self).cell(x, y) == old(self).cell_after(
                    x,
                    y,
                ),
    {
        let (dx, dy) = self.heading.offset();
        let nx_wide: i32 = self.x as i32 + dx as i32;
        let ny_wide: i32 = self.y as i32 + dy as i32;
        if nx_wide < 0 || ny_wide < 0 || nx_wide >= self.grid.width() as i32 || ny_wide
            >= self.grid.height() as i32 {
            return StepOutcome::LeftGrid;
        }
        let nx: u16 = nx_wide as u16;
        let ny: u16 = ny_wide as u16;
        self.x = nx;
        self.y = ny;
        let current = match self.grid.get(nx, ny) {
            Ok(c) => c,
            // The candidate was just checked to be in bounds.
            Err(_) => vstd::pervasive::unreached(),
        };
        let hint: RenderHint = match current {
            State::White => {
                self.heading = self.heading.rotate_left();
                if self.show_path {
                    RenderHint::Shaded
                } else {
                    RenderHint::Blank
                }
            },
            State::Black => {
                self.heading = self.heading.rotate_right();
                RenderHint::Filled
            },
        };
        let painted = current.toggle();
        match self.grid.set(nx, ny, painted) {
            Ok(_) => {},
            // The candidate was just checked to be in bounds.
            Err(_) => vstd::pervasive::unreached(),
        };
        StepOutcome::Continued { painted_cell: (nx, ny), painted_color: painted, hint }
    }

    /// The agent's current position.
    pub fn agent_position(&self) -> (r: (u16, u16))
        ensures
            r.0 as int == self.spec_x(),
            r.1 as int == self.spec_y(),
    {
        (self.x, self.y)
    }

    /// The agent's current heading.
    pub fn agent_heading(&self) -> (r: Direction)
        ensures
            r == self.spec_heading(),
    {
        self.heading
    }

    /// Reads an arbitrary cell, rejecting out-of-range coordinates.
    pub fn cell_at(&self, x: u16, y: u16) -> (r: Result<State, AntError>)
        requires
            self.wf(),
        ensures
            self.in_bounds(x as int, y as int) ==> r == Ok::<State, AntError>(
                self.cell(x as int, y as int),
            ),
            !self.in_bounds(x as int, y as int) ==> r == Err::<State, AntError>(
                AntError::OutOfBounds,
            ),
    {
        self.grid.get(x, y)
    }

    pub fn width(&self) -> (r: u16)
        ensures
            r as int == self.spec_width(),
    {
        self.grid.width()
    }

    pub fn height(&self) -> (r: u16)
        ensures
            r as int == self.spec_height(),
    {
        self.grid.height()
    }

    pub fn show_path(&self) -> (r: bool)
        ensures
            r == self.spec_show_path(),
    {
        self.show_path
    }
}

/// Two automatons agree on every observable: dimensions, every cell, agent
/// position, heading and the path flag.
pub open spec fn observably_equal(a: Automaton, b: Automaton) -> bool {
    &&& a.spec_width() == b.spec_width()
    &&& a.spec_height() == b.spec_height()
    &&& a.spec_x() == b.spec_x()
    &&& a.spec_y() == b.spec_y()
    &&& a.spec_heading() == b.spec_heading()
    &&& a.spec_show_path() == b.spec_show_path()
    &&& forall|x: int, y: int| a.in_bounds(x, y) ==> a.cell(x, y) == b.cell(x, y)
}

/// Law: the automaton is deterministic. Two automatons that agree on every
/// observable return the same outcome from a tick and agree on every
/// observable again afterwards, so equal construction parameters and equal
/// step counts always yield equal grids and agent states.
pub proof fn lemma_step_deterministic(a: Automaton, b: Automaton)
    requires
        a.wf(),
        b.wf(),
        observably_equal(a, b),
    ensures
        a.outcome_spec() == b.outcome_spec(),
        a.x_after() == b.x_after(),
        a.y_after() == b.y_after(),
        a.heading_after() == b.heading_after(),
        forall|x: int, y: int| a.in_bounds(x, y) ==> a.cell_after(x, y) == b.cell_after(x, y),
{
}

/// Law: on a one-by-one grid the first tick ends the run, whatever the
/// heading: every unit displacement leaves the single cell, so the outcome is
/// `LeftGrid` and the agent's state is left untouched.
pub proof fn lemma_unit_grid_terminates(a: Automaton)
    requires
        a.wf(),
        a.spec_width() == 1,
        a.spec_height() == 1,
    ensures
        a.outcome_spec() == StepOutcome::LeftGrid,
        a.x_after() == a.spec_x(),
        a.y_after() == a.spec_y(),
        a.heading_after() == a.spec_heading(),
{
}

/// Law: a revisit is never rejected. Whenever the candidate cell is in
/// bounds the tick continues, whatever color the cell holds and however often
/// it was visited; the rule reads the cell's currently stored color.
pub proof fn lemma_revisit_accepted(a: Automaton)
    requires
        a.wf(),
        a.next_in_bounds(),
    ensures
        a.outcome_spec() == (StepOutcome::Continued {
            painted_cell: (a.next_x() as u16, a.next_y() as u16),
            painted_color: a.cell(a.next_x(), a.next_y()).spec_toggle(),
            hint: Automaton::hint_for(a.cell(a.next_x(), a.next_y()), a.spec_show_path()),
        }),
        a.cell_after(a.next_x(), a.next_y()) == a.cell(a.next_x(), a.next_y()).spec_toggle(),
{
}

} // verus!
