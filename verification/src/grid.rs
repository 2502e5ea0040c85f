use vstd::prelude::*;
use crate::state::State;

verus! {

/// Ways a request to the library can be rejected.
#[derive(Copy, Clone, Debug, PartialEq, Eq, Structural)]
pub enum AntError {
    /// A grid dimension was zero.
    InvalidDimensions,
    /// A coordinate lay outside the grid.
    OutOfBounds,
}

/// A rectangular field of cells with dimensions fixed at construction.
///
/// Cells are stored in one flat buffer, row after row: the cell at `(x, y)`
/// sits at index `y * width + x`.
pub struct Grid {
    width: u16,
    height: u16,
    cells: Vec<State>,
}

impl Grid {
    pub closed spec fn spec_width(&self) -> int {
        self.width as int
    }

    pub closed spec fn spec_height(&self) -> int {
        self.height as int
    }

    /// Every grid the library hands out satisfies this: positive dimensions
    /// and a buffer holding exactly one cell per coordinate.
    pub closed spec fn wf(&self) -> bool {
        &&& self.width >= 1
        &&& self.height >= 1
        &&& self.cells.len() == self.spec_width() * self.spec_height()
    }

    /// The color stored at `(x, y)`.
    pub closed spec fn at(&self, x: int, y: int) -> State {
        self.cells[y * self.spec_width() + x]
    }

    pub open spec fn in_bounds(&self, x: int, y: int) -> bool {
        0 <= x < self.spec_width() && 0 <= y < self.spec_height()
    }

    /// Builds a `width` by `height` grid with every cell Black.
    pub fn new(width: u16, height: u16) -> (g: Grid)
        requires
            width >= 1,
            height >= 1,
        ensures
            g.wf(),
            g.spec_width() == width,
            g.spec_height() == height,
            forall|x: int, y: int| g.in_bounds(x, y) ==> g.at(x, y) == State::Black,
    {
        proof {
            lemma_area_fits(width as int, height as int);
        }
        let n: usize = (width as usize) * (height as usize);
        let mut cells: Vec<State> = Vec::new();
        let mut i: usize = 0;
        while i < n
            invariant
                i <= n,
                cells.len() == i,
                forall|j: int| 0 <= j < i ==> cells[j] == State::Black,
            decreases n - i,
        {
            cells.push(State::Black);
            i = i + 1;
        }
        let g = Grid { width, height, cells };
        proof {
            assert forall|x: int, y: int| g.in_bounds(x, y) implies g.at(x, y) == State::Black by {
                lemma_flat_index(width as int, height as int, x, y);
            }
        }
        g
    }

    pub fn width(&self) -> (r: u16)
        ensures
            r as int == self.spec_width(),
    {
        self.width
    }

    pub fn height(&self) -> (r: u16)
        ensures
            r as int == self.spec_height(),
    {
        self.height
    }

    /// Reads the cell at `(x, y)`, rejecting out-of-range coordinates.
    pub fn get(&self, x: u16, y: u16) -> (r: Result<State, AntError>)
        requires
            self.wf(),
        ensures
            self.in_bounds(x as int, y as int) ==> r == Ok::<State, AntError>(
                self.at(x as int, y as int),
            ),
            !self.in_bounds(x as int, y as int) ==> r == Err::<State, AntError>(
                AntError::OutOfBounds,
            ),
    {
        if x < self.width && y < self.height {
            proof {
                lemma_flat_index(self.spec_width(), self.spec_height(), x as int, y as int);
            }
            let idx: usize = (y as usize) * (self.width as usize) + (x as usize);
            Ok(self.cells[idx])
        } else {
            Err(AntError::OutOfBounds)
        }
    }

    /// Overwrites the cell at `(x, y)`, rejecting out-of-range coordinates.
    /// Every other cell keeps its color.
    pub fn set(&mut self, x: u16, y: u16, color: State) -> (r: Result<(), AntError>)
        requires
            old(self).wf(),
        ensures
            final(self).wf(),
            final(self).spec_width() == old(self).spec_width(),
            final(self).spec_height() == old(self).spec_height(),
            old(self).in_bounds(x as int, y as int) ==> {
                &&& r == Ok::<(), AntError>(())
                &&& final(self).at(x as int, y as int) == color
                &&& forall|i: int, j: int|
                    old(self).in_bounds(i, j) && !(i == x as int && j == y as int)
                        ==> final(self).at(i, j) == old(self).at(i, j)
            },
            !old(self).in_bounds(x as int, y as int) ==> {
                &&& r == Err::<(), AntError>(AntError::OutOfBounds)
                &&& forall|i: int, j: int|
                    old(self).in_bounds(i, j) ==> final(self).at(i, j) == old(self).at(i, j)
            },
    {
        if x < self.width && y < self.height {
            proof {
                lemma_flat_index(self.spec_width(), self.spec_height(), x as int, y as int);
            }
            let idx: usize = (y as usize) * (self.width as usize) + (x as usize);
            self.cells.set(idx, color);
            proof {
                assert forall|i: int, j: int|
                    old(self).in_bounds(i, j) && !(i == x as int && j == y as int)
                        implies final(self).at(i, j) == old(self).at(i, j) by {
                    lemma_flat_index(self.spec_width(), self.spec_height(), i, j);
                    lemma_flat_index_injective(
                        self.spec_width(), self.spec_height(), x as int, y as int, i, j,
                    );
                }
            }
            Ok(())
        } else {
            Err(AntError::OutOfBounds)
        }
    }
}

/// The area of a grid with `u16` dimensions fits in the cell buffer's index type.
proof fn lemma_area_fits(w: int, h: int)
    requires
        0 <= w <= u16::MAX,
        0 <= h <= u16::MAX,
    ensures
        w * h <= u16::MAX * u16::MAX,
{
    assert(w * h <= u16::MAX * u16::MAX) by (nonlinear_arith)
        requires
            0 <= w <= u16::MAX,
            0 <= h <= u16::MAX,
    ;
}

/// A coordinate pair inside a `w` by `h` rectangle maps to a flat index
/// inside the buffer.
proof fn lemma_flat_index(w: int, h: int, x: int, y: int)
    requires
        0 <= x < w,
        0 <= y < h,
    ensures
        0 <= y * w + x < w * h,
{
    assert(0 <= y * w + x < w * h) by (nonlinear_arith)
        requires
            0 <= x < w,
            0 <= y < h,
    ;
}

/// Distinct in-bounds coordinate pairs map to distinct flat indices.
proof fn lemma_flat_index_injective(w: int, h: int, x1: int, y1: int, x2: int, y2: int)
    requires
        0 <= x1 < w,
        0 <= y1 < h,
        0 <= x2 < w,
        0 <= y2 < h,
        !(x1 == x2 && y1 == y2),
    ensures
        y1 * w + x1 != y2 * w + x2,
{
    assert(y1 * w + x1 != y2 * w + x2) by (nonlinear_arith)
        requires
            0 <= x1 < w,
            0 <= y1 < h,
            0 <= x2 < w,
            0 <= y2 < h,
            !(x1 == x2 && y1 == y2),
    ;
}

} // verus!
