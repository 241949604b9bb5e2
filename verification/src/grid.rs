//! The grid data model: a fixed-size two-dimensional field of cells,
//! addressed by `(x, y)` with `0 <= x < width`, `0 <= y < height` and
//! stored column-major in a flat vector at index `x * height + y`.

use vstd::prelude::*;

verus! {

use crate::cell::{Cell, Hint};

/// Why a grid operation was refused.
#[derive(Clone, Copy, Debug, PartialEq, Eq, Structural)]
pub enum GridError {
    /// A grid was requested with a zero width or height.
    InvalidDimensions,
    /// A coordinate outside `[0, width) x [0, height)` was passed to a
    /// coordinate-taking operation.
    OutOfBounds,
}

/// The flat position of `(x, y)` lies inside a `w * h` cell vector.
pub proof fn lemma_flat_index_bounds(x: int, y: int, w: int, h: int)
    by (nonlinear_arith)
    requires
        0 <= x < w,
        0 <= y < h,
    ensures
        0 <= x * h + y < w * h,
{
}

/// Distinct coordinates have distinct flat positions.
pub proof fn lemma_flat_index_distinct(x1: int, y1: int, x2: int, y2: int, h: int)
    by (nonlinear_arith)
    requires
        0 <= x1,
        0 <= x2,
        0 <= y1 < h,
        0 <= y2 < h,
        x1 != x2 || y1 != y2,
    ensures
        x1 * h + y1 != x2 * h + y2,
{
}

/// Flat positions grow with the column-major traversal order.
pub proof fn lemma_flat_index_order(a: int, b: int, x: int, y: int, h: int)
    by (nonlinear_arith)
    requires
        0 <= a,
        0 <= x,
        0 <= b < h,
        0 <= y <= h,
        a < x || (a == x && b < y),
    ensures
        a * h + b < x * h + y,
{
}

/// A fixed-size liveness grid. The dimensions never change after
/// construction.
#[derive(Debug)]
pub struct Grid {
    pub width: usize,
    pub height: usize,
    pub cells: Vec<Cell>,
}

impl Grid {
    /// `(x, y)` addresses a cell of this grid.
    pub open spec fn in_bounds(self, x: int, y: int) -> bool {
        0 <= x && x < self.width as int && 0 <= y && y < self.height as int
    }

    /// Position of `(x, y)` in the flat cell vector.
    pub open spec fn flat_index(self, x: int, y: int) -> int {
        x * (self.height as int) + y
    }

    /// Well-formedness: positive dimensions, one cell per coordinate,
    /// and every cell well-formed (dead cells carry no hint).
    pub open spec fn wf(self) -> bool {
        &&& self.width > 0
        &&& self.height > 0
        &&& self.cells@.len() == (self.width as int) * (self.height as int)
        &&& forall|i: int| 0 <= i < self.cells@.len() ==> (#[trigger] self.cells@[i]).wf()
    }

    /// The cell stored at `(x, y)`.
    pub open spec fn cell_at(self, x: int, y: int) -> Cell {
        self.cells@[self.flat_index(x, y)]
    }

    /// Liveness of the cell at `(x, y)`.
    pub open spec fn alive_at(self, x: int, y: int) -> bool {
        self.cell_at(x, y).alive
    }

    /// Display hint of the cell at `(x, y)`.
    pub open spec fn hint_at(self, x: int, y: int) -> Option<Hint> {
        self.cell_at(x, y).hint
    }

    /// Every cell of the grid is dead.
    pub open spec fn all_dead(self) -> bool {
        forall|x: int, y: int| self.in_bounds(x, y) ==> !(#[trigger] self.alive_at(x, y))
    }
}

/// How one user toggle at in-bounds `(x, y)` rewrites a grid: liveness
/// flips there, the hint there is cleared (a manual birth gets no
/// hint), and every other cell is untouched.
pub open spec fn toggle_rel(g0: Grid, g1: Grid, x: int, y: int) -> bool {
    &&& g1.width == g0.width
    &&& g1.height == g0.height
    &&& g1.cells@.len() == g0.cells@.len()
    &&& g1.alive_at(x, y) == !g0.alive_at(x, y)
    &&& g1.hint_at(x, y) is None
    &&& forall|a: int, b: int|
        g0.in_bounds(a, b) && (a != x || b != y) ==> #[trigger] g1.cell_at(a, b) == g0.cell_at(
            a,
            b,
        )
}

/// A vector of `width * height` dead cells.
fn make_dead_cells(width: usize, height: usize) -> (cells: Vec<Cell>)
    requires
        (width as int) * (height as int) <= usize::MAX,
    ensures
        cells@.len() == (width as int) * (height as int),
        forall|i: int|
            0 <= i < cells@.len() ==> #[trigger] cells@[i] == (Cell {
                alive: false,
                hint: None::<Hint>,
            }),
{
    let total: usize = width * height;
    let mut cells: Vec<Cell> = Vec::new();
    let mut i: usize = 0;
    while i < total
        invariant
            i <= total,
            cells@.len() == i as int,
            forall|j: int|
                0 <= j < cells@.len() ==> #[trigger] cells@[j] == (Cell {
                    alive: false,
                    hint: None::<Hint>,
                }),
        decreases total - i,
    {
        cells.push(Cell::dead());
        i = i + 1;
    }
    cells
}

impl Grid {
    /// An all-dead grid, or `InvalidDimensions` exactly when a
    /// dimension is zero. The size bound is a machine limit: the flat
    /// cell vector must be addressable.
    pub fn new(width: usize, height: usize) -> (r: Result<Grid, GridError>)
        requires
            (width as int) * (height as int) <= usize::MAX,
        ensures
            r is Ok <==> (width > 0 && height > 0),
            match r {
                Ok(g) => g.wf() && g.width == width && g.height == height && g.all_dead(),
                Err(e) => e == GridError::InvalidDimensions && (width == 0 || height == 0),
            },
    {
        if width == 0 || height == 0 {
            return Err(GridError::InvalidDimensions);
        }
        let cells = make_dead_cells(width, height);
        let g = Grid { width, height, cells };
        proof {
            assert forall|x: int, y: int| g.in_bounds(x, y) implies !(#[trigger] g.alive_at(
                x,
                y,
            )) by {
                lemma_flat_index_bounds(x, y, width as int, height as int);
            }
        }
        Ok(g)
    }

    /// Flat position of in-bounds `(x, y)`, shown to lie in the cell
    /// vector.
    fn flat(&self, x: usize, y: usize) -> (i: usize)
        requires
            self.wf(),
            self.in_bounds(x as int, y as int),
        ensures
            i as int == self.flat_index(x as int, y as int),
            i < self.cells@.len(),
    {
        proof {
            lemma_flat_index_bounds(x as int, y as int, self.width as int, self.height as int);
            // the cell vector itself witnesses that width * height fits in usize
            assert(self.cells.len() <= usize::MAX);
        }
        x * self.height + y
    }

    /// Liveness at in-bounds `(x, y)`.
    pub fn alive(&self, x: usize, y: usize) -> (b: bool)
        requires
            self.wf(),
            self.in_bounds(x as int, y as int),
        ensures
            b == self.alive_at(x as int, y as int),
    {
        let i = self.flat(x, y);
        self.cells[i].alive
    }

    /// Display hint at in-bounds `(x, y)`.
    pub fn hint(&self, x: usize, y: usize) -> (h: Option<Hint>)
        requires
            self.wf(),
            self.in_bounds(x as int, y as int),
        ensures
            h == self.hint_at(x as int, y as int),
    {
        let i = self.flat(x, y);
        self.cells[i].hint
    }

    /// Flip liveness at in-bounds `(x, y)` and clear the hint there;
    /// every other cell is untouched.
    pub fn toggle(&mut self, x: usize, y: usize)
        requires
            old(self).wf(),
            old(self).in_bounds(x as int, y as int),
        ensures
            final(self).wf(),
            toggle_rel(*old(self), *final(self), x as int, y as int),
    {
        let i = self.flat(x, y);
        let was: bool = self.cells[i].alive;
        self.cells.set(i, Cell { alive: !was, hint: None });
        proof {
            lemma_flat_index_bounds(x as int, y as int, self.width as int, self.height as int);
            assert forall|a: int, b: int|
                old(self).in_bounds(a, b) && (a != x as int || b != y as int) implies #[trigger] self.cell_at(
                a,
                b,
            ) == old(self).cell_at(a, b) by {
                lemma_flat_index_bounds(a, b, self.width as int, self.height as int);
                lemma_flat_index_distinct(a, b, x as int, y as int, self.height as int);
            }
        }
    }

    /// Kill every cell, keeping the dimensions.
    pub fn clear(&mut self)
        requires
            old(self).wf(),
        ensures
            final(self).wf(),
            final(self).width == old(self).width,
            final(self).height == old(self).height,
            final(self).all_dead(),
    {
        proof {
            // the cell vector itself witnesses that width * height fits in usize
            assert(self.cells.len() <= usize::MAX);
        }
        self.cells = make_dead_cells(self.width, self.height);
        proof {
            assert forall|x: int, y: int| self.in_bounds(x, y) implies !(#[trigger] self.alive_at(
                x,
                y,
            )) by {
                lemma_flat_index_bounds(x, y, self.width as int, self.height as int);
            }
        }
    }
}

} // verus!
