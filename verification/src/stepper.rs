//! The generation stepper: a stateless transform from one grid to the
//! next under Conway's rules on a non-wrapping grid. Off-grid
//! neighbours count as permanently dead, and every neighbour count is
//! taken from the pre-step grid only.

use vstd::prelude::*;

verus! {

use crate::cell::{fresh_hint, hint_in_palette, Cell};
use crate::grid::{lemma_flat_index_bounds, lemma_flat_index_order, Grid};

/// 1 if `(x, y)` is on the grid and alive, else 0. Off-grid
/// coordinates contribute nothing: the boundary behaves as dead.
pub open spec fn live_contrib(g: Grid, x: int, y: int) -> int {
    if g.in_bounds(x, y) && g.alive_at(x, y) {
        1
    } else {
        0
    }
}

/// Number of live cells among the in-bounds subset of the 8
/// neighbours of `(x, y)`.
pub open spec fn neighbor_count(g: Grid, x: int, y: int) -> int {
    live_contrib(g, x - 1, y - 1) + live_contrib(g, x - 1, y) + live_contrib(g, x - 1, y + 1)
        + live_contrib(g, x, y - 1) + live_contrib(g, x, y + 1) + live_contrib(g, x + 1, y - 1)
        + live_contrib(g, x + 1, y) + live_contrib(g, x + 1, y + 1)
}

/// Conway's rule for one cell, read off the pre-step grid: a live
/// cell survives with 2 or 3 live neighbours, a dead cell is born
/// with exactly 3.
pub open spec fn next_alive(g: Grid, x: int, y: int) -> bool {
    if g.alive_at(x, y) {
        2 <= neighbor_count(g, x, y) <= 3
    } else {
        neighbor_count(g, x, y) == 3
    }
}

/// What the stepper owes for the cell `c` it emits at `(x, y)`:
/// liveness follows the rule, a survivor keeps its hint, a simulated
/// birth carries a palette hint, and a dead cell carries none.
pub open spec fn step_cell_ok(g: Grid, c: Cell, x: int, y: int) -> bool {
    &&& c.alive == next_alive(g, x, y)
    &&& c.wf()
    &&& (g.alive_at(x, y) && c.alive ==> c.hint == g.hint_at(x, y))
    &&& (!g.alive_at(x, y) && c.alive ==> (c.hint matches Some(h) && hint_in_palette(h)))
}

/// The emitted sequence `s` holds a correct next-generation cell for
/// `(a, b)` at that coordinate's flat position.
pub open spec fn stored_ok(g: Grid, s: Seq<Cell>, a: int, b: int) -> bool {
    step_cell_ok(g, s[g.flat_index(a, b)], a, b)
}

/// How one generation step rewrites a grid: same dimensions, and
/// every cell follows Conway's rule read off the old grid.
pub open spec fn step_rel(g0: Grid, g1: Grid) -> bool {
    &&& g1.width == g0.width
    &&& g1.height == g0.height
    &&& forall|x: int, y: int|
        g0.in_bounds(x, y) ==> step_cell_ok(g0, #[trigger] g1.cell_at(x, y), x, y)
    &&& forall|x: int, y: int|
        g0.in_bounds(x, y) ==> (#[trigger] g1.alive_at(x, y)) == next_alive(g0, x, y)
}

/// Count the live cells among the in-bounds neighbours of `(x, y)`.
pub fn count_live_neighbors(g: &Grid, x: usize, y: usize) -> (n: u8)
    requires
        g.wf(),
        g.in_bounds(x as int, y as int),
    ensures
        n as int == neighbor_count(*g, x as int, y as int),
{
    let mut n: u8 = 0;
    if x > 0 && y > 0 && g.alive(x - 1, y - 1) {
        n = n + 1;
    }
    if x > 0 && g.alive(x - 1, y) {
        n = n + 1;
    }
    if x > 0 && y + 1 < g.height && g.alive(x - 1, y + 1) {
        n = n + 1;
    }
    if y > 0 && g.alive(x, y - 1) {
        n = n + 1;
    }
    if y + 1 < g.height && g.alive(x, y + 1) {
        n = n + 1;
    }
    if x + 1 < g.width && y > 0 && g.alive(x + 1, y - 1) {
        n = n + 1;
    }
    if x + 1 < g.width && g.alive(x + 1, y) {
        n = n + 1;
    }
    if x + 1 < g.width && y + 1 < g.height && g.alive(x + 1, y + 1) {
        n = n + 1;
    }
    n
}

/// The next-generation cell for `(x, y)`.
fn next_cell(g: &Grid, x: usize, y: usize) -> (c: Cell)
    requires
        g.wf(),
        g.in_bounds(x as int, y as int),
    ensures
        step_cell_ok(*g, c, x as int, y as int),
{
    let n = count_live_neighbors(g, x, y);
    if g.alive(x, y) {
        if n == 2 || n == 3 {
            Cell { alive: true, hint: g.hint(x, y) }
        } else {
            Cell { alive: false, hint: None }
        }
    } else {
        if n == 3 {
            Cell { alive: true, hint: Some(fresh_hint()) }
        } else {
            Cell { alive: false, hint: None }
        }
    }
}

/// Compute the next generation of `g`. The input is only read; the
/// result is a fresh grid of the same dimensions.
pub fn step(g: &Grid) -> (out: Grid)
    requires
        g.wf(),
    ensures
        out.wf(),
        step_rel(*g, out),
{
    let mut cells: Vec<Cell> = Vec::new();
    let mut x: usize = 0;
    while x < g.width
        invariant
            g.wf(),
            x <= g.width,
            cells@.len() == (x as int) * (g.height as int),
            forall|k: int| 0 <= k < cells@.len() ==> (#[trigger] cells@[k]).wf(),
            forall|a: int, b: int|
                g.in_bounds(a, b) && a < x as int ==> #[trigger] stored_ok(*g, cells@, a, b),
        decreases g.width - x,
    {
        let mut y: usize = 0;
        while y < g.height
            invariant
                g.wf(),
                x < g.width,
                y <= g.height,
                cells@.len() == (x as int) * (g.height as int) + y as int,
                forall|k: int| 0 <= k < cells@.len() ==> (#[trigger] cells@[k]).wf(),
                forall|a: int, b: int|
                    g.in_bounds(a, b) && (a < x as int || (a == x as int && b < y as int))
                        ==> #[trigger] stored_ok(*g, cells@, a, b),
            decreases g.height - y,
        {
            let c = next_cell(g, x, y);
            let ghost prev = cells@;
            cells.push(c);
            proof {
                assert forall|a: int, b: int|
                    g.in_bounds(a, b) && (a < x as int || (a == x as int && b < y as int
                        + 1)) implies #[trigger] stored_ok(*g, cells@, a, b) by {
                    lemma_flat_index_bounds(a, b, g.width as int, g.height as int);
                    if a < x as int || (a == x as int && b < y as int) {
                        lemma_flat_index_order(a, b, x as int, y as int, g.height as int);
                        assert(stored_ok(*g, prev, a, b));
                        assert(cells@[g.flat_index(a, b)] == prev[g.flat_index(a, b)]);
                    } else {
                        assert(g.flat_index(a, b) == prev.len());
                        assert(cells@[g.flat_index(a, b)] == c);
                    }
                }
            }
            y = y + 1;
        }
        proof {
            assert((x as int + 1) * (g.height as int) == (x as int) * (g.height as int) + (
            g.height as int)) by (nonlinear_arith);
        }
        x = x + 1;
    }
    let out = Grid { width: g.width, height: g.height, cells };
    proof {
        assert forall|a: int, b: int| g.in_bounds(a, b) implies step_cell_ok(
            *g,
            #[trigger] out.cell_at(a, b),
            a,
            b,
        ) by {
            assert(stored_ok(*g, out.cells@, a, b));
        }
    }
    out
}

} // verus!
