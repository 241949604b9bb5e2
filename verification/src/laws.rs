//! Proofs of the behaviour that relates several operations: bounds of
//! the neighbour count, underpopulation, the still life of a 2x2
//! block, the period-2 blinker, and the involution of a user toggle.

use vstd::prelude::*;

verus! {

use crate::grid::{toggle_rel, Grid};
use crate::stepper::{neighbor_count, next_alive};

/// A neighbour count is a sum of eight 0-or-1 contributions.
pub proof fn lemma_neighbor_count_range(g: Grid, x: int, y: int)
    ensures
        0 <= neighbor_count(g, x, y) <= 8,
{
}

/// A cell in a corner of the grid has at most 3 in-bounds neighbours,
/// so its neighbour count never exceeds 3: off-grid cells contribute
/// nothing.
pub proof fn lemma_corner_neighbor_bound(g: Grid, x: int, y: int)
    requires
        g.in_bounds(x, y),
        x == 0 || x == g.width as int - 1,
        y == 0 || y == g.height as int - 1,
    ensures
        neighbor_count(g, x, y) <= 3,
{
}

/// Underpopulation: in a grid whose only live cell is `(x, y)`, no
/// cell has two live neighbours, so after one step everything is
/// dead — in particular the lone cell itself.
pub proof fn lemma_lone_cell_dies(g: Grid, x: int, y: int)
    requires
        g.wf(),
        g.in_bounds(x, y),
        g.alive_at(x, y),
        forall|a: int, b: int|
            g.in_bounds(a, b) && (a != x || b != y) ==> !(#[trigger] g.alive_at(a, b)),
    ensures
        forall|a: int, b: int| g.in_bounds(a, b) ==> !(#[trigger] next_alive(g, a, b)),
{
    assert forall|a: int, b: int| g.in_bounds(a, b) implies !(#[trigger] next_alive(g, a, b)) by {
        assert(neighbor_count(g, a, b) <= 1);
    }
}

/// A 2x2 block of live cells on an otherwise dead grid is a still
/// life: each block cell has exactly 3 live neighbours and survives,
/// and no dead cell reaches the 3 live neighbours a birth needs, so
/// one step reproduces the same liveness — and hence so does any
/// number of steps.
pub proof fn lemma_block_stable(g: Grid, x: int, y: int)
    requires
        g.wf(),
        0 <= x,
        x + 1 < g.width as int,
        0 <= y,
        y + 1 < g.height as int,
        forall|a: int, b: int|
            g.in_bounds(a, b) ==> ((#[trigger] g.alive_at(a, b)) <==> (x <= a <= x + 1 && y <= b
                <= y + 1)),
    ensures
        forall|a: int, b: int|
            g.in_bounds(a, b) ==> ((#[trigger] next_alive(g, a, b)) <==> g.alive_at(a, b)),
{
    assert forall|a: int, b: int| g.in_bounds(a, b) implies ((#[trigger] next_alive(g, a, b))
        <==> g.alive_at(a, b)) by {
        if x <= a <= x + 1 && y <= b <= y + 1 {
            assert(neighbor_count(g, a, b) == 3);
        } else {
            assert(neighbor_count(g, a, b) <= 2);
        }
    }
}

/// A horizontal blinker `(x-1, y), (x, y), (x+1, y)`, away from the
/// boundary on an otherwise dead grid, becomes after one step the
/// vertical triple `(x, y-1), (x, y), (x, y+1)`.
pub proof fn lemma_blinker_horizontal_to_vertical(g: Grid, x: int, y: int)
    requires
        g.wf(),
        1 <= x,
        x + 1 < g.width as int,
        1 <= y,
        y + 1 < g.height as int,
        forall|a: int, b: int|
            g.in_bounds(a, b) ==> ((#[trigger] g.alive_at(a, b)) <==> (b == y && x - 1 <= a <= x
                + 1)),
    ensures
        forall|a: int, b: int|
            g.in_bounds(a, b) ==> ((#[trigger] next_alive(g, a, b)) <==> (a == x && y - 1 <= b <= y
                + 1)),
{
    assert forall|a: int, b: int| g.in_bounds(a, b) implies ((#[trigger] next_alive(g, a, b))
        <==> (a == x && y - 1 <= b <= y + 1)) by {
        if a == x && y - 1 <= b <= y + 1 {
            if b == y {
                assert(neighbor_count(g, a, b) == 2);
            } else {
                assert(neighbor_count(g, a, b) == 3);
            }
        } else {
            if a == x - 1 || a == x + 1 {
                assert(neighbor_count(g, a, b) <= 2);
            } else {
                assert(neighbor_count(g, a, b) <= 1);
            }
        }
    }
}

/// The second half of the blinker's period: a vertical triple
/// `(x, y-1), (x, y), (x, y+1)`, away from the boundary on an
/// otherwise dead grid, becomes after one step the original
/// horizontal triple `(x-1, y), (x, y), (x+1, y)`.
pub proof fn lemma_blinker_vertical_to_horizontal(g: Grid, x: int, y: int)
    requires
        g.wf(),
        1 <= x,
        x + 1 < g.width as int,
        1 <= y,
        y + 1 < g.height as int,
        forall|a: int, b: int|
            g.in_bounds(a, b) ==> ((#[trigger] g.alive_at(a, b)) <==> (a == x && y - 1 <= b <= y
                + 1)),
    ensures
        forall|a: int, b: int|
            g.in_bounds(a, b) ==> ((#[trigger] next_alive(g, a, b)) <==> (b == y && x - 1 <= a <= x
                + 1)),
{
    assert forall|a: int, b: int| g.in_bounds(a, b) implies ((#[trigger] next_alive(g, a, b))
        <==> (b == y && x - 1 <= a <= x + 1)) by {
        if b == y && x - 1 <= a <= x + 1 {
            if a == x {
                assert(neighbor_count(g, a, b) == 2);
            } else {
                assert(neighbor_count(g, a, b) == 3);
            }
        } else {
            if b == y - 1 || b == y + 1 {
                assert(neighbor_count(g, a, b) <= 2);
            } else {
                assert(neighbor_count(g, a, b) <= 1);
            }
        }
    }
}

/// Toggling the same in-bounds coordinate twice, with nothing in
/// between, restores the prior liveness everywhere, leaves every
/// other cell exactly as it was, and leaves the toggled cell without
/// a hint — just as the first transition to dead would.
pub proof fn lemma_toggle_twice(g0: Grid, g1: Grid, g2: Grid, x: int, y: int)
    requires
        g0.wf(),
        g0.in_bounds(x, y),
        toggle_rel(g0, g1, x, y),
        toggle_rel(g1, g2, x, y),
    ensures
        forall|a: int, b: int|
            g0.in_bounds(a, b) ==> (#[trigger] g2.alive_at(a, b)) == g0.alive_at(a, b),
        g2.hint_at(x, y) is None,
        forall|a: int, b: int|
            g0.in_bounds(a, b) && (a != x || b != y) ==> #[trigger] g2.cell_at(a, b) == g0.cell_at(
                a,
                b,
            ),
{
    assert forall|a: int, b: int|
        g0.in_bounds(a, b) && (a != x || b != y) implies #[trigger] g2.cell_at(a, b)
        == g0.cell_at(a, b) by {
        assert(g1.cell_at(a, b) == g0.cell_at(a, b));
        assert(g2.cell_at(a, b) == g1.cell_at(a, b));
    }
    assert forall|a: int, b: int| g0.in_bounds(a, b) implies (#[trigger] g2.alive_at(a, b))
        == g0.alive_at(a, b) by {
        if a != x || b != y {
            assert(g2.cell_at(a, b) == g0.cell_at(a, b));
        }
    }
}

} // verus!
