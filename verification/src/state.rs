//! The simulation state: the single source of truth for the grid, the
//! run/pause flag, and the generation counter, behind a small event
//! surface (toggle, play/pause, reset, tick) plus read-only queries
//! for a display driver.

use vstd::prelude::*;

verus! {

use crate::cell::Hint;
use crate::grid::{toggle_rel, Grid, GridError};
use crate::stepper;
use crate::stepper::step_rel;

/// The authoritative simulation state. A display driver mutates it
/// only through the event methods and mirrors it through the queries.
#[derive(Debug)]
pub struct GridState {
    pub grid: Grid,
    pub running: bool,
    pub generation: u64,
}

impl GridState {
    /// Well-formedness of the owned grid.
    pub open spec fn wf(self) -> bool {
        self.grid.wf()
    }

    /// `(x, y)` addresses a cell of the grid.
    pub open spec fn in_bounds(self, x: int, y: int) -> bool {
        self.grid.in_bounds(x, y)
    }

    /// Liveness at `(x, y)`.
    pub open spec fn alive_at(self, x: int, y: int) -> bool {
        self.grid.alive_at(x, y)
    }

    /// Display hint at `(x, y)`.
    pub open spec fn hint_at(self, x: int, y: int) -> Option<Hint> {
        self.grid.hint_at(x, y)
    }

    /// A paused, all-dead state at generation 0, or
    /// `InvalidDimensions` exactly when a dimension is zero. The size
    /// bound is a machine limit: one cell per coordinate must fit in
    /// a vector.
    pub fn new(width: usize, height: usize) -> (r: Result<GridState, GridError>)
        requires
            (width as int) * (height as int) <= usize::MAX,
        ensures
            r is Ok <==> (width > 0 && height > 0),
            match r {
                Ok(s) => s.wf() && s.grid.width == width && s.grid.height == height
                    && s.grid.all_dead() && s.running == false && s.generation == 0,
                Err(e) => e == GridError::InvalidDimensions && (width == 0 || height == 0),
            },
    {
        match Grid::new(width, height) {
            Ok(grid) => Ok(GridState { grid, running: false, generation: 0 }),
            Err(e) => Err(e),
        }
    }

    /// Grid width, fixed at construction.
    pub fn width(&self) -> (w: usize)
        ensures
            w == self.grid.width,
    {
        self.grid.width
    }

    /// Grid height, fixed at construction.
    pub fn height(&self) -> (h: usize)
        ensures
            h == self.grid.height,
    {
        self.grid.height
    }

    /// Whether ticks currently advance the simulation.
    pub fn is_running(&self) -> (b: bool)
        ensures
            b == self.running,
    {
        self.running
    }

    /// Number of generation steps applied since construction or the
    /// last reset.
    pub fn generation(&self) -> (g: u64)
        ensures
            g == self.generation,
    {
        self.generation
    }

    /// Liveness query for the display driver. An off-grid coordinate
    /// reads as dead, matching the boundary rule of the stepper.
    pub fn is_alive(&self, x: usize, y: usize) -> (b: bool)
        requires
            self.wf(),
        ensures
            b == (self.in_bounds(x as int, y as int) && self.alive_at(x as int, y as int)),
    {
        if x < self.grid.width && y < self.grid.height {
            self.grid.alive(x, y)
        } else {
            false
        }
    }

    /// Display-hint query for the display driver. An off-grid or
    /// dead or manually toggled cell has none.
    pub fn display_hint(&self, x: usize, y: usize) -> (h: Option<Hint>)
        requires
            self.wf(),
        ensures
            self.in_bounds(x as int, y as int) ==> h == self.hint_at(x as int, y as int),
            !self.in_bounds(x as int, y as int) ==> h is None,
    {
        if x < self.grid.width && y < self.grid.height {
            self.grid.hint(x, y)
        } else {
            None
        }
    }

    /// Flip liveness at `(x, y)` and clear the hint there; a cell made
    /// alive by hand carries no hint. Out-of-range coordinates report
    /// `OutOfBounds` and leave the state untouched; the run flag and
    /// the generation counter never change.
    pub fn toggle_cell(&mut self, x: usize, y: usize) -> (r: Result<(), GridError>)
        requires
            old(self).wf(),
        ensures
            final(self).wf(),
            final(self).running == old(self).running,
            final(self).generation == old(self).generation,
            final(self).grid.width == old(self).grid.width,
            final(self).grid.height == old(self).grid.height,
            old(self).in_bounds(x as int, y as int) ==> r is Ok && toggle_rel(
                old(self).grid,
                final(self).grid,
                x as int,
                y as int,
            ),
            !old(self).in_bounds(x as int, y as int) ==> r == Err::<(), GridError>(
                GridError::OutOfBounds,
            ) && *final(self) == *old(self),
    {
        if x < self.grid.width && y < self.grid.height {
            self.grid.toggle(x, y);
            Ok(())
        } else {
            Err(GridError::OutOfBounds)
        }
    }

    /// Set the run flag directly (used by drivers and by reset).
    pub fn set_running(&mut self, running: bool)
        ensures
            final(self).grid == old(self).grid,
            final(self).generation == old(self).generation,
            final(self).running == running,
    {
        self.running = running;
    }

    /// Flip the run flag (the play/pause event).
    pub fn toggle_running(&mut self)
        ensures
            final(self).grid == old(self).grid,
            final(self).generation == old(self).generation,
            final(self).running == !old(self).running,
    {
        self.running = !self.running;
    }

    /// Clear the grid to all-dead, pause, and restart the generation
    /// counter, whatever the prior state; the dimensions stay.
    pub fn reset(&mut self)
        requires
            old(self).wf(),
        ensures
            final(self).wf(),
            final(self).grid.width == old(self).grid.width,
            final(self).grid.height == old(self).grid.height,
            final(self).grid.all_dead(),
            final(self).running == false,
            final(self).generation == 0,
    {
        self.grid.clear();
        self.running = false;
        self.generation = 0;
    }

    /// Advance one tick. While paused this is a no-op; while running
    /// the grid is replaced by its next generation in one step and
    /// the generation counter grows by one. Returns the (possibly
    /// unchanged) generation. The counter bound is a machine limit.
    pub fn tick(&mut self) -> (gen: u64)
        requires
            old(self).wf(),
            old(self).running ==> old(self).generation < u64::MAX,
        ensures
            final(self).wf(),
            gen == final(self).generation,
            final(self).running == old(self).running,
            final(self).grid.width == old(self).grid.width,
            final(self).grid.height == old(self).grid.height,
            !old(self).running ==> *final(self) == *old(self),
            old(self).running ==> final(self).generation == old(self).generation + 1 && step_rel(
                old(self).grid,
                final(self).grid,
            ),
    {
        if self.running {
            self.grid = stepper::step(&self.grid);
            self.generation = self.generation + 1;
        }
        self.generation
    }
}

} // verus!
