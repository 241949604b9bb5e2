//! A single grid cell: its liveness and the cosmetic display hint that
//! is attached to a cell when the simulation brings it to life.

use vstd::prelude::*;

verus! {

/// Lower bound (inclusive) of the red channel of a birth hint.
pub const HINT_RED_MIN: u8 = 133;
/// Upper bound (exclusive) of the red channel of a birth hint.
pub const HINT_RED_MAX: u8 = 250;
/// Lower bound (inclusive) of the green channel of a birth hint.
pub const HINT_GREEN_MIN: u8 = 211;
/// Upper bound (exclusive) of the green channel of a birth hint.
pub const HINT_GREEN_MAX: u8 = 250;
/// Lower bound (inclusive) of the blue channel of a birth hint.
pub const HINT_BLUE_MIN: u8 = 56;
/// Upper bound (exclusive) of the blue channel of a birth hint.
pub const HINT_BLUE_MAX: u8 = 110;

/// An opaque cosmetic payload attached to a cell at birth: a colour
/// triple, each channel scaled to a byte. The simulation rules never
/// read it; only a display driver does.
#[derive(Clone, Copy, Debug)]
pub struct Hint {
    pub red: u8,
    pub green: u8,
    pub blue: u8,
}

/// The hint palette the stepper samples from on a simulated birth.
pub open spec fn hint_in_palette(h: Hint) -> bool {
    &&& HINT_RED_MIN <= h.red < HINT_RED_MAX
    &&& HINT_GREEN_MIN <= h.green < HINT_GREEN_MAX
    &&& HINT_BLUE_MIN <= h.blue < HINT_BLUE_MAX
}

/// One grid cell: alive or dead, with an optional display hint.
#[derive(Clone, Copy, Debug)]
pub struct Cell {
    pub alive: bool,
    pub hint: Option<Hint>,
}

impl Cell {
    /// A dead cell never carries a display hint.
    pub open spec fn wf(self) -> bool {
        !self.alive ==> self.hint is None
    }

    /// A dead cell without a hint: the state every cell starts in.
    pub fn dead() -> (c: Cell)
        ensures
            c == (Cell { alive: false, hint: None::<Hint> }),
    {
        Cell { alive: false, hint: None }
    }
}

/// Relies on `rand::thread_rng` and `rand::Rng::gen_range`: samples a
/// value in the half-open range `lo..hi` (it panics on an empty range,
/// hence the precondition).
#[verifier::external_body]
fn sample_channel(lo: u8, hi: u8) -> (r: u8)
    requires
        lo < hi,
    ensures
        lo <= r < hi,
{
    rand::Rng::gen_range(&mut rand::thread_rng(), lo..hi)
}

/// A freshly sampled display hint for a cell born by the simulation.
/// Only the palette bounds are promised; the exact channels are the
/// one non-deterministic output of the crate.
pub fn fresh_hint() -> (h: Hint)
    ensures
        hint_in_palette(h),
{
    Hint {
        red: sample_channel(HINT_RED_MIN, HINT_RED_MAX),
        green: sample_channel(HINT_GREEN_MIN, HINT_GREEN_MAX),
        blue: sample_channel(HINT_BLUE_MIN, HINT_BLUE_MAX),
    }
}

} // verus!
