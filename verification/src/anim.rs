//! The timing logic behind the cosmetic animations: the repeating timers
//! that pace the entity's wing frames and the blinking launch prompt, and
//! the frame cycling they drive. What a fired timer does on screen (swap a
//! sprite frame, toggle the prompt's visibility) belongs to the rendering
//! layer; deciding when it fires and which frame comes next is simulation
//! arithmetic and is verified here.

use vstd::prelude::*;

verus! {

/// A repeating timer with a fixed period, in centiseconds.
#[derive(Clone, Copy, PartialEq, Eq, Structural, Debug)]
pub struct AnimTimer {
    pub period: u64,
    pub elapsed: u64,
}

impl AnimTimer {
    /// Well-formedness: a positive period, with the accumulated time
    /// strictly inside it.
    pub open spec fn wf(self) -> bool {
        0 < self.period && self.elapsed < self.period
    }

    /// A fresh timer with the given period.
    pub fn new(period: u64) -> (t: AnimTimer)
        requires
            period > 0,
        ensures
            t.period == period,
            t.elapsed == 0,
            t.wf(),
    {
        AnimTimer { period, elapsed: 0 }
    }

    /// Advances the timer by `dt` centiseconds: reports whether it
    /// completed its period during this step and keeps the remainder.
    pub fn advance(&mut self, dt: u64) -> (fired: bool)
        requires
            old(self).wf(),
            dt <= u64::MAX - old(self).period,
        ensures
            fired == (old(self).elapsed + dt >= old(self).period),
            final(self).period == old(self).period,
            final(self).elapsed == (old(self).elapsed + dt) % (old(self).period as int),
            final(self).wf(),
    {
        let total = self.elapsed + dt;
        let fired = total >= self.period;
        self.elapsed = total % self.period;
        fired
    }
}

/// The next frame of a cycling animation over the atlas indices
/// `first..=last`: one step forward, wrapping from the last back to the
/// first.
pub open spec fn next_frame_spec(index: int, first: int, last: int) -> int {
    if index == last {
        first
    } else {
        index + 1
    }
}

/// Advances a cycling animation by one frame.
pub fn next_frame(index: usize, first: usize, last: usize) -> (r: usize)
    requires
        first <= index <= last,
    ensures
        r == next_frame_spec(index as int, first as int, last as int),
        first <= r <= last,
{
    if index == last {
        first
    } else {
        index + 1
    }
}

} // verus!
