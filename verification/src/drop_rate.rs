//! The drop simulator: lossy links as a probability in fixed point.
//!
//! A drop rate is a number of parts out of [`DROP_RATE_SCALE`]. A fragment
//! is dropped when a number drawn uniformly below the scale is below the
//! rate, so a rate of 0 never drops and a rate of the full scale always does.

use vstd::prelude::*;
use rand::Rng;

verus! {

/// The number of parts that stands for probability 1.
pub const DROP_RATE_SCALE: u32 = 1_000_000;

/// The probability that a link loses a fragment.
#[derive(Clone, Copy, Debug, PartialEq, Eq)]
pub struct DropRate {
    parts: u32,
}

impl View for DropRate {
    type V = nat;

    /// The rate in parts of [`DROP_RATE_SCALE`].
    closed spec fn view(&self) -> nat {
        self.parts as nat
    }
}

impl DropRate {
    #[verifier::type_invariant]
    spec fn in_range(self) -> bool {
        self.parts <= DROP_RATE_SCALE
    }

    /// Whether a fragment is dropped at this rate when the draw is `draw`.
    pub open spec fn drops(self, draw: u32) -> bool {
        draw < self@
    }

    /// The rate of `parts` out of [`DROP_RATE_SCALE`], or `None` when that
    /// is more than probability 1.
    pub fn new(parts: u32) -> (rate: Option<DropRate>)
        ensures
            match rate {
                Some(rate) => parts <= DROP_RATE_SCALE && rate@ == parts,
                None => parts > DROP_RATE_SCALE,
            },
    {
        if parts <= DROP_RATE_SCALE {
            Some(DropRate { parts })
        } else {
            None
        }
    }

    /// The rate of a link that loses nothing.
    pub fn never() -> (rate: DropRate)
        ensures
            rate@ == 0,
    {
        DropRate { parts: 0 }
    }

    /// The rate of a link that loses everything.
    pub fn always() -> (rate: DropRate)
        ensures
            rate@ == DROP_RATE_SCALE,
    {
        DropRate { parts: DROP_RATE_SCALE }
    }

    /// The rate in parts of [`DROP_RATE_SCALE`].
    pub fn parts(&self) -> (parts: u32)
        ensures
            parts == self@,
            parts <= DROP_RATE_SCALE,
    {
        proof {
            use_type_invariant(self);
        }
        self.parts
    }

    /// Whether a fragment is dropped at this rate when the draw is `draw`.
    pub fn is_dropped(&self, draw: u32) -> (dropped: bool)
        ensures
            dropped == self.drops(draw),
    {
        draw < self.parts
    }
}

/// A number below `bound` from the random generator of the running thread.
///
/// Not proved: this is `rand::Rng::gen_range` on `rand::thread_rng()` with
/// the range from 0 up to and excluding `bound`. The contract claims that the
/// number lies in that range, and keeps away the empty range, on which
/// `gen_range` panics. Which number comes is left open, and so is how the
/// numbers are spread. `thread_rng` gives up when the system cannot seed it,
/// which no argument can prevent.
#[verifier::external_body]
fn draw_below(bound: u32) -> (draw: u32)
    requires
        bound > 0,
    ensures
        draw < bound,
{
    rand::thread_rng().gen_range(0..bound)
}

/// Draws the number that decides the fate of one fragment.
pub fn draw() -> (draw: u32)
    ensures
        draw < DROP_RATE_SCALE,
{
    draw_below(DROP_RATE_SCALE)
}

} // verus!
