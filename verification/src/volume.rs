//! The loudness of a sound channel.

use vstd::prelude::*;

verus! {

/// The percentage that stands for full loudness.
pub const FULL_PERCENT: u8 = 100;

/// A loudness between silence and full, held as a whole percentage.
/// Its view is that percentage.
#[derive(Clone, Copy, Debug, PartialEq, Eq, Structural)]
pub struct Volume {
    percent: u8,
}

impl View for Volume {
    type V = nat;

    closed spec fn view(&self) -> nat {
        self.percent as nat
    }
}

impl Volume {
    #[verifier::type_invariant]
    spec fn in_range(self) -> bool {
        self.percent <= FULL_PERCENT
    }

    /// The loudness of `percent` percent; anything above full is full.
    pub fn new(percent: u8) -> (r: Volume)
        ensures
            r@ == if percent <= 100 { percent as nat } else { 100 },
    {
        if percent <= FULL_PERCENT {
            Volume { percent }
        } else {
            Volume { percent: FULL_PERCENT }
        }
    }

    /// Full loudness.
    pub fn full() -> (r: Volume)
        ensures
            r@ == 100,
    {
        Volume { percent: FULL_PERCENT }
    }

    /// The loudness as a percentage, never above 100.
    pub fn percent(&self) -> (r: u8)
        ensures
            r == self@,
            r <= 100,
    {
        proof {
            use_type_invariant(self);
        }
        self.percent
    }
}

} // verus!
