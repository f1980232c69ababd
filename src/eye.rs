use vstd::prelude::*;

verus! {

/// One of the two views of a stereo display.
#[derive(Clone, Copy, Debug, PartialEq, Eq, Structural)]
pub enum Eye {
    Left,
    Right,
}

impl Eye {
    /// Position of the eye in per-eye arrays: 0 for the left eye, 1 for the right.
    pub open spec fn spec_index(self) -> nat {
        match self {
            Eye::Left => 0,
            Eye::Right => 1,
        }
    }

    pub fn index(self) -> (r: usize)
        ensures
            r as nat == self.spec_index(),
            r < 2,
    {
        match self {
            Eye::Left => 0,
            Eye::Right => 1,
        }
    }
}

} // verus!
