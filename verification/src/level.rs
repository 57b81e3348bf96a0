use vstd::prelude::*;

verus! {

/// Electrical level of an output line, decoupled from any device's logical
/// on/off intent: a relay may be wired so that either level energizes it.
#[derive(Clone, Copy, PartialEq, Eq, Structural, Debug)]
pub enum Level {
    High,
    Low,
}

impl Level {
    /// The opposite electrical level.
    pub open spec fn flip_spec(self) -> Level {
        match self {
            Level::High => Level::Low,
            Level::Low => Level::High,
        }
    }

    #[verifier::when_used_as_spec(flip_spec)]
    pub fn flip(self) -> (r: Level)
        ensures
            r == self.flip_spec(),
    {
        match self {
            Level::High => Level::Low,
            Level::Low => Level::High,
        }
    }
}

} // verus!
