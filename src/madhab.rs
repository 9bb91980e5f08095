//! The legal school, which sets the shadow length that starts Asr.
use vstd::prelude::*;

verus! {

#[derive(PartialEq, Eq, Structural, Debug, Copy, Clone)]
pub enum Madhab {
    /// Asr starts when an object's shadow equals its length plus its noon shadow.
    Shafi,
    /// Asr starts when an object's shadow is twice its length plus its noon shadow.
    Hanafi,
}

impl Madhab {
    pub open spec fn shadow_ratio(self) -> int {
        match self {
            Madhab::Shafi => 1,
            Madhab::Hanafi => 2,
        }
    }

    /// The shadow length ratio: 1 for Shafi, 2 for Hanafi.
    pub fn shadow(&self) -> (r: i32)
        ensures
            r == self.shadow_ratio(),
    {
        match self {
            Madhab::Shafi => 1,
            Madhab::Hanafi => 2,
        }
    }
}

} // verus!
