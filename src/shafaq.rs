//! The twilight colour that some authorities use to define Isha.
use vstd::prelude::*;

verus! {

#[derive(PartialEq, Eq, Structural, Debug, Copy, Clone)]
pub enum Shafaq {
    /// A blend of the red and white twilights.
    General,
    /// The red twilight.
    Ahmer,
    /// The white twilight.
    Abyad,
}

} // verus!
