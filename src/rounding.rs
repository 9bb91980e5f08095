//! How a calculation authority presents its times.
use vstd::prelude::*;

verus! {

#[derive(PartialEq, Eq, Structural, Debug, Copy, Clone)]
pub enum Rounding {
    /// Times are rounded to the nearest minute.
    Nearest,
    /// Times are rounded up to the next minute.
    Up,
    /// Times are kept to the second.
    Unrounded,
}

} // verus!
