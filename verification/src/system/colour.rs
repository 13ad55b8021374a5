//! The colour type used by the capability-style chat model.

use vstd::prelude::*;

verus! {

/// An RGB colour.
#[derive(PartialEq, Eq, Structural, Clone, Copy, Debug)]
pub enum Colour {
    Rgb(u8, u8, u8),
}

impl Colour {
    /// Plain black.
    pub fn black() -> (c: Colour)
        ensures
            c == (Colour::Rgb(0, 0, 0)),
    {
        Colour::Rgb(0, 0, 0)
    }
}

} // verus!
