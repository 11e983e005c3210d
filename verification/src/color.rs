use vstd::prelude::*;

verus! {

/// An 8-bit-per-channel RGB color.
#[derive(Debug, Clone, Copy, PartialEq, Eq, Structural)]
pub struct Rgb(pub u8, pub u8, pub u8);

impl Rgb {
    /// Pure black.
    pub fn black() -> (r: Rgb)
        ensures
            r == Rgb(0, 0, 0),
    {
        Rgb(0, 0, 0)
    }
}

} // verus!
