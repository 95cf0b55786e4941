use vstd::prelude::*;

verus! {

/// One LED pixel: three 8-bit channels, each in 0..=255.
#[derive(Clone, Copy, Debug, PartialEq, Eq, Structural)]
pub struct RGB8 {
    pub r: u8,
    pub g: u8,
    pub b: u8,
}

impl RGB8 {
    /// The all-black pixel the output buffer starts from.
    pub fn black() -> (c: RGB8)
        ensures
            c == (RGB8 { r: 0, g: 0, b: 0 }),
    {
        RGB8 { r: 0, g: 0, b: 0 }
    }
}

} // verus!
