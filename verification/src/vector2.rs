use vstd::prelude::*;

verus! {

/// A two-component vector sample. Each component holds the IEEE 754 bit
/// pattern of the little-endian 32-bit float read off the wire; the decoder
/// never does float arithmetic, so the bits are carried as plain values.
#[derive(Debug, Clone, Copy, PartialEq, Eq, Structural)]
pub struct Vector2 {
    pub x: u32,
    pub y: u32,
}

impl Vector2 {
    /// Builds a vector from its two component bit patterns.
    pub fn new(values: (u32, u32)) -> (r: Self)
        ensures
            r == (Vector2 { x: values.0, y: values.1 }),
    {
        Vector2 { x: values.0, y: values.1 }
    }
}

} // verus!
