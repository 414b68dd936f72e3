use vstd::prelude::*;

verus! {

/// A three-component vector sample. Each component holds the IEEE 754 bit
/// pattern of the little-endian 32-bit float read off the wire.
#[derive(Debug, Clone, Copy, PartialEq, Eq, Structural)]
pub struct Vector3 {
    pub x: u32,
    pub y: u32,
    pub z: u32,
}

impl Vector3 {
    /// Builds a vector from its three component bit patterns.
    pub fn new(values: (u32, u32, u32)) -> (r: Self)
        ensures
            r == (Vector3 { x: values.0, y: values.1, z: values.2 }),
    {
        Vector3 { x: values.0, y: values.1, z: values.2 }
    }
}

} // verus!
