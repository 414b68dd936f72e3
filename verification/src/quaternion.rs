use vstd::prelude::*;

verus! {

/// A quaternion sample, components in wire order x, y, z, w. Each component
/// holds the IEEE 754 bit pattern of the little-endian 32-bit float read off
/// the wire.
#[derive(Debug, Clone, Copy, PartialEq, Eq, Structural)]
pub struct Quaternion {
    pub x: u32,
    pub y: u32,
    pub z: u32,
    pub w: u32,
}

impl Quaternion {
    /// Builds a quaternion from its four component bit patterns.
    pub fn new(values: (u32, u32, u32, u32)) -> (r: Self)
        ensures
            r == (Quaternion { x: values.0, y: values.1, z: values.2, w: values.3 }),
    {
        Quaternion { x: values.0, y: values.1, z: values.2, w: values.3 }
    }
}

} // verus!
