use vstd::prelude::*;

verus! {

/// A coloured point of a mesh that lies on the integer lattice.
///
/// `loc` holds the x, y and z coordinates. `color` holds the red, green, blue
/// and alpha channels in tenths, so `[5, 9, 5, 10]` is half red, nine tenths
/// green, half blue and fully opaque.
#[allow(non_camel_case_types)]
#[derive(Clone, Copy, Debug, PartialEq, Eq)]
pub struct mVertex {
    pub loc: [i64; 3],
    pub color: [u8; 4],
}

impl mVertex {
    /// Makes the vertex at `loc` with the colour `color`.
    pub fn new(loc: [i64; 3], color: [u8; 4]) -> (v: mVertex)
        ensures
            v.loc == loc,
            v.color == color,
    {
        mVertex { loc, color }
    }
}

} // verus!
