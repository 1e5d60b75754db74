use vstd::prelude::*;

verus! {

/// Per-primitive spatial transform.
/// Currently only translation is operationally used;
/// rotation and scale are stored for future use.
#[derive(Copy, Debug, PartialEq)]
pub struct Transform<N> {
    /// Translation in world units.
    pub position: (N, N),
    /// Rotation in radians (counter-clockwise). Not yet applied.
    pub rotation: N,
    /// Uniform scale factor. Not yet applied.
    pub scale: N,
}

impl<N: Copy> Clone for Transform<N> {
    fn clone(&self) -> (r: Self)
        ensures
            r.position == self.position,
            r.rotation == self.rotation,
            r.scale == self.scale,
    {
        Transform { position: self.position, rotation: self.rotation, scale: self.scale }
    }
}

} // verus!
