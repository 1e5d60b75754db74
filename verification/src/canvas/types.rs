use vstd::prelude::*;

verus! {

/// The current viewport transform: where the world origin sits on screen
/// and the zoom level.
#[derive(Copy, Debug, PartialEq)]
pub struct ViewTransform<N> {
    pub offset_x: N,
    pub offset_y: N,
    pub zoom: N,
}

impl<N: Copy> Clone for ViewTransform<N> {
    fn clone(&self) -> (r: Self)
        ensures
            r == *self,
    {
        ViewTransform { offset_x: self.offset_x, offset_y: self.offset_y, zoom: self.zoom }
    }
}

} // verus!
