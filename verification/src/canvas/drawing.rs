use vstd::prelude::*;

use crate::canvas::primitives::shape::ShapeInProgress;

verus! {

/// What the user is currently drawing. Cleared on pointer-up.
#[derive(Debug)]
pub enum ActiveDrawing<N> {
    /// A freehand stroke: the points so far.
    Stroke(Vec<(N, N)>),
    /// A shape being dragged out.
    Shape(ShapeInProgress<N>),
}

} // verus!
