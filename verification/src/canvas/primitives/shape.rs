use vstd::prelude::*;

verus! {

/// The kind of geometric shape drawn by the shape tool.
#[derive(Clone, Copy, Debug, PartialEq, Eq, Structural)]
pub enum ShapeKind {
    Line,
    Arrow,
    Rect,
    Oval,
}

/// Transient in-progress shape being drawn: the point where the drag began
/// and the point the pointer is at now.
#[derive(Copy, Debug)]
pub struct ShapeInProgress<N> {
    pub kind: ShapeKind,
    pub anchor: (N, N),
    pub current: (N, N),
}

impl<N: Copy> ShapeInProgress<N> {
    /// A shape of `kind` that starts and ends at `anchor`.
    pub fn new(kind: ShapeKind, anchor: (N, N)) -> (r: Self)
        ensures
            r.kind == kind,
            r.anchor == anchor,
            r.current == anchor,
    {
        ShapeInProgress { kind, anchor, current: anchor }
    }
}

impl<N: Copy> Clone for ShapeInProgress<N> {
    fn clone(&self) -> (r: Self)
        ensures
            r.kind == self.kind,
            r.anchor == self.anchor,
            r.current == self.current,
    {
        ShapeInProgress { kind: self.kind, anchor: self.anchor, current: self.current }
    }
}

} // verus!
