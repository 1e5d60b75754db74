use vstd::prelude::*;

pub mod geometry;
pub mod handle;
pub mod shape;
pub mod style;
pub mod transform;

use self::geometry::{Geometry, GeometryModel};
use self::style::{PrimitiveStyle, StyleModel};
use self::transform::Transform;

verus! {

/// A fully self-contained drawable unit.
/// Carries its own geometry, style, and transform.
#[derive(Debug, PartialEq)]
pub struct Primitive<N> {
    pub geometry: Geometry<N>,
    pub style: PrimitiveStyle<N>,
    pub transform: Transform<N>,
}

/// The mathematical value of a primitive: its strings taken by their characters.
pub struct PrimitiveModel<N> {
    pub geometry: GeometryModel<N>,
    pub style: StyleModel<N>,
    pub transform: Transform<N>,
}

impl<N> View for Primitive<N> {
    type V = PrimitiveModel<N>;

    open spec fn view(&self) -> PrimitiveModel<N> {
        PrimitiveModel { geometry: self.geometry@, style: self.style@, transform: self.transform }
    }
}

/// The model of a document: each primitive by its view.
pub open spec fn doc_model<N>(doc: Seq<Primitive<N>>) -> Seq<PrimitiveModel<N>> {
    doc.map_values(|p: Primitive<N>| p@)
}

impl<N: Copy> Primitive<N> {
    /// A primitive is empty when its geometry is an empty stroke.
    pub fn is_empty(&self) -> (r: bool)
        ensures
            r == self.geometry@.is_empty(),
    {
        self.geometry.is_empty()
    }

    /// A copy of this primitive with the same value.
    pub fn duplicate(&self) -> (r: Self)
        ensures
            r@ == self@,
    {
        Primitive {
            geometry: self.geometry.duplicate(),
            style: self.style.duplicate(),
            transform: self.transform,
        }
    }
}

impl<N: Copy> Clone for Primitive<N> {
    fn clone(&self) -> (r: Self)
        ensures
            r@ == self@,
    {
        self.duplicate()
    }
}

/// A copy of a whole document, primitive by primitive.
pub fn duplicate_doc<N: Copy>(doc: &Vec<Primitive<N>>) -> (r: Vec<Primitive<N>>)
    ensures
        doc_model(r@) == doc_model(doc@),
{
    let mut r: Vec<Primitive<N>> = Vec::new();
    let mut i: usize = 0;
    while i < doc.len()
        invariant
            i <= doc.len(),
            r@.len() == i,
            forall|j: int| 0 <= j < i ==> #[trigger] r@[j]@ == doc@[j]@,
        decreases doc.len() - i,
    {
        r.push(doc[i].duplicate());
        i += 1;
    }
    assert(doc_model(r@) =~= doc_model(doc@));
    r
}

} // verus!
