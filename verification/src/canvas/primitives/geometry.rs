use vstd::prelude::*;

verus! {

/// The pure geometric description of a primitive — no style, no transform.
/// Coordinates are points `(x, y)` of the scalar type `N`.
#[derive(Debug, PartialEq)]
pub enum Geometry<N> {
    /// Freehand polyline.
    Stroke(Vec<(N, N)>),
    Line { start: (N, N), end: (N, N) },
    Arrow { start: (N, N), end: (N, N) },
    Rect { origin: (N, N), size: (N, N) },
    Oval { origin: (N, N), size: (N, N) },
    Polygon { points: Vec<(N, N)> },
    Image { origin: (N, N), size: (N, N), data_url: String },
    Text { origin: (N, N), content: String },
}

/// The mathematical value of a geometry: point lists as sequences, strings
/// as their characters.
pub enum GeometryModel<N> {
    Stroke(Seq<(N, N)>),
    Line { start: (N, N), end: (N, N) },
    Arrow { start: (N, N), end: (N, N) },
    Rect { origin: (N, N), size: (N, N) },
    Oval { origin: (N, N), size: (N, N) },
    Polygon { points: Seq<(N, N)> },
    Image { origin: (N, N), size: (N, N), data_url: Seq<char> },
    Text { origin: (N, N), content: Seq<char> },
}

impl<N> GeometryModel<N> {
    /// Only a stroke without points is empty.
    pub open spec fn is_empty(self) -> bool {
        match self {
            GeometryModel::Stroke(pts) => pts.len() == 0,
            _ => false,
        }
    }
}

impl<N> View for Geometry<N> {
    type V = GeometryModel<N>;

    open spec fn view(&self) -> GeometryModel<N> {
        match self {
            Geometry::Stroke(pts) => GeometryModel::Stroke(pts@),
            Geometry::Line { start, end } => GeometryModel::Line { start: *start, end: *end },
            Geometry::Arrow { start, end } => GeometryModel::Arrow { start: *start, end: *end },
            Geometry::Rect { origin, size } => GeometryModel::Rect { origin: *origin, size: *size },
            Geometry::Oval { origin, size } => GeometryModel::Oval { origin: *origin, size: *size },
            Geometry::Polygon { points } => GeometryModel::Polygon { points: points@ },
            Geometry::Image { origin, size, data_url } => GeometryModel::Image {
                origin: *origin,
                size: *size,
                data_url: data_url@,
            },
            Geometry::Text { origin, content } => GeometryModel::Text {
                origin: *origin,
                content: content@,
            },
        }
    }
}

/// A copy of a list of points.
pub fn duplicate_points<N: Copy>(pts: &Vec<(N, N)>) -> (r: Vec<(N, N)>)
    ensures
        r@ == pts@,
{
    let mut r: Vec<(N, N)> = Vec::new();
    let mut i: usize = 0;
    while i < pts.len()
        invariant
            i <= pts.len(),
            r@ == pts@.take(i as int),
        decreases pts.len() - i,
    {
        r.push(pts[i]);
        i += 1;
        assert(r@ =~= pts@.take(i as int));
    }
    assert(pts@.take(pts@.len() as int) =~= pts@);
    r
}

impl<N: Copy> Geometry<N> {
    /// Only a stroke without points is empty.
    pub fn is_empty(&self) -> (r: bool)
        ensures
            r == self@.is_empty(),
    {
        match self {
            Geometry::Stroke(pts) => pts.len() == 0,
            _ => false,
        }
    }

    /// A copy of this geometry with the same value.
    pub fn duplicate(&self) -> (r: Self)
        ensures
            r@ == self@,
    {
        match self {
            Geometry::Stroke(pts) => Geometry::Stroke(duplicate_points(pts)),
            Geometry::Line { start, end } => Geometry::Line { start: *start, end: *end },
            Geometry::Arrow { start, end } => Geometry::Arrow { start: *start, end: *end },
            Geometry::Rect { origin, size } => Geometry::Rect { origin: *origin, size: *size },
            Geometry::Oval { origin, size } => Geometry::Oval { origin: *origin, size: *size },
            Geometry::Polygon { points } => Geometry::Polygon { points: duplicate_points(points) },
            Geometry::Image { origin, size, data_url } => Geometry::Image {
                origin: *origin,
                size: *size,
                data_url: data_url.clone(),
            },
            Geometry::Text { origin, content } => Geometry::Text {
                origin: *origin,
                content: content.clone(),
            },
        }
    }
}

impl<N: Copy> Clone for Geometry<N> {
    fn clone(&self) -> (r: Self)
        ensures
            r@ == self@,
    {
        self.duplicate()
    }
}

} // verus!
