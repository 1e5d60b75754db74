use vstd::prelude::*;

verus! {

/// All styling properties for a single primitive.
/// Colors are stored as CSS color strings.
#[derive(Debug, PartialEq)]
pub struct PrimitiveStyle<N> {
    /// Stroke color. `None` means no stroke is drawn.
    pub stroke_color: Option<String>,
    /// Stroke width
    pub stroke_width: N,
    /// Fill color. `None` means no fill is drawn.
    pub fill_color: Option<String>,
}

/// The mathematical value of a style: colours by their characters.
pub struct StyleModel<N> {
    pub stroke_color: Option<Seq<char>>,
    pub stroke_width: N,
    pub fill_color: Option<Seq<char>>,
}

pub open spec fn opt_string_model(s: Option<String>) -> Option<Seq<char>> {
    match s {
        Some(c) => Some(c@),
        None => None,
    }
}

impl<N> View for PrimitiveStyle<N> {
    type V = StyleModel<N>;

    open spec fn view(&self) -> StyleModel<N> {
        StyleModel {
            stroke_color: opt_string_model(self.stroke_color),
            stroke_width: self.stroke_width,
            fill_color: opt_string_model(self.fill_color),
        }
    }
}

fn duplicate_opt_string(s: &Option<String>) -> (r: Option<String>)
    ensures
        opt_string_model(r) == opt_string_model(*s),
{
    match s {
        Some(c) => Some(c.clone()),
        None => None,
    }
}

impl<N: Copy> PrimitiveStyle<N> {
    /// A style that strokes with `stroke_color` at `stroke_width` and has no fill.
    pub fn new(stroke_color: String, stroke_width: N) -> (r: Self)
        ensures
            r@ == (StyleModel { stroke_color: Some(stroke_color@), stroke_width, fill_color: None::<Seq<char>> }),
    {
        PrimitiveStyle { stroke_color: Some(stroke_color), stroke_width, fill_color: None }
    }

    /// The same style, filled with `fill`.
    pub fn with_fill(self, fill: String) -> (r: Self)
        ensures
            r@ == (StyleModel { fill_color: Some(fill@), ..self@ }),
    {
        let mut s = self;
        s.fill_color = Some(fill);
        s
    }

    /// The same style, without a stroke.
    pub fn with_no_stroke(self) -> (r: Self)
        ensures
            r@ == (StyleModel { stroke_color: None::<Seq<char>>, ..self@ }),
    {
        let mut s = self;
        s.stroke_color = None;
        s
    }

    /// A copy of this style with the same value.
    pub fn duplicate(&self) -> (r: Self)
        ensures
            r@ == self@,
    {
        PrimitiveStyle {
            stroke_color: duplicate_opt_string(&self.stroke_color),
            stroke_width: self.stroke_width,
            fill_color: duplicate_opt_string(&self.fill_color),
        }
    }
}

impl<N: Copy> Clone for PrimitiveStyle<N> {
    fn clone(&self) -> (r: Self)
        ensures
            r@ == self@,
    {
        self.duplicate()
    }
}

} // verus!
