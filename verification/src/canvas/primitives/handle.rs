use vstd::prelude::*;

verus! {

/// The handles drawn around a selection, by which it is resized.
#[derive(Clone, Copy, Debug, PartialEq, Eq, Structural)]
pub enum HandleKind {
    TopLeft,
    Top,
    TopRight,
    Left,
    Right,
    BottomLeft,
    Bottom,
    BottomRight,
    PivotStart,
    PivotEnd,
}

/// Which edges of the bounding box a handle moves:
/// (moves_x, moves_min_x, moves_y, moves_min_y).
pub open spec fn handle_axes(h: HandleKind) -> (bool, bool, bool, bool) {
    match h {
        HandleKind::TopLeft => (true, true, true, true),
        HandleKind::Top => (false, false, true, true),
        HandleKind::TopRight => (true, false, true, true),
        HandleKind::Left => (true, true, false, false),
        HandleKind::Right => (true, false, false, false),
        HandleKind::BottomLeft => (true, true, true, false),
        HandleKind::Bottom => (false, false, true, false),
        HandleKind::BottomRight => (true, false, true, false),
        HandleKind::PivotStart => (true, true, true, true),
        HandleKind::PivotEnd => (true, true, true, true),
    }
}

/// The CSS resize cursor shown over a handle.
pub open spec fn handle_cursor(h: HandleKind) -> Seq<char> {
    match h {
        HandleKind::TopLeft | HandleKind::BottomRight => "nwse-resize"@,
        HandleKind::TopRight | HandleKind::BottomLeft => "nesw-resize"@,
        HandleKind::Top | HandleKind::Bottom => "ns-resize"@,
        HandleKind::Left | HandleKind::Right => "ew-resize"@,
        HandleKind::PivotStart | HandleKind::PivotEnd => "move"@,
    }
}

impl HandleKind {
    /// The eight bounding-box handles, clockwise from the top-left corner
    /// row by row. The pivot handles are only used for line endpoints.
    pub fn all() -> (r: Vec<HandleKind>)
        ensures
            r@ == seq![
                HandleKind::TopLeft,
                HandleKind::Top,
                HandleKind::TopRight,
                HandleKind::Left,
                HandleKind::Right,
                HandleKind::BottomLeft,
                HandleKind::Bottom,
                HandleKind::BottomRight,
            ],
    {
        vec![
            HandleKind::TopLeft,
            HandleKind::Top,
            HandleKind::TopRight,
            HandleKind::Left,
            HandleKind::Right,
            HandleKind::BottomLeft,
            HandleKind::Bottom,
            HandleKind::BottomRight,
        ]
    }

    /// Which axes this handle moves. (moves_x, moves_min_x, moves_y, moves_min_y)
    pub fn axes(&self) -> (r: (bool, bool, bool, bool))
        ensures
            r == handle_axes(*self),
    {
        match self {
            HandleKind::TopLeft => (true, true, true, true),
            HandleKind::Top => (false, false, true, true),
            HandleKind::TopRight => (true, false, true, true),
            HandleKind::Left => (true, true, false, false),
            HandleKind::Right => (true, false, false, false),
            HandleKind::BottomLeft => (true, true, true, false),
            HandleKind::Bottom => (false, false, true, false),
            HandleKind::BottomRight => (true, false, true, false),
            HandleKind::PivotStart => (true, true, true, true),
            HandleKind::PivotEnd => (true, true, true, true),
        }
    }

    pub fn cursor(&self) -> (r: &'static str)
        ensures
            r@ == handle_cursor(*self),
    {
        match self {
            HandleKind::TopLeft | HandleKind::BottomRight => "nwse-resize",
            HandleKind::TopRight | HandleKind::BottomLeft => "nesw-resize",
            HandleKind::Top | HandleKind::Bottom => "ns-resize",
            HandleKind::Left | HandleKind::Right => "ew-resize",
            HandleKind::PivotStart | HandleKind::PivotEnd => "move",
        }
    }
}

} // verus!
