use vstd::prelude::*;
use vstd::string::*;

use crate::canvas::primitives::shape::ShapeKind;
use crate::canvas::tool::Tool;
use crate::text::{int_text, int_to_string, str_eq};

verus! {

/// Which screen edge (or corner) a panel is pinned to.
#[derive(Clone, Copy, Debug, PartialEq, Eq, Structural)]
pub enum Anchor {
    TopLeft,
    TopCenter,
    TopRight,
    BottomLeft,
    BottomCenter,
    BottomRight,
    CenterLeft,
    CenterRight,
    Center,
}

/// Direction children are stacked inside a panel.
#[derive(Clone, Copy, Debug, PartialEq, Eq, Structural)]
pub enum Direction {
    Row,
    Column,
}

/// How a dropdown opens: on a click of its trigger, or while hovered.
#[derive(Clone, Copy, Debug, PartialEq, Eq, Structural)]
pub enum Activation {
    Click,
    Hover,
}

/// Label types can be either text or a function of the overlay's state
/// (e.g. the zoom level), of type `F`.
pub enum Label<F> {
    Static(&'static str),
    Dynamic(F),
}

/// Describes what type of component a `BoxConfig` maps to.
#[derive(Clone, Copy, Debug)]
pub enum BoxKind {
    /// Clickable button. `action` is the action id forwarded to the app.
    Button { action: &'static str },
    /// Static text label.
    Label,
    /// Horizontal or vertical divider.
    Divider,
    /// Image
    Image { src: &'static str },
    /// Circle filled with `color`, acts as a button.
    Swatch { color: &'static str, action: &'static str },
    /// Horizontal line at `width` thickness, acts as a button.
    StrokeWidth { width: u32, action: &'static str },
    /// An icon that opens a menu of the box's children.
    Dropdown { activation: Activation, icon_id: &'static str, src: &'static str },
}

/// A single UI element inside a panel.
pub struct BoxConfig<F> {
    /// Unique key - used as the HTML element key and for event dispatch.
    pub id: &'static str,
    /// Optional display label (used by Button, Badge, etc.).
    pub label: Option<Label<F>>,
    /// Optional Shortcut hint
    pub hint: Option<&'static str>,
    /// The kind of box to render.
    pub kind: BoxKind,
    /// Children are only used for groups, icon buttons and dropdowns.
    pub children: Option<Vec<BoxConfig<F>>>,
}

/// A panel groups related boxes and pins them to a screen anchor.
pub struct PanelConfig<F> {
    /// Unique panel id.
    pub id: &'static str,
    /// Where on screen this panel is placed.
    pub anchor: Anchor,
    /// Pixel offset from the anchor point (dx, dy).
    pub offset: (i32, i32),
    /// How children are arranged.
    pub direction: Direction,
    /// Gap between children in pixels.
    pub gap: u32,
    /// Padding inside the panel in pixels.
    pub padding: u32,
    /// The boxes that live inside this panel.
    pub children: Vec<BoxConfig<F>>,
}

impl<F> PanelConfig<F> {
    /// An empty row panel at `anchor` with no offset, 8px gap and padding.
    pub fn new(id: &'static str, anchor: Anchor) -> (r: Self)
        ensures
            r.id == id,
            r.anchor == anchor,
            r.offset == (0i32, 0i32),
            r.direction == Direction::Row,
            r.gap == 8,
            r.padding == 8,
            r.children@.len() == 0,
    {
        PanelConfig { id, anchor, offset: (0, 0), direction: Direction::Row, gap: 8, padding: 8, children: Vec::new() }
    }

    pub fn offset(self, dx: i32, dy: i32) -> (r: Self)
        ensures
            r == (PanelConfig { offset: (dx, dy), ..self }),
    {
        let mut s = self;
        s.offset = (dx, dy);
        s
    }

    pub fn direction(self, dir: Direction) -> (r: Self)
        ensures
            r == (PanelConfig { direction: dir, ..self }),
    {
        let mut s = self;
        s.direction = dir;
        s
    }

    pub fn gap(self, px: u32) -> (r: Self)
        ensures
            r == (PanelConfig { gap: px, ..self }),
    {
        let mut s = self;
        s.gap = px;
        s
    }

    pub fn padding(self, px: u32) -> (r: Self)
        ensures
            r == (PanelConfig { padding: px, ..self }),
    {
        let mut s = self;
        s.padding = px;
        s
    }

    /// The panel with `child` appended to its boxes.
    pub fn add(self, child: BoxConfig<F>) -> (r: Self)
        ensures
            r.id == self.id,
            r.anchor == self.anchor,
            r.offset == self.offset,
            r.direction == self.direction,
            r.gap == self.gap,
            r.padding == self.padding,
            r.children@ == self.children@.push(child),
    {
        let mut s = self;
        s.children.push(child);
        s
    }
}

impl<F> BoxConfig<F> {
    pub fn button(id: &'static str, label: Label<F>, action: &'static str) -> (r: Self)
        ensures
            r == (BoxConfig::<F> { id, label: Some(label), hint: None, kind: BoxKind::Button { action }, children: None }),
    {
        BoxConfig { id, label: Some(label), hint: None, kind: BoxKind::Button { action }, children: None }
    }

    /// A button showing the image `src` (a child box with id `icon_id`).
    pub fn icon_button(id: &'static str, icon_id: &'static str, src: &'static str, action: &'static str) -> (r: Self)
        ensures
            r.id == id,
            r.label is None,
            r.hint is None,
            r.kind == (BoxKind::Button { action }),
            r.children is Some,
            r.children->0@.len() == 1,
            r.children->0@[0] == (BoxConfig::<F> {
                id: icon_id,
                label: None,
                hint: None,
                kind: BoxKind::Image { src },
                children: None,
            }),
    {
        let mut children: Vec<BoxConfig<F>> = Vec::new();
        children.push(BoxConfig { id: icon_id, label: None, hint: None, kind: BoxKind::Image { src }, children: None });
        BoxConfig { id, label: None, hint: None, kind: BoxKind::Button { action }, children: Some(children) }
    }

    /// A dropdown opened from the image `src`, listing `items`.
    pub fn icon_dropdown(
        activation: Activation,
        id: &'static str,
        icon_id: &'static str,
        src: &'static str,
        items: Vec<BoxConfig<F>>,
    ) -> (r: Self)
        ensures
            r == (BoxConfig::<F> {
                id,
                label: None,
                hint: None,
                kind: BoxKind::Dropdown { activation, icon_id, src },
                children: Some(items),
            }),
    {
        BoxConfig { id, label: None, hint: None, kind: BoxKind::Dropdown { activation, icon_id, src }, children: Some(items) }
    }

    pub fn label(id: &'static str, text: Label<F>) -> (r: Self)
        ensures
            r == (BoxConfig::<F> { id, label: Some(text), hint: None, kind: BoxKind::Label, children: None }),
    {
        BoxConfig { id, label: Some(text), hint: None, kind: BoxKind::Label, children: None }
    }

    pub fn divider() -> (r: Self)
        ensures
            r.id@ == "divider"@,
            r.label is None,
            r.hint is None,
            r.kind == BoxKind::Divider,
            r.children is None,
    {
        BoxConfig { id: "divider", label: None, hint: None, kind: BoxKind::Divider, children: None }
    }

    pub fn swatch(id: &'static str, color: &'static str, action: &'static str) -> (r: Self)
        ensures
            r == (BoxConfig::<F> { id, label: None, hint: None, kind: BoxKind::Swatch { color, action }, children: None }),
    {
        BoxConfig { id, label: None, hint: None, kind: BoxKind::Swatch { color, action }, children: None }
    }

    pub fn stroke_width(id: &'static str, width: u32, action: &'static str) -> (r: Self)
        ensures
            r == (BoxConfig::<F> {
                id,
                label: None,
                hint: None,
                kind: BoxKind::StrokeWidth { width, action },
                children: None,
            }),
    {
        BoxConfig { id, label: None, hint: None, kind: BoxKind::StrokeWidth { width, action }, children: None }
    }

    /// The box with a keyboard shortcut hint.
    pub fn with_hint(self, hint: &'static str) -> (r: Self)
        ensures
            r == (BoxConfig::<F> { hint: Some(hint), ..self }),
    {
        let mut s = self;
        s.hint = Some(hint);
        s
    }
}

/// The CSS that pins a panel at `anchor`, offset by (dx, dy) pixels
/// (negative offsets move away from the right and bottom edges).
pub open spec fn anchor_css(anchor: Anchor, dx: int, dy: int) -> Seq<char> {
    match anchor {
        Anchor::TopLeft => "top:"@ + int_text(dy) + "px;left:"@ + int_text(dx) + "px;"@,
        Anchor::TopCenter => "top:"@ + int_text(dy) + "px;left:50%;transform:translateX(-50%) translateX("@
            + int_text(dx) + "px);"@,
        Anchor::TopRight => "top:"@ + int_text(dy) + "px;right:"@ + int_text(-dx) + "px;"@,
        Anchor::BottomLeft => "bottom:"@ + int_text(-dy) + "px;left:"@ + int_text(dx) + "px;"@,
        Anchor::BottomCenter => "bottom:"@ + int_text(-dy) + "px;left:50%;transform:translateX(-50%) translateX("@
            + int_text(dx) + "px);"@,
        Anchor::BottomRight => "bottom:"@ + int_text(-dy) + "px;right:"@ + int_text(-dx) + "px;"@,
        Anchor::CenterLeft => "top:50%;left:"@ + int_text(dx) + "px;transform:translateY(-50%) translateY("@
            + int_text(dy) + "px);"@,
        Anchor::CenterRight => "top:50%;right:"@ + int_text(-dx) + "px;transform:translateY(-50%) translateY("@
            + int_text(dy) + "px);"@,
        Anchor::Center => "top:50%;left:50%;transform:translate(-50%,-50%) translate("@ + int_text(dx) + "px,"@
            + int_text(dy) + "px);"@,
    }
}

/// The offsets that an anchor negates fit in `i32` once negated.
pub open spec fn anchor_offset_negatable(anchor: Anchor, dx: i32, dy: i32) -> bool {
    match anchor {
        Anchor::TopRight | Anchor::CenterRight => dx != i32::MIN,
        Anchor::BottomLeft | Anchor::BottomCenter => dy != i32::MIN,
        Anchor::BottomRight => dx != i32::MIN && dy != i32::MIN,
        _ => true,
    }
}

/// `a`, the numeral of `v`, then `b`.
fn framed(a: &str, v: i64, b: &str) -> (s: String)
    ensures
        s@ == a@ + int_text(v as int) + b@,
{
    let n = int_to_string(v);
    let s = String::from_str(a).concat(n.as_str()).concat(b);
    s
}

impl Anchor {
    /// Returns the `position:fixed` CSS snippet that places the panel.
    pub fn to_css(&self, offset: (i32, i32)) -> (s: String)
        requires
            anchor_offset_negatable(*self, offset.0, offset.1),
        ensures
            s@ == anchor_css(*self, offset.0 as int, offset.1 as int),
    {
        let (dx, dy) = offset;
        let (x, y) = (dx as i64, dy as i64);
        let s = match self {
            Anchor::TopLeft => framed("top:", y, "px;left:").concat(framed("", x, "px;").as_str()),
            Anchor::TopCenter => framed("top:", y, "px;left:50%;transform:translateX(-50%) translateX(").concat(
                framed("", x, "px);").as_str(),
            ),
            Anchor::TopRight => framed("top:", y, "px;right:").concat(framed("", -x, "px;").as_str()),
            Anchor::BottomLeft => framed("bottom:", -y, "px;left:").concat(framed("", x, "px;").as_str()),
            Anchor::BottomCenter => framed("bottom:", -y, "px;left:50%;transform:translateX(-50%) translateX(").concat(
                framed("", x, "px);").as_str(),
            ),
            Anchor::BottomRight => framed("bottom:", -y, "px;right:").concat(framed("", -x, "px;").as_str()),
            Anchor::CenterLeft => framed("top:50%;left:", x, "px;transform:translateY(-50%) translateY(").concat(
                framed("", y, "px);").as_str(),
            ),
            Anchor::CenterRight => framed("top:50%;right:", -x, "px;transform:translateY(-50%) translateY(").concat(
                framed("", y, "px);").as_str(),
            ),
            Anchor::Center => framed("top:50%;left:50%;transform:translate(-50%,-50%) translate(", x, "px,").concat(
                framed("", y, "px);").as_str(),
            ),
        };
        proof {
            reveal_strlit("");
        }
        assert(s@ =~= anchor_css(*self, offset.0 as int, offset.1 as int));
        s
    }
}

/// Whether the toolbar button `id` is shown pressed, given the tool in use
/// and whether the tool is locked: each tool button for its own tool, the
/// lock button while the tool is locked.
pub open spec fn tool_button_pressed(id: Seq<char>, tool: Tool, locked: bool) -> bool {
    if id == "tool-pan"@ {
        tool == Tool::Pan
    } else if id == "tool-pointer"@ {
        tool == Tool::Pointer
    } else if id == "tool-pen"@ {
        tool == Tool::Pen
    } else if id == "tool-line"@ {
        tool == Tool::Shape(ShapeKind::Line)
    } else if id == "tool-arrow"@ {
        tool == Tool::Shape(ShapeKind::Arrow)
    } else if id == "tool-rect"@ {
        tool == Tool::Shape(ShapeKind::Rect)
    } else if id == "tool-circle"@ {
        tool == Tool::Shape(ShapeKind::Oval)
    } else if id == "tool-lock"@ {
        locked
    } else {
        false
    }
}

/// Whether the toolbar button `id` is shown pressed.
pub fn tool_button_active(id: &str, tool: Tool, locked: bool) -> (r: bool)
    ensures
        r == tool_button_pressed(id@, tool, locked),
{
    if str_eq(id, "tool-pan") {
        tool == Tool::Pan
    } else if str_eq(id, "tool-pointer") {
        tool == Tool::Pointer
    } else if str_eq(id, "tool-pen") {
        tool == Tool::Pen
    } else if str_eq(id, "tool-line") {
        tool == Tool::Shape(ShapeKind::Line)
    } else if str_eq(id, "tool-arrow") {
        tool == Tool::Shape(ShapeKind::Arrow)
    } else if str_eq(id, "tool-rect") {
        tool == Tool::Shape(ShapeKind::Rect)
    } else if str_eq(id, "tool-circle") {
        tool == Tool::Shape(ShapeKind::Oval)
    } else if str_eq(id, "tool-lock") {
        locked
    } else {
        false
    }
}

/// The CSS `flex-direction` of a stacking direction.
pub open spec fn flex_css(d: Direction) -> Seq<char> {
    match d {
        Direction::Row => "row"@,
        Direction::Column => "column"@,
    }
}

impl Direction {
    pub fn to_flex_css(&self) -> (r: &'static str)
        ensures
            r@ == flex_css(*self),
    {
        match self {
            Direction::Row => "row",
            Direction::Column => "column",
        }
    }
}

} // verus!
