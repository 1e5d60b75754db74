use vstd::prelude::*;

use crate::canvas::primitives::handle::{handle_cursor, HandleKind};
use crate::canvas::primitives::shape::ShapeKind;

verus! {

/// The active tool - determines how pointer events are interpreted.
#[derive(Clone, Copy, Debug, PartialEq, Eq, Structural)]
pub enum Tool {
    /// Pans the viewport; no marks are made.
    Pan,
    /// Selects, moves and resizes existing primitives.
    Pointer,
    /// Freehand pen stroke.
    Pen,
    /// Geometric shape; the specific kind is carried as `ShapeKind`.
    Shape(ShapeKind),
}

/// The name of a tool.
pub open spec fn tool_label(t: Tool) -> Seq<char> {
    match t {
        Tool::Pan => "pan"@,
        Tool::Pointer => "pointer"@,
        Tool::Pen => "pen"@,
        Tool::Shape(ShapeKind::Line) => "line"@,
        Tool::Shape(ShapeKind::Arrow) => "arrow"@,
        Tool::Shape(ShapeKind::Rect) => "rect"@,
        Tool::Shape(ShapeKind::Oval) => "circle"@,
    }
}

/// The CSS cursor shown while a tool is active.
pub open spec fn tool_cursor(t: Tool) -> Seq<char> {
    match t {
        Tool::Pan => "grab"@,
        _ => "crosshair"@,
    }
}

impl Tool {
    pub fn label(self) -> (r: &'static str)
        ensures
            r@ == tool_label(self),
    {
        match self {
            Tool::Pan => "pan",
            Tool::Pointer => "pointer",
            Tool::Pen => "pen",
            Tool::Shape(ShapeKind::Line) => "line",
            Tool::Shape(ShapeKind::Arrow) => "arrow",
            Tool::Shape(ShapeKind::Rect) => "rect",
            Tool::Shape(ShapeKind::Oval) => "circle",
        }
    }

    pub fn cursor(self) -> (r: &'static str)
        ensures
            r@ == tool_cursor(self),
    {
        match self {
            Tool::Pan => "grab",
            _ => "crosshair",
        }
    }
}

/// The cursor over the canvas: the hovered handle's resize cursor while
/// the pointer tool is in use, else the tool's own cursor.
pub open spec fn canvas_cursor_of(tool: Tool, hovered: Option<HandleKind>) -> Seq<char> {
    match hovered {
        Some(h) if tool == Tool::Pointer => handle_cursor(h),
        _ => tool_cursor(tool),
    }
}

/// The CSS cursor to show over the canvas for the tool in use and the
/// handle under the pointer, if any.
pub fn canvas_cursor(tool: Tool, hovered: Option<HandleKind>) -> (r: &'static str)
    ensures
        r@ == canvas_cursor_of(tool, hovered),
{
    match hovered {
        Some(h) => {
            if tool == Tool::Pointer {
                h.cursor()
            } else {
                tool.cursor()
            }
        },
        None => tool.cursor(),
    }
}

impl Default for Tool {
    fn default() -> (r: Self)
        ensures
            r == Tool::Pen,
    {
        Tool::Pen
    }
}

} // verus!
