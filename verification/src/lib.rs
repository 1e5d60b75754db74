//! Chalk: the verified core of a whiteboard application.
//!
//! The library holds the drawing document, its undo/redo history, the
//! selection-editing operations, the tool and theme state, colour parsing and
//! the layout/keybinding/command tables of the user interface. Coordinates are
//! a type parameter `N` throughout: the library never computes with them, it
//! only stores, copies and moves them.
pub mod canvas;
pub mod ui;
pub mod text;
pub mod utils;
