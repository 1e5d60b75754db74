pub mod action;
pub mod background;
pub mod drawing;
pub mod history;
pub mod primitives;
pub mod styles;
pub mod state;
pub mod tool;
pub mod types;
