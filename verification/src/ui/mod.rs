pub mod color;
pub mod commands;
pub mod keybindings;
pub mod layout;
pub mod palette;
