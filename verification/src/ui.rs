//! What the presentation and the game tell each other.

pub mod gui;
pub mod ui_base;
