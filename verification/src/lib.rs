//! Verified core of the Arch Linux updates applet: the settings, the text
//! shown for each package update, and the decisions that shape the popup.

pub mod config;
pub mod packages;
pub mod state;
pub mod text;
pub mod view_window;
pub mod widgets;
