//! The terminal client: what it draws, and what its keys ask for.

pub mod browser;
pub mod client;
pub mod laws;
pub mod line;
pub mod pane_laws;
pub mod panes;
pub mod queue;
pub mod screen;
pub mod ui;
