//! The window's model: everything the application knows apart from its widgets.

pub mod actions;
pub mod browse;
pub mod commands;
pub mod events;
pub mod handle;
pub mod laws;
pub mod model;
pub mod pages;
pub mod playback;
pub mod shelf;
pub mod shelf_laws;
pub mod status;
pub mod step_laws;
pub mod window;
pub mod writes;
