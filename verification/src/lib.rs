//! Slipmat: the rules behind a player for Apple Music, without the windows.

pub mod app;
pub mod climat;
pub mod compare;
pub mod daemon;
pub mod deck;
pub mod deck_laws;
pub mod ids;
pub mod ipc;
pub mod library;
pub mod library_laws;
pub mod markup;
pub mod mpris;
pub mod mpris_laws;
pub mod mpris_player;
pub mod music;
pub mod order;
pub mod protocol;
pub mod protocol_laws;
pub mod queue;
pub mod queue_laws;
pub mod rest;
pub mod serve;
pub mod serve_laws;
pub mod sort;
pub mod sort_laws;
pub mod supervise;
pub mod text;
pub mod view;
pub mod view_laws;
pub mod volume;
