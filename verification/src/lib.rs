//! Core state of a terminal YouTube Music player: tracks, the play queue,
//! the user's library and the application state machine, with their
//! contracts proved by Verus.

pub mod app;
pub mod text;
pub mod tui;
pub mod types;
