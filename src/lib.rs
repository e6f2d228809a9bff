//! Key handling for the queue view and the modal popups of a terminal music
//! player: each key press becomes a new UI state and, at most, one command
//! for the playback side to execute.

pub mod selection;
pub mod event;
pub mod models;
pub mod outcome;
pub mod popup;
pub mod queue;
