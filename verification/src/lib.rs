//! Soundlore, a music player: its library state, and the state machines, queues
//! and arithmetic that move decoded audio from the pipeline thread to the output
//! device callback, with the messages it reports failures with.

pub mod app;
pub mod database;
pub mod error;
pub mod file;
pub mod log;
pub mod outcome;
pub mod ring;
pub mod sync;
pub mod track;
pub mod playback;
