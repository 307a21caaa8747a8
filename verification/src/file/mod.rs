//! Files of the music library.

pub mod utils;
