//! Core of a single-track music player: a playlist navigator that keeps a
//! "current item" index consistent under insertion, removal, reordering and
//! advance, and a playback engine that tracks transport state, elapsed
//! position, duration and volume. Audio decoding, the output device, the
//! clock and all file handling live outside; they hand plain values in and
//! take plain values back.

pub mod config;
pub mod notify;
pub mod player;
pub mod playlist;
pub mod timefmt;
pub mod utils;
