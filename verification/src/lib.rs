//! Core of a terminal music player: the playlist built from the audio files
//! of a folder, the command line where the user types that folder, the
//! player's reaction to each key, its playback clock, and the text that the
//! screen shows.

pub mod editor;
pub mod library;
pub mod player;
pub mod screen;
pub mod text;
