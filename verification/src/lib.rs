//! Playlist, theme and playback logic of a desktop music player.

pub mod audio;
pub mod control;
pub mod paths;
pub mod playlist;
pub mod text;
pub mod theme;
