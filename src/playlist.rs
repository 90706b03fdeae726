//! Tracks, the list they are queued on, and how a video becomes a track.
pub mod playlist;
pub mod track;
