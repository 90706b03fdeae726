//! A music bot's core: a play list of tracks, the decisions taken while a
//! video is fetched, and a few small exercises on numbers, slices and strings.
pub mod addr;
pub mod playlist;
pub mod rust_lang;
