//! A list of tracks that only grows at its end.
use crate::playlist::track::Track;
use vstd::prelude::*;

verus! {

/// The tracks queued, in the order they were added.
pub struct PlayList {
    pub songs: Vec<Track>,
}

impl PlayList {
    /// An empty list.
    pub fn new() -> (r: PlayList)
        ensures
            r.songs@ == Seq::<Track>::empty(),
    {
        PlayList { songs: Vec::new() }
    }

    /// Appends a track at the end; the tracks already there stay as they were.
    pub fn add(&mut self, track: Track)
        ensures
            final(self).songs@ == old(self).songs@.push(track),
    {
        self.songs.push(track);
    }
}

} // verus!
