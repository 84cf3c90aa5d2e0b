//! A user-made playlist kept on disk.

use vstd::prelude::*;
use crate::types::track::Track;

verus! {

/// A named list of tracks.
#[derive(Debug, PartialEq, Eq)]
pub struct LocalPlaylist {
    pub name: String,
    pub tracks: Vec<Track>,
}

impl Clone for LocalPlaylist {
    fn clone(&self) -> (r: Self)
        ensures
            r.name == self.name,
            r.tracks@ == self.tracks@,
    {
        LocalPlaylist { name: self.name.clone(), tracks: self.tracks.clone() }
    }
}

} // verus!
