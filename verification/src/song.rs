//! The record that the library store hands to the engine.

use vstd::prelude::*;

verus! {

/// One song of the library. The engine reads `song_id` and `file`; the other
/// fields pass through to whoever asked.
#[derive(Debug, Clone, PartialEq, Eq)]
pub struct Song {
    pub song_id: u32,
    pub artist_id: u32,
    pub album_id: u32,
    pub title: String,
    pub artist: String,
    pub album: String,
    pub ms: u32,
    pub file: String,
}

} // verus!
