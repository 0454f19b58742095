//! What the resource API says of the track that is playing. Plain data: the
//! library gives it no meaning.

use vstd::prelude::*;

verus! {

/// The answer to the question which track is playing.
#[derive(Debug)]
pub struct CurrentlyPlayingTrack {
    pub timestamp: u64,
    pub progress_ms: Option<u32>,
    pub currently_playing_type: String,
    pub is_playing: bool,
    /// The item that is playing, if the answer holds one and it is a track.
    pub item: Option<Track>,
}

impl CurrentlyPlayingTrack {
    /// The track that is playing, if any.
    pub fn get_track_data(&self) -> (track: Option<&Track>)
        ensures
            match track {
                Some(t) => self.item == Some(*t),
                None => self.item is None,
            },
    {
        self.item.as_ref()
    }
}

#[derive(Debug)]
pub struct Artist {
    pub name: String,
    pub id: String,
}

#[derive(Debug)]
pub struct Album {
    pub name: String,
    pub id: String,
    pub total_tracks: i32,
    pub release_date: String,
    pub album_type: String,
    pub artists: Vec<Artist>,
}

#[derive(Debug)]
pub struct ExternalId {
    pub isrc: Option<String>,
    pub ean: Option<String>,
    pub upc: Option<String>,
}

#[derive(Debug)]
pub struct Track {
    pub name: String,
    pub id: String,
    pub album: Album,
    pub artists: Vec<Artist>,
    pub disc_number: i32,
    pub duration_ms: u32,
    pub external_ids: ExternalId,
    pub explicit: bool,
}

} // verus!
