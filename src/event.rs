use vstd::prelude::*;

use crate::lyrics::Lyrics;

verus! {

/// What the display knows of the track that is playing: a snapshot taken once
/// per track transition.
#[derive(Debug, Clone, PartialEq)]
pub struct TrackMetadata {
    pub track_name: String,
    pub track_artists: Vec<String>,
    pub track_album: String,
    pub track_duration_ms: u64,
    pub artist_genres: Vec<String>,
    pub popularity: u32,
}

impl TrackMetadata {
    /// Metadata of no track: empty texts and lists, zero duration and popularity.
    pub open spec fn is_blank(self) -> bool {
        &&& self.track_name@.len() == 0
        &&& self.track_artists@.len() == 0
        &&& self.track_album@.len() == 0
        &&& self.track_duration_ms == 0
        &&& self.artist_genres@.len() == 0
        &&& self.popularity == 0
    }
}

impl Default for TrackMetadata {
    fn default() -> (r: TrackMetadata)
        ensures
            r.is_blank(),
    {
        TrackMetadata {
            track_name: String::new(),
            track_artists: Vec::new(),
            track_album: String::new(),
            track_duration_ms: 0,
            artist_genres: Vec::new(),
            popularity: 0,
        }
    }
}

/// What the playback poller tells the tracker.
#[derive(Debug, Clone, PartialEq)]
pub enum StatusEvent {
    NewTrack { metadata: TrackMetadata, new_lyrics: Lyrics },
    NewTrackNoLyrics { metadata: TrackMetadata },
    SwitchLyricLine { new_line: isize },
    TrackProgress { new_progress_ms: u32 },
}

impl StatusEvent {
    /// A line switch names a line, not -1; other events name none.
    pub open spec fn line_is_named(self) -> bool {
        self matches StatusEvent::SwitchLyricLine { new_line } ==> new_line >= 0
    }
}

} // verus!
