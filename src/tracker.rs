use vstd::prelude::*;

use crate::event::{StatusEvent, TrackMetadata};
use crate::lyrics::Lyrics;

verus! {

/// The state that the display reads: the current lyrics, the active line
/// (-1 for none), the elapsed time and the current track.
#[derive(Debug, Clone, PartialEq)]
pub struct LyricsTracker {
    pub lyrics: Lyrics,
    pub current_line: isize,
    pub current_progress_ms: u32,
    pub track_data: TrackMetadata,
}

impl LyricsTracker {
    /// The active line is -1 or a position in the current line sequence.
    pub open spec fn wf(self) -> bool {
        -1 <= self.current_line < self.lyrics.lines@.len()
    }

    /// A line index that the event may install, given the current sheet.
    pub open spec fn accepts(self, e: StatusEvent) -> bool {
        match e {
            StatusEvent::SwitchLyricLine { new_line } => -1 <= new_line < self.lyrics.lines@.len(),
            _ => true,
        }
    }

    /// `post` is `pre` with the event folded in.
    pub open spec fn folds_to(pre: LyricsTracker, e: StatusEvent, post: LyricsTracker) -> bool {
        match e {
            StatusEvent::NewTrack { metadata, new_lyrics } => post == LyricsTracker {
                lyrics: new_lyrics,
                current_line: -1isize,
                track_data: metadata,
                ..pre
            },
            StatusEvent::NewTrackNoLyrics { metadata } => {
                &&& post.lyrics.is_blank()
                &&& post.current_line == -1
                &&& post.current_progress_ms == pre.current_progress_ms
                &&& post.track_data == metadata
            },
            StatusEvent::SwitchLyricLine { new_line } => if new_line == -1 {
                post == pre
            } else {
                post == LyricsTracker { current_line: new_line, ..pre }
            },
            StatusEvent::TrackProgress { new_progress_ms } => post == LyricsTracker {
                current_progress_ms: new_progress_ms,
                ..pre
            },
        }
    }

    /// A tracker before any event: blank lyrics and track, no active line.
    pub fn new() -> (r: LyricsTracker)
        ensures
            r.lyrics.is_blank(),
            r.current_line == -1,
            r.current_progress_ms == 0,
            r.track_data.is_blank(),
            r.wf(),
    {
        LyricsTracker {
            lyrics: Lyrics::default(),
            current_line: -1isize,
            current_progress_ms: 0,
            track_data: TrackMetadata::default(),
        }
    }

    /// Folds one event into the state: a new track replaces lyrics and
    /// metadata and clears the active line; a line switch to -1 changes nothing.
    pub fn apply_event(&mut self, event: StatusEvent)
        ensures
            Self::folds_to(*old(self), event, *final(self)),
            old(self).wf() && old(self).accepts(event) ==> final(self).wf(),
    {
        match event {
            StatusEvent::NewTrack { metadata, new_lyrics } => {
                self.current_line = -1;
                self.lyrics = new_lyrics;
                self.track_data = metadata;
            },
            StatusEvent::SwitchLyricLine { new_line } => {
                if new_line != -1 {
                    self.current_line = new_line;
                }
            },
            StatusEvent::NewTrackNoLyrics { metadata } => {
                self.current_line = -1;
                self.lyrics = Lyrics::default();
                self.track_data = metadata;
            },
            StatusEvent::TrackProgress { new_progress_ms } => {
                self.current_progress_ms = new_progress_ms;
            },
        }
    }
}

impl Default for LyricsTracker {
    fn default() -> (r: LyricsTracker)
        ensures
            r.lyrics.is_blank(),
            r.current_line == -1,
            r.current_progress_ms == 0,
            r.track_data.is_blank(),
    {
        LyricsTracker::new()
    }
}

/// A track without lyrics leaves an empty line sequence and no active line,
/// whatever the state before.
pub proof fn no_lyrics_clears_lines(pre: LyricsTracker, metadata: TrackMetadata, post: LyricsTracker)
    requires
        LyricsTracker::folds_to(pre, StatusEvent::NewTrackNoLyrics { metadata }, post),
    ensures
        post.lyrics.lines@.len() == 0,
        post.current_line == -1,
        post.track_data == metadata,
        post.wf(),
{
}

/// A switch to line -1 changes nothing, however often it comes.
pub proof fn switch_to_no_line_is_noop(a: LyricsTracker, b: LyricsTracker, c: LyricsTracker)
    requires
        LyricsTracker::folds_to(a, StatusEvent::SwitchLyricLine { new_line: -1isize }, b),
        LyricsTracker::folds_to(b, StatusEvent::SwitchLyricLine { new_line: -1isize }, c),
    ensures
        b == a,
        c == a,
{
}

} // verus!
