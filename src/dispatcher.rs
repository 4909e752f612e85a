use vstd::prelude::*;

use crate::event::{StatusEvent, TrackMetadata};
use crate::lyrics::{copy_lines, floor_line_index, is_floor_index, LyricLine, Lyrics};
use crate::tracker::LyricsTracker;

verus! {

/// The line index that the poller holds before it has seen any track.
pub const NO_TRACK_LINE: isize = -2;

/// The decisions of the playback poller, kept between ticks: the track seen
/// last, the lines of its lyrics where it has any, and the line last announced.
#[derive(Debug)]
pub struct Dispatcher {
    pub cached_id: String,
    pub cached_lines: Option<Vec<LyricLine>>,
    pub current_line: isize,
}

/// What one poll asks of the loop that drives the poller: send `events` in
/// order, then either fetch the new track's metadata and lyrics and hand them
/// to `track_fetched` (`fetch_track`), or wait for the next tick.
#[derive(Debug)]
pub struct PollStep {
    pub events: Vec<StatusEvent>,
    pub fetch_track: bool,
}

impl Dispatcher {
    /// Cached lines fit the signed line index.
    pub open spec fn wf(self) -> bool {
        self.cached_lines matches Some(lines) ==> lines@.len() <= isize::MAX
    }

    /// `post` and `step` are what a poll that finds `id` playing at `ms` makes of `pre`.
    pub open spec fn polled(pre: Dispatcher, id: Seq<char>, ms: u32, post: Dispatcher, step: PollStep) -> bool {
        if id != pre.cached_id@ {
            // a track transition: elapsed time restarts at zero before anything else
            &&& step.fetch_track
            &&& step.events@ == seq![StatusEvent::TrackProgress { new_progress_ms: 0 }]
            &&& post.cached_id@ == id
            &&& post.cached_lines == pre.cached_lines
            &&& post.current_line == -1
        } else {
            &&& !step.fetch_track
            &&& post.cached_id == pre.cached_id
            &&& post.cached_lines == pre.cached_lines
            &&& match pre.cached_lines {
                None => step.events@.len() == 0 && post.current_line == pre.current_line,
                Some(lines) => {
                    &&& is_floor_index(lines@, ms, post.current_line as int)
                    &&& step.events@ == if post.current_line == pre.current_line {
                        seq![StatusEvent::TrackProgress { new_progress_ms: ms }]
                    } else {
                        seq![
                            StatusEvent::TrackProgress { new_progress_ms: ms },
                            StatusEvent::SwitchLyricLine { new_line: post.current_line },
                        ]
                    }
                },
            }
        }
    }

    /// `post` and `event` are what the arrival of a new track's metadata and
    /// lyrics makes of `pre`.
    pub open spec fn fetched(
        pre: Dispatcher,
        metadata: TrackMetadata,
        lyrics: Option<Lyrics>,
        post: Dispatcher,
        event: StatusEvent,
    ) -> bool {
        &&& post.cached_id == pre.cached_id
        &&& post.current_line == pre.current_line
        &&& match lyrics {
            Some(l) => {
                &&& post.cached_lines matches Some(c) && c@ == l.lines@
                &&& event == StatusEvent::NewTrack { metadata, new_lyrics: l }
            },
            None => {
                &&& post.cached_lines.is_none()
                &&& event == StatusEvent::NewTrackNoLyrics { metadata }
            },
        }
    }

    /// A poller that has seen no track yet.
    pub fn new() -> (r: Dispatcher)
        ensures
            r.cached_id@.len() == 0,
            r.cached_lines.is_none(),
            r.current_line == NO_TRACK_LINE,
            r.wf(),
    {
        Dispatcher { cached_id: String::new(), cached_lines: None, current_line: NO_TRACK_LINE }
    }

    /// One tick on which `track_id` is playing at `progress_ms`. On the track
    /// seen last, it reports the elapsed time and, where lyrics are cached, the
    /// active line when that changed. On another track, it forgets the active
    /// line, reports zero elapsed time and asks for the track to be fetched.
    pub fn on_playing(&mut self, track_id: &str, progress_ms: u32) -> (r: PollStep)
        requires
            old(self).wf(),
        ensures
            Self::polled(*old(self), track_id@, progress_ms, *final(self), r),
            final(self).wf(),
    {
        let id = track_id.to_owned();
        if self.cached_id == id {
            let mut events: Vec<StatusEvent> = Vec::new();
            match &self.cached_lines {
                Some(lines) => {
                    events.push(StatusEvent::TrackProgress { new_progress_ms: progress_ms });
                    let line = floor_line_index(lines.as_slice(), progress_ms);
                    if line != self.current_line {
                        events.push(StatusEvent::SwitchLyricLine { new_line: line });
                        self.current_line = line;
                        assert(events@ =~= seq![
                            StatusEvent::TrackProgress { new_progress_ms: progress_ms },
                            StatusEvent::SwitchLyricLine { new_line: line },
                        ]);
                    } else {
                        assert(events@ =~= seq![StatusEvent::TrackProgress { new_progress_ms: progress_ms }]);
                    }
                },
                None => {},
            }
            PollStep { events, fetch_track: false }
        } else {
            self.cached_id = id;
            self.current_line = -1;
            let mut events: Vec<StatusEvent> = Vec::new();
            events.push(StatusEvent::TrackProgress { new_progress_ms: 0 });
            assert(events@ =~= seq![StatusEvent::TrackProgress { new_progress_ms: 0 }]);
            PollStep { events, fetch_track: true }
        }
    }

    /// The metadata and lyrics of the new track have arrived: caches the lines
    /// where there are lyrics, forgets them where there are none, and gives the
    /// event that announces the track.
    pub fn track_fetched(&mut self, metadata: TrackMetadata, lyrics: Option<Lyrics>) -> (r: StatusEvent)
        requires
            old(self).wf(),
            lyrics matches Some(l) ==> l.lines@.len() <= isize::MAX,
        ensures
            Self::fetched(*old(self), metadata, lyrics, *final(self), r),
            final(self).wf(),
    {
        match lyrics {
            Some(new_lyrics) => {
                self.cached_lines = Some(copy_lines(&new_lyrics.lines));
                StatusEvent::NewTrack { metadata, new_lyrics }
            },
            None => {
                self.cached_lines = None;
                StatusEvent::NewTrackNoLyrics { metadata }
            },
        }
    }
}

/// A track transition first announces zero elapsed time; once the track's
/// metadata and lyrics are announced, a tracker that folded those events has no
/// active line and zero elapsed time. The next poll of the same track again
/// begins with its elapsed time, and any line switch it reports names a line.
pub proof fn transition_resets_line(
    d0: Dispatcher,
    id: Seq<char>,
    ms: u32,
    d1: Dispatcher,
    step: PollStep,
    metadata: TrackMetadata,
    lyrics: Option<Lyrics>,
    d2: Dispatcher,
    announce: StatusEvent,
    t0: LyricsTracker,
    t1: LyricsTracker,
    t2: LyricsTracker,
    next_ms: u32,
    d3: Dispatcher,
    next: PollStep,
)
    requires
        id != d0.cached_id@,
        Dispatcher::polled(d0, id, ms, d1, step),
        Dispatcher::fetched(d1, metadata, lyrics, d2, announce),
        LyricsTracker::folds_to(t0, step.events@[0], t1),
        LyricsTracker::folds_to(t1, announce, t2),
        Dispatcher::polled(d2, id, next_ms, d3, next),
    ensures
        step.events@ == seq![(StatusEvent::TrackProgress { new_progress_ms: 0 })],
        d2.current_line == -1,
        t2.current_line == -1,
        t2.current_progress_ms == 0,
        t2.track_data == metadata,
        t2.wf(),
        !next.fetch_track,
        next.events@.len() > 0 ==> next.events@[0] == (StatusEvent::TrackProgress {
            new_progress_ms: next_ms,
        }),
        forall|k: int| 0 <= k < next.events@.len() ==> (#[trigger] next.events@[k]).line_is_named(),
{
    assert(step.events@[0] == StatusEvent::TrackProgress { new_progress_ms: 0 });
}

} // verus!
