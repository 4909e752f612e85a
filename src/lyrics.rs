use vstd::prelude::*;
use vstd::string::StringExecFns;

verus! {

/// Whether the lines of a lyrics sheet carry timing usable for highlighting.
#[derive(Debug, Clone, Copy, PartialEq, Eq, Structural)]
pub enum LyricSyncType {
    Unsynced,
    LineSynced,
}

/// One line of lyrics with the offset, in milliseconds, at which it starts.
#[derive(Debug, Clone, PartialEq)]
pub struct LyricLine {
    pub start_time_ms: u32,
    pub words: String,
}

/// A lyrics sheet: its sync mode, its lines in order, and a language tag.
#[derive(Debug, Clone, PartialEq)]
pub struct Lyrics {
    pub sync_type: LyricSyncType,
    pub lines: Vec<LyricLine>,
    pub language: String,
}

impl Lyrics {
    /// A sheet with no lines, no language and no timing.
    pub open spec fn is_blank(self) -> bool {
        &&& self.sync_type == LyricSyncType::Unsynced
        &&& self.lines@.len() == 0
        &&& self.language@.len() == 0
    }
}

impl Default for Lyrics {
    fn default() -> (r: Lyrics)
        ensures
            r.is_blank(),
    {
        Lyrics { sync_type: LyricSyncType::Unsynced, lines: Vec::new(), language: String::new() }
    }
}

/// Copies a line sequence.
pub fn copy_lines(lines: &Vec<LyricLine>) -> (r: Vec<LyricLine>)
    ensures
        r@ == lines@,
{
    let mut r: Vec<LyricLine> = Vec::new();
    let mut i: usize = 0;
    while i < lines.len()
        invariant
            i <= lines@.len(),
            r@ == lines@.subrange(0, i as int),
        decreases lines@.len() - i,
    {
        let line = LyricLine { start_time_ms: lines[i].start_time_ms, words: lines[i].words.clone() };
        r.push(line);
        i = i + 1;
    }
    assert(r@ == lines@.subrange(0, lines@.len() as int));
    r
}

/// The lines are ordered by start offset, ascending.
pub open spec fn sorted_by_start(lines: Seq<LyricLine>) -> bool {
    forall|i: int, j: int|
        0 <= i <= j < lines.len() ==> #[trigger] lines[i].start_time_ms <= #[trigger] lines[j].start_time_ms
}

/// `i` is the floor index of `ms` in `lines`: the greatest position whose line
/// starts at or before `ms`, or -1 where no line does.
pub open spec fn is_floor_index(lines: Seq<LyricLine>, ms: u32, i: int) -> bool {
    &&& -1 <= i < lines.len()
    &&& i >= 0 ==> lines[i].start_time_ms <= ms
    &&& forall|j: int| i < j < lines.len() ==> #[trigger] lines[j].start_time_ms > ms
}

/// The line that is active at `progress_ms`: the last line that starts at or
/// before it, or -1 where every line starts later.
pub fn floor_line_index(lines: &[LyricLine], progress_ms: u32) -> (r: isize)
    requires
        lines@.len() <= isize::MAX,
    ensures
        is_floor_index(lines@, progress_ms, r as int),
{
    let mut i: usize = lines.len();
    while i > 0
        invariant
            i <= lines@.len() <= isize::MAX,
            forall|j: int| i <= j < lines@.len() ==> #[trigger] lines@[j].start_time_ms > progress_ms,
        decreases i,
    {
        if lines[i - 1].start_time_ms <= progress_ms {
            return (i - 1) as isize;
        }
        i = i - 1;
    }
    -1
}

/// The status with which the lyrics service sends a track's lyrics.
pub const STATUS_OK: u16 = 200;

/// The status with which the lyrics service says that a track has no lyrics.
pub const STATUS_NOT_FOUND: u16 = 404;

/// What a reply of the lyrics service means.
#[derive(Debug, Clone, Copy, PartialEq, Eq, Structural)]
pub enum LyricsReply {
    /// The body holds the lyrics, to be decoded.
    Decode,
    /// The track has no lyrics; this is no error.
    NoLyrics,
    /// The request failed.
    Failed,
}

/// The address of a track's lyrics: the service's base address followed by
/// the track id.
pub fn lyrics_url(base: &str, track_id: &str) -> (r: String)
    ensures
        r@ == base@ + track_id@,
{
    base.to_owned().concat(track_id)
}

/// What a reply of the lyrics service with this status means: lyrics on
/// success, none on not-found, a failure on anything else.
pub fn classify_lyrics_reply(status: u16) -> (r: LyricsReply)
    ensures
        r == if status == STATUS_OK {
            LyricsReply::Decode
        } else if status == STATUS_NOT_FOUND {
            LyricsReply::NoLyrics
        } else {
            LyricsReply::Failed
        },
{
    if status == STATUS_OK {
        LyricsReply::Decode
    } else if status == STATUS_NOT_FOUND {
        LyricsReply::NoLyrics
    } else {
        LyricsReply::Failed
    }
}

/// The floor index of a position is unique.
pub proof fn floor_index_unique(lines: Seq<LyricLine>, ms: u32, i: int, k: int)
    requires
        is_floor_index(lines, ms, i),
        is_floor_index(lines, ms, k),
    ensures
        i == k,
{
}

/// On lines sorted by start offset, the floor index is the greatest position
/// whose line has started: every line up to it has started, none after it has,
/// and it is -1 exactly when the sheet is empty or the position comes before
/// the first line.
pub proof fn floor_index_of_sorted_lines(lines: Seq<LyricLine>, ms: u32, i: int)
    requires
        sorted_by_start(lines),
        is_floor_index(lines, ms, i),
    ensures
        forall|j: int| 0 <= j <= i ==> #[trigger] lines[j].start_time_ms <= ms,
        forall|j: int| i < j < lines.len() ==> #[trigger] lines[j].start_time_ms > ms,
        i == -1 <==> (lines.len() == 0 || ms < lines[0].start_time_ms),
{
    assert forall|j: int| 0 <= j <= i implies #[trigger] lines[j].start_time_ms <= ms by {
        assert(lines[j].start_time_ms <= lines[i].start_time_ms);
    }
    if i == -1 && lines.len() > 0 {
        assert(lines[0].start_time_ms > ms);
    }
    if i >= 0 {
        assert(lines[0].start_time_ms <= lines[i].start_time_ms);
    }
}

} // verus!
