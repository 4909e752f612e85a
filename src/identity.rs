use vstd::prelude::*;
use std::collections::hash_map::DefaultHasher;
use std::hash::Hasher;
use vstd::std_specs::hash::DefaultHasherAdditionalSpecFns;

use crate::lyrics::{LyricLine, LyricSyncType};
use crate::tracker::LyricsTracker;

verus! {

/// The bytes of `x`, least significant first, `n` of them.
pub open spec fn le_bytes(x: nat, n: nat) -> Seq<u8>
    decreases n,
{
    if n == 0 {
        Seq::empty()
    } else {
        seq![(x % 256) as u8] + le_bytes(x / 256, (n - 1) as nat)
    }
}

/// The UTF-8 bytes of a text.
pub open spec fn text_bytes(s: Seq<char>) -> Seq<u8> {
    vstd::utf8::encode_utf8(s)
}

/// What the content hash reads of one lyric line.
pub open spec fn line_writes(line: LyricLine) -> Seq<Seq<u8>> {
    seq![text_bytes(line.words@), le_bytes(line.start_time_ms as nat, 4)]
}

/// What the content hash reads of a line sequence, line by line.
pub open spec fn lines_writes(lines: Seq<LyricLine>) -> Seq<Seq<u8>>
    decreases lines.len(),
{
    if lines.len() == 0 {
        Seq::empty()
    } else {
        lines_writes(lines.drop_last()) + line_writes(lines.last())
    }
}

/// What the content hash reads of a list of texts, text by text.
pub open spec fn texts_writes(texts: Seq<String>) -> Seq<Seq<u8>>
    decreases texts.len(),
{
    if texts.len() == 0 {
        Seq::empty()
    } else {
        texts_writes(texts.drop_last()).push(text_bytes(texts.last()@))
    }
}

/// The code of a sync mode.
pub open spec fn sync_code(s: LyricSyncType) -> u8 {
    match s {
        LyricSyncType::Unsynced => 0,
        LyricSyncType::LineSynced => 1,
    }
}

/// The byte chunks that the content hash of a tracker reads, in order: the
/// language, the lines with their count, the sync mode, and the displayed
/// metadata (popularity, artists, album, genres, name).
pub open spec fn identity_writes(t: LyricsTracker) -> Seq<Seq<u8>> {
    seq![text_bytes(t.lyrics.language@), le_bytes(t.lyrics.lines@.len(), 8)]
        + lines_writes(t.lyrics.lines@)
        + seq![
            seq![sync_code(t.lyrics.sync_type)],
            le_bytes(t.track_data.popularity as nat, 4),
            le_bytes(t.track_data.track_artists@.len(), 8),
        ]
        + texts_writes(t.track_data.track_artists@)
        + seq![text_bytes(t.track_data.track_album@), le_bytes(t.track_data.artist_genres@.len(), 8)]
        + texts_writes(t.track_data.artist_genres@)
        + seq![text_bytes(t.track_data.track_name@)]
}

/// The `n` low bytes of `x`, least significant first.
fn le_bytes_of(x: u64, n: usize) -> (r: Vec<u8>)
    requires
        n <= 8,
    ensures
        r@ == le_bytes(x as nat, n as nat),
{
    let mut r: Vec<u8> = Vec::new();
    let mut rest: u64 = x;
    let mut i: usize = 0;
    while i < n
        invariant
            i <= n <= 8,
            r@ + le_bytes(rest as nat, (n - i) as nat) == le_bytes(x as nat, n as nat),
        decreases n - i,
    {
        r.push((rest % 256) as u8);
        proof {
            assert(le_bytes(rest as nat, (n - i) as nat) == seq![(rest % 256) as u8] + le_bytes(
                (rest / 256) as nat,
                (n - i - 1) as nat,
            ));
            assert(r@ + le_bytes((rest / 256) as nat, (n - i - 1) as nat) =~= r@.drop_last() + le_bytes(
                rest as nat,
                (n - i) as nat,
            ));
        }
        rest = rest / 256;
        i = i + 1;
    }
    assert(r@ =~= r@ + le_bytes(rest as nat, 0));
    r
}

/// Feeds a text's UTF-8 bytes to the hasher as one chunk.
fn write_text(h: &mut DefaultHasher, s: &String)
    ensures
        final(h)@ == old(h)@.push(text_bytes(s@)),
{
    h.write(s.as_str().as_bytes());
}

/// Feeds the `n` low bytes of `x` to the hasher as one chunk.
fn write_le(h: &mut DefaultHasher, x: u64, n: usize)
    requires
        n <= 8,
    ensures
        final(h)@ == old(h)@.push(le_bytes(x as nat, n as nat)),
{
    let b = le_bytes_of(x, n);
    h.write(b.as_slice());
}

/// Feeds each line's words and start offset to the hasher.
fn write_lines(h: &mut DefaultHasher, lines: &Vec<LyricLine>)
    ensures
        final(h)@ == old(h)@ + lines_writes(lines@),
{
    let mut i: usize = 0;
    while i < lines.len()
        invariant
            i <= lines@.len(),
            h@ == old(h)@ + lines_writes(lines@.subrange(0, i as int)),
        decreases lines@.len() - i,
    {
        proof {
            let next = lines@.subrange(0, i as int + 1);
            assert(next.drop_last() =~= lines@.subrange(0, i as int));
            assert(next.last() == lines@[i as int]);
        }
        write_text(h, &lines[i].words);
        write_le(h, lines[i].start_time_ms as u64, 4);
        i = i + 1;
    }
    assert(lines@.subrange(0, lines@.len() as int) =~= lines@);
}

/// Feeds each text of a list to the hasher.
fn write_texts(h: &mut DefaultHasher, texts: &Vec<String>)
    ensures
        final(h)@ == old(h)@ + texts_writes(texts@),
{
    let mut i: usize = 0;
    while i < texts.len()
        invariant
            i <= texts@.len(),
            h@ == old(h)@ + texts_writes(texts@.subrange(0, i as int)),
        decreases texts@.len() - i,
    {
        proof {
            let next = texts@.subrange(0, i as int + 1);
            assert(next.drop_last() =~= texts@.subrange(0, i as int));
        }
        write_text(h, &texts[i]);
        i = i + 1;
    }
    assert(texts@.subrange(0, texts@.len() as int) =~= texts@);
}

impl LyricsTracker {
    /// A hash of what the info block shows: the lyrics' language, lines and
    /// sync mode, and the track's displayed metadata. It depends on that
    /// content alone.
    pub fn identity_hash(&self) -> (r: u64)
        ensures
            r == DefaultHasher::spec_finish(identity_writes(*self)),
    {
        let mut h = DefaultHasher::new();
        write_text(&mut h, &self.lyrics.language);
        write_le(&mut h, self.lyrics.lines.len() as u64, 8);
        write_lines(&mut h, &self.lyrics.lines);
        let code: u8 = match self.lyrics.sync_type {
            LyricSyncType::Unsynced => 0,
            LyricSyncType::LineSynced => 1,
        };
        write_le(&mut h, code as u64, 1);
        write_le(&mut h, self.track_data.popularity as u64, 4);
        write_le(&mut h, self.track_data.track_artists.len() as u64, 8);
        write_texts(&mut h, &self.track_data.track_artists);
        write_text(&mut h, &self.track_data.track_album);
        write_le(&mut h, self.track_data.artist_genres.len() as u64, 8);
        write_texts(&mut h, &self.track_data.artist_genres);
        write_text(&mut h, &self.track_data.track_name);
        proof {
            reveal_with_fuel(le_bytes, 2);
            assert(le_bytes(code as nat, 1) =~= seq![sync_code(self.lyrics.sync_type)]);
            assert(h@ =~= identity_writes(*self));
        }
        h.finish()
    }
}

} // verus!
