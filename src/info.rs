use vstd::prelude::*;

use crate::config::DisplayConfig;
use crate::event::TrackMetadata;
use crate::identity::{identity_writes, lines_writes, texts_writes};
use crate::lyrics::{copy_lines, LyricLine, LyricSyncType};
use crate::tracker::LyricsTracker;
use std::collections::hash_map::DefaultHasher;
use vstd::std_specs::hash::DefaultHasherAdditionalSpecFns;

verus! {

/// The value that one template of the info block is rendered with.
#[derive(Debug, Clone, PartialEq)]
pub enum InfoValue {
    Text(String),
    Texts(Vec<String>),
    Number(u32),
}

/// One line of the info block to render: `template` with `value` bound to `key`.
#[derive(Debug, Clone, PartialEq)]
pub struct InfoField {
    pub template: String,
    pub key: String,
    pub value: InfoValue,
}

/// The value of an info field, as text.
pub ghost enum InfoValueView {
    Text(Seq<char>),
    Texts(Seq<Seq<char>>),
    Number(u32),
}

/// An info field, as text.
pub ghost struct InfoFieldView {
    pub template: Seq<char>,
    pub key: Seq<char>,
    pub value: InfoValueView,
}

/// The texts of a list.
pub open spec fn texts_view(v: Seq<String>) -> Seq<Seq<char>> {
    v.map_values(|s: String| s@)
}

impl View for InfoValue {
    type V = InfoValueView;

    open spec fn view(&self) -> InfoValueView {
        match self {
            InfoValue::Text(s) => InfoValueView::Text(s@),
            InfoValue::Texts(v) => InfoValueView::Texts(texts_view(v@)),
            InfoValue::Number(n) => InfoValueView::Number(*n),
        }
    }
}

impl View for InfoField {
    type V = InfoFieldView;

    open spec fn view(&self) -> InfoFieldView {
        InfoFieldView { template: self.template@, key: self.key@, value: self.value@ }
    }
}

/// The field, where `shown`.
pub open spec fn field_if(shown: bool, template: Seq<char>, key: Seq<char>, value: InfoValueView) -> Seq<InfoFieldView> {
    if shown {
        seq![InfoFieldView { template, key, value }]
    } else {
        Seq::empty()
    }
}

/// The info block's fields in order (name, artists, album, genres,
/// popularity), each where the configuration shows it.
pub open spec fn planned_fields(d: DisplayConfig, t: TrackMetadata) -> Seq<InfoFieldView> {
    field_if(d.show_name, d.name_format@, "name"@, InfoValueView::Text(t.track_name@))
        + field_if(d.show_artists, d.artists_format@, "artists"@, InfoValueView::Texts(texts_view(t.track_artists@)))
        + field_if(d.show_album, d.album_format@, "album"@, InfoValueView::Text(t.track_album@))
        + field_if(d.show_genres, d.genres_format@, "genres"@, InfoValueView::Texts(texts_view(t.artist_genres@)))
        + field_if(d.show_popularity, d.popularity_format@, "popularity"@, InfoValueView::Number(t.popularity))
}

/// Copies a list of texts.
pub fn copy_texts(v: &Vec<String>) -> (r: Vec<String>)
    ensures
        r@ == v@,
{
    let mut r: Vec<String> = Vec::new();
    let mut i: usize = 0;
    while i < v.len()
        invariant
            i <= v@.len(),
            r@ == v@.subrange(0, i as int),
        decreases v@.len() - i,
    {
        r.push(v[i].clone());
        i = i + 1;
    }
    assert(r@ == v@.subrange(0, v@.len() as int));
    r
}

fn push_field(out: &mut Vec<InfoField>, shown: bool, template: &String, key: &str, value: InfoValue)
    ensures
        final(out)@.map_values(|f: InfoField| f@) == old(out)@.map_values(|f: InfoField| f@) + field_if(
            shown,
            template@,
            key@,
            value@,
        ),
{
    let ghost before = out@;
    if shown {
        out.push(InfoField { template: template.clone(), key: key.to_owned(), value });
        assert(out@.map_values(|f: InfoField| f@) =~= before.map_values(|f: InfoField| f@) + field_if(
            shown,
            template@,
            key@,
            value@,
        ));
    } else {
        assert(out@.map_values(|f: InfoField| f@) =~= before.map_values(|f: InfoField| f@) + field_if(
            shown,
            template@,
            key@,
            value@,
        ));
    }
}

/// The templates that the info block renders for a track, in order, each
/// with the value it is rendered with.
pub fn info_fields(display: &DisplayConfig, track: &TrackMetadata) -> (r: Vec<InfoField>)
    ensures
        r@.map_values(|f: InfoField| f@) == planned_fields(*display, *track),
{
    let mut r: Vec<InfoField> = Vec::new();
    proof {
        reveal_strlit("name");
        reveal_strlit("artists");
        reveal_strlit("album");
        reveal_strlit("genres");
        reveal_strlit("popularity");
        assert(r@.map_values(|f: InfoField| f@) =~= Seq::empty());
    }
    push_field(&mut r, display.show_name, &display.name_format, "name", InfoValue::Text(track.track_name.clone()));
    push_field(
        &mut r,
        display.show_artists,
        &display.artists_format,
        "artists",
        InfoValue::Texts(copy_texts(&track.track_artists)),
    );
    push_field(&mut r, display.show_album, &display.album_format, "album", InfoValue::Text(track.track_album.clone()));
    push_field(
        &mut r,
        display.show_genres,
        &display.genres_format,
        "genres",
        InfoValue::Texts(copy_texts(&track.artist_genres)),
    );
    push_field(
        &mut r,
        display.show_popularity,
        &display.popularity_format,
        "popularity",
        InfoValue::Number(track.popularity),
    );
    r
}

/// What the info block is rendered from: the lyrics' language, lines and sync
/// mode, and the displayed metadata of the track.
pub ghost struct InfoIdentity {
    pub language: Seq<char>,
    pub lines: Seq<(u32, Seq<char>)>,
    pub sync_type: LyricSyncType,
    pub popularity: u32,
    pub artists: Seq<Seq<char>>,
    pub album: Seq<char>,
    pub genres: Seq<Seq<char>>,
    pub name: Seq<char>,
}

/// Each line's start offset and words.
pub open spec fn lines_view(lines: Seq<LyricLine>) -> Seq<(u32, Seq<char>)> {
    lines.map_values(|l: LyricLine| (l.start_time_ms, l.words@))
}

/// What the info block of a tracker is rendered from.
pub open spec fn info_identity(t: LyricsTracker) -> InfoIdentity {
    InfoIdentity {
        language: t.lyrics.language@,
        lines: lines_view(t.lyrics.lines@),
        sync_type: t.lyrics.sync_type,
        popularity: t.track_data.popularity,
        artists: texts_view(t.track_data.track_artists@),
        album: t.track_data.track_album@,
        genres: texts_view(t.track_data.artist_genres@),
        name: t.track_data.track_name@,
    }
}

proof fn lines_writes_by_view(a: Seq<LyricLine>, b: Seq<LyricLine>)
    requires
        lines_view(a) == lines_view(b),
    ensures
        lines_writes(a) == lines_writes(b),
    decreases a.len(),
{
    assert(a.len() == lines_view(a).len());
    if a.len() > 0 {
        assert(lines_view(a.drop_last()) =~= lines_view(a).drop_last());
        assert(lines_view(b.drop_last()) =~= lines_view(b).drop_last());
        lines_writes_by_view(a.drop_last(), b.drop_last());
        assert(lines_view(a)[a.len() - 1] == lines_view(b)[a.len() - 1]);
    }
}

proof fn texts_writes_by_view(a: Seq<String>, b: Seq<String>)
    requires
        texts_view(a) == texts_view(b),
    ensures
        texts_writes(a) == texts_writes(b),
    decreases a.len(),
{
    assert(a.len() == texts_view(a).len());
    if a.len() > 0 {
        assert(texts_view(a.drop_last()) =~= texts_view(a).drop_last());
        assert(texts_view(b.drop_last()) =~= texts_view(b).drop_last());
        texts_writes_by_view(a.drop_last(), b.drop_last());
        assert(texts_view(a)[a.len() - 1] == texts_view(b)[a.len() - 1]);
    }
}

/// Trackers with the same displayed content hash alike.
pub proof fn same_identity_same_hash(a: LyricsTracker, b: LyricsTracker)
    requires
        info_identity(a) == info_identity(b),
    ensures
        identity_writes(a) == identity_writes(b),
{
    lines_writes_by_view(a.lyrics.lines@, b.lyrics.lines@);
    texts_writes_by_view(a.track_data.track_artists@, b.track_data.track_artists@);
    texts_writes_by_view(a.track_data.artist_genres@, b.track_data.artist_genres@);
    assert(a.lyrics.lines@.len() == lines_view(a.lyrics.lines@).len());
    assert(b.lyrics.lines@.len() == lines_view(b.lyrics.lines@).len());
    assert(a.track_data.track_artists@.len() == texts_view(a.track_data.track_artists@).len());
    assert(b.track_data.track_artists@.len() == texts_view(b.track_data.track_artists@).len());
    assert(a.track_data.artist_genres@.len() == texts_view(a.track_data.artist_genres@).len());
    assert(b.track_data.artist_genres@.len() == texts_view(b.track_data.artist_genres@).len());
}

fn same_texts(a: &Vec<String>, b: &Vec<String>) -> (r: bool)
    ensures
        r == (texts_view(a@) == texts_view(b@)),
{
    if a.len() != b.len() {
        assert(texts_view(a@).len() != texts_view(b@).len());
        return false;
    }
    let mut i: usize = 0;
    while i < a.len()
        invariant
            a@.len() == b@.len(),
            i <= a@.len(),
            forall|j: int| 0 <= j < i ==> #[trigger] a@[j]@ == b@[j]@,
        decreases a@.len() - i,
    {
        if a[i] != b[i] {
            assert(texts_view(a@)[i as int] != texts_view(b@)[i as int]);
            return false;
        }
        i = i + 1;
    }
    assert(texts_view(a@) =~= texts_view(b@));
    true
}

fn same_lines(a: &Vec<LyricLine>, b: &Vec<LyricLine>) -> (r: bool)
    ensures
        r == (lines_view(a@) == lines_view(b@)),
{
    if a.len() != b.len() {
        assert(lines_view(a@).len() != lines_view(b@).len());
        return false;
    }
    let mut i: usize = 0;
    while i < a.len()
        invariant
            a@.len() == b@.len(),
            i <= a@.len(),
            forall|j: int| 0 <= j < i ==> #[trigger] lines_view(a@)[j] == lines_view(b@)[j],
        decreases a@.len() - i,
    {
        if a[i].start_time_ms != b[i].start_time_ms || a[i].words != b[i].words {
            assert(lines_view(a@)[i as int] != lines_view(b@)[i as int]);
            return false;
        }
        i = i + 1;
    }
    assert(lines_view(a@) =~= lines_view(b@));
    true
}

/// Whether two trackers show the same content in the info block.
pub fn same_identity(a: &LyricsTracker, b: &LyricsTracker) -> (r: bool)
    ensures
        r == (info_identity(*a) == info_identity(*b)),
{
    a.lyrics.language == b.lyrics.language && same_lines(&a.lyrics.lines, &b.lyrics.lines)
        && a.lyrics.sync_type == b.lyrics.sync_type && a.track_data.popularity == b.track_data.popularity
        && same_texts(&a.track_data.track_artists, &b.track_data.track_artists)
        && a.track_data.track_album == b.track_data.track_album
        && same_texts(&a.track_data.artist_genres, &b.track_data.artist_genres)
        && a.track_data.track_name == b.track_data.track_name
}

/// A copy of what the info block shows of a tracker.
fn copy_identity(t: &LyricsTracker) -> (r: LyricsTracker)
    ensures
        info_identity(r) == info_identity(*t),
{
    let lines = copy_lines(&t.lyrics.lines);
    let r = LyricsTracker {
        lyrics: crate::lyrics::Lyrics {
            sync_type: t.lyrics.sync_type,
            lines,
            language: t.lyrics.language.clone(),
        },
        current_line: t.current_line,
        current_progress_ms: t.current_progress_ms,
        track_data: TrackMetadata {
            track_name: t.track_data.track_name.clone(),
            track_artists: copy_texts(&t.track_data.track_artists),
            track_album: t.track_data.track_album.clone(),
            track_duration_ms: t.track_data.track_duration_ms,
            artist_genres: copy_texts(&t.track_data.artist_genres),
            popularity: t.track_data.popularity,
        },
    };
    r
}

/// The info block's last rendering, with the content and the content hash it
/// was made from.
#[derive(Debug)]
pub struct InfoCache {
    pub last_hash: u64,
    pub last_content: Option<LyricsTracker>,
    pub lines: Vec<String>,
}

impl InfoCache {
    /// The stored hash is that of the stored content.
    pub open spec fn wf(self) -> bool {
        self.last_content matches Some(k) ==> self.last_hash == DefaultHasher::spec_finish(
            identity_writes(k),
        )
    }

    /// The stored lines were rendered from content that `t` shows too.
    pub open spec fn fresh_for(self, t: LyricsTracker) -> bool {
        self.last_content matches Some(k) && info_identity(k) == info_identity(t)
    }

    /// A cache that has rendered nothing yet.
    pub fn new() -> (r: InfoCache)
        ensures
            r.wf(),
            r.last_content.is_none(),
            r.lines@.len() == 0,
    {
        InfoCache { last_hash: 0, last_content: None, lines: Vec::new() }
    }

    /// Whether the stored lines may be shown for `t` as they are: the content
    /// hash matches and so does the content.
    pub fn is_fresh(&self, t: &LyricsTracker) -> (r: bool)
        requires
            self.wf(),
        ensures
            r == self.fresh_for(*t),
    {
        match &self.last_content {
            None => false,
            Some(k) => {
                let h = t.identity_hash();
                if h != self.last_hash {
                    proof {
                        if info_identity(*k) == info_identity(*t) {
                            same_identity_same_hash(*k, *t);
                        }
                    }
                    false
                } else {
                    same_identity(k, t)
                }
            },
        }
    }

    /// Records `lines` as the rendering of what `t` shows.
    pub fn store(&mut self, t: &LyricsTracker, lines: Vec<String>)
        ensures
            final(self).wf(),
            final(self).fresh_for(*t),
            final(self).lines == lines,
    {
        let key = copy_identity(t);
        self.last_hash = key.identity_hash();
        self.last_content = Some(key);
        self.lines = lines;
    }

    /// The info block for `t`: the stored lines where they were rendered from
    /// the content that `t` shows, without rendering anything; otherwise each
    /// field that `display` shows is rendered once with `render_field`, in
    /// order, and the new lines are stored and returned.
    pub fn render<F: Fn(&InfoField) -> String>(
        &mut self,
        t: &LyricsTracker,
        display: &DisplayConfig,
        render_field: F,
    ) -> (r: Vec<String>)
        requires
            old(self).wf(),
            forall|f: &InfoField| render_field.requires((f,)),
        ensures
            final(self).wf(),
            final(self).fresh_for(*t),
            r@ == final(self).lines@,
            old(self).fresh_for(*t) ==> *final(self) == *old(self),
            !old(self).fresh_for(*t) ==> Self::rendered_from(final(self).lines@, planned_fields(*display, t.track_data), render_field),
    {
        if self.is_fresh(t) {
            return copy_texts(&self.lines);
        }
        let fields = info_fields(display, &t.track_data);
        let ghost planned = planned_fields(*display, t.track_data);
        let mut lines: Vec<String> = Vec::new();
        let mut i: usize = 0;
        while i < fields.len()
            invariant
                i <= fields@.len(),
                lines@.len() == i,
                fields@.map_values(|f: InfoField| f@) == planned,
                forall|f: &InfoField| render_field.requires((f,)),
                forall|j: int| 0 <= j < i ==> render_field.ensures((&fields@[j],), #[trigger] lines@[j]),
            decreases fields@.len() - i,
        {
            let line = render_field(&fields[i]);
            lines.push(line);
            i = i + 1;
        }
        proof {
            assert(planned.len() == fields@.len());
            assert forall|j: int| 0 <= j < lines@.len() implies Self::rendered_line(
                #[trigger] lines@[j],
                planned[j],
                render_field,
            ) by {
                assert(fields@.map_values(|f: InfoField| f@)[j] == fields@[j]@);
                assert(render_field.ensures((&fields@[j],), lines@[j]));
            }
            assert(lines@.len() == planned.len());
            assert(Self::rendered_from(lines@, planned, render_field));
        }
        let ghost made = lines@;
        self.store(t, lines);
        assert(self.lines@ == made);
        copy_texts(&self.lines)
    }

    /// Each of `lines` is what `render_field` made of the planned field at its place.
    pub open spec fn rendered_from<F: Fn(&InfoField) -> String>(
        lines: Seq<String>,
        planned: Seq<InfoFieldView>,
        render_field: F,
    ) -> bool {
        &&& lines.len() == planned.len()
        &&& forall|j: int| 0 <= j < lines.len() ==> Self::rendered_line(#[trigger] lines[j], planned[j], render_field)
    }

    /// `line` is what `render_field` made of a field that reads as `field`.
    pub open spec fn rendered_line<F: Fn(&InfoField) -> String>(line: String, field: InfoFieldView, render_field: F) -> bool {
        exists|f: InfoField| f@ == field && #[trigger] render_field.ensures((&f,), line)
    }

    /// The stored rendering.
    pub fn cached_lines(&self) -> (r: &Vec<String>)
        ensures
            r == self.lines,
    {
        &self.lines
    }
}

/// Once the cache holds the rendering of `t`, a tracker is served from it
/// exactly when it shows the same content: a difference in any one field of
/// that content calls for a new rendering.
pub proof fn cache_serves_same_content(c: InfoCache, t: LyricsTracker, u: LyricsTracker)
    requires
        c.fresh_for(t),
    ensures
        c.fresh_for(u) <==> info_identity(t) == info_identity(u),
        t.lyrics.language@ != u.lyrics.language@ ==> !c.fresh_for(u),
        lines_view(t.lyrics.lines@) != lines_view(u.lyrics.lines@) ==> !c.fresh_for(u),
        t.lyrics.sync_type != u.lyrics.sync_type ==> !c.fresh_for(u),
        t.track_data.popularity != u.track_data.popularity ==> !c.fresh_for(u),
        texts_view(t.track_data.track_artists@) != texts_view(u.track_data.track_artists@) ==> !c.fresh_for(u),
        t.track_data.track_album@ != u.track_data.track_album@ ==> !c.fresh_for(u),
        texts_view(t.track_data.artist_genres@) != texts_view(u.track_data.artist_genres@) ==> !c.fresh_for(u),
        t.track_data.track_name@ != u.track_data.track_name@ ==> !c.fresh_for(u),
{
}

} // verus!
