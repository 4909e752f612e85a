use vstd::prelude::*;
use vstd::string::{StrSliceExecFns, StringExecFns};

use crate::config::GeneralConfiguration;
use crate::info::texts_view;
use crate::lyrics::{LyricSyncType, Lyrics};
use crate::view::is_active_line;

verus! {

/// What `deunicode::deunicode_with_tofu` makes of a text, with the given
/// placeholder for characters it cannot transliterate.
pub uninterp spec fn transliterated(s: Seq<char>, placeholder: Seq<char>) -> Seq<char>;

/// The placeholder for characters that have no transliteration.
pub const TOFU: &'static str = "[?]";

/// Relies on `deunicode::deunicode_with_tofu`: the ASCII transliteration of a
/// text; a text whose characters all lie below U+007F comes back unchanged.
#[verifier::external_body]
pub(crate) fn transliterate(s: &str, placeholder: &str) -> (r: String)
    ensures
        r@ == transliterated(s@, placeholder@),
        (forall|i: int| 0 <= i < s@.len() ==> (#[trigger] s@[i] as u32) < 0x7f) ==> r@ == s@,
{
    deunicode::deunicode_with_tofu(s, placeholder)
}

/// Whether `language` is the English tag.
pub fn is_english(language: &str) -> (r: bool)
    ensures
        r == (language@ == "en"@),
{
    proof {
        reveal_strlit("en");
    }
    let n = language.unicode_len();
    if n != 2 {
        return false;
    }
    let r = language.get_char(0) == 'e' && language.get_char(1) == 'n';
    proof {
        if r {
            assert(language@ =~= "en"@);
        }
    }
    r
}

/// Whether the configuration leaves `language` out of romanization.
pub fn is_excluded(general: &GeneralConfiguration, language: &str) -> (r: bool)
    ensures
        r == texts_view(general.romanize_exclude@).contains(language@),
{
    let lang = language.to_owned();
    let mut i: usize = 0;
    while i < general.romanize_exclude.len()
        invariant
            i <= general.romanize_exclude@.len(),
            lang@ == language@,
            forall|j: int| 0 <= j < i ==> #[trigger] texts_view(general.romanize_exclude@)[j] != language@,
        decreases general.romanize_exclude@.len() - i,
    {
        if general.romanize_exclude[i] == lang {
            assert(texts_view(general.romanize_exclude@)[i as int] == language@);
            return true;
        }
        i = i + 1;
    }
    proof {
        if texts_view(general.romanize_exclude@).contains(language@) {
            let k = choose|k: int|
                0 <= k < texts_view(general.romanize_exclude@).len() && texts_view(
                    general.romanize_exclude@,
                )[k] == language@;
            assert(texts_view(general.romanize_exclude@)[k] != language@);
        }
    }
    false
}

/// Lyric lines in `language` are shown with a romanization.
pub open spec fn romanizes_lines(g: GeneralConfiguration, language: Seq<char>) -> bool {
    &&& g.romanize_unicode
    &&& language != "en"@
    &&& !texts_view(g.romanize_exclude@).contains(language)
}

/// Track names are shown with a romanization.
pub open spec fn romanizes_names(g: GeneralConfiguration, language: Seq<char>) -> bool {
    romanizes_lines(g, language) && g.romanize_track_names
}

/// Whether lyric lines in `language` get a romanization.
pub fn lines_romanized(general: &GeneralConfiguration, language: &str) -> (r: bool)
    ensures
        r == romanizes_lines(*general, language@),
{
    general.romanize_unicode && !is_english(language) && !is_excluded(general, language)
}

/// The track name as the display shows it: where track names are romanized
/// and the transliteration differs, `name (transliteration)`; otherwise the
/// name as it is.
pub fn maybe_romanize_str(name: &str, language: &str, general: &GeneralConfiguration) -> (r: String)
    ensures
        r@ == if romanizes_names(*general, language@) && transliterated(name@, TOFU@) != name@ {
            name@ + " ("@ + transliterated(name@, TOFU@) + ")"@
        } else {
            name@
        },
{
    if general.romanize_track_names && lines_romanized(general, language) {
        let romanized = transliterate(name, TOFU);
        let plain = name.to_owned();
        if romanized == plain {
            plain
        } else {
            plain.concat(" (").concat(romanized.as_str()).concat(")")
        }
    } else {
        name.to_owned()
    }
}

/// One line of the lyrics view: the words, their romanization where the view
/// shows one, and whether the line is drawn as the active one.
#[derive(Debug, Clone, PartialEq)]
pub struct LyricRow {
    pub words: String,
    pub romanized: Option<String>,
    pub active: bool,
}

/// The romanization shown under a line, if any.
pub open spec fn row_romanization(g: GeneralConfiguration, language: Seq<char>, words: Seq<char>) -> Option<
    Seq<char>,
> {
    if romanizes_lines(g, language) && transliterated(words, TOFU@) != words {
        Some(transliterated(words, TOFU@))
    } else {
        None
    }
}

/// `row` is what the view shows of line `i` of `lyrics`.
pub open spec fn row_of(row: LyricRow, lyrics: Lyrics, current_line: isize, g: GeneralConfiguration, i: int) -> bool {
    &&& row.words@ == lyrics.lines@[i].words@
    &&& row.active == (i == current_line as int && lyrics.sync_type != LyricSyncType::Unsynced)
    &&& row_romanization(g, lyrics.language@, row.words@) == match row.romanized {
        Some(t) => Some(t@),
        None => None::<Seq<char>>,
    }
}

/// The rows of the lyrics view, one per line in order.
pub fn lyric_rows(lyrics: &Lyrics, current_line: isize, general: &GeneralConfiguration) -> (r: Vec<LyricRow>)
    ensures
        r@.len() == lyrics.lines@.len(),
        forall|i: int| 0 <= i < r@.len() ==> row_of(#[trigger] r@[i], *lyrics, current_line, *general, i),
{
    let romanize = lines_romanized(general, lyrics.language.as_str());
    let mut r: Vec<LyricRow> = Vec::new();
    let mut i: usize = 0;
    while i < lyrics.lines.len()
        invariant
            i <= lyrics.lines@.len(),
            r@.len() == i,
            romanize == romanizes_lines(*general, lyrics.language@),
            forall|j: int| 0 <= j < i ==> row_of(#[trigger] r@[j], *lyrics, current_line, *general, j),
        decreases lyrics.lines@.len() - i,
    {
        let words = lyrics.lines[i].words.clone();
        let romanized = if romanize {
            let t = transliterate(words.as_str(), TOFU);
            if t == words {
                None
            } else {
                Some(t)
            }
        } else {
            None
        };
        let active = is_active_line(i, current_line, lyrics.sync_type);
        r.push(LyricRow { words, romanized, active });
        i = i + 1;
    }
    r
}

} // verus!
