use vstd::prelude::*;
use vstd::string::{StrSliceExecFns, StringExecFns};

verus! {

/// Where the player's client id and the lyrics service live.
#[derive(Debug, Clone)]
pub struct ApiConfiguration {
    pub spotify_client_id: String,
    pub lyricstify_api_url: String,
}

/// Romanization, scrolling and the info block's layout.
#[derive(Debug, Clone)]
pub struct GeneralConfiguration {
    pub romanize_unicode: bool,
    pub romanize_exclude: Vec<String>,
    pub romanize_track_names: bool,
    pub scroll_offset: u32,
    pub display: DisplayConfig,
}

/// Which fields the info block shows, and the template of each.
#[derive(Debug, Clone)]
pub struct DisplayConfig {
    pub show_name: bool,
    pub name_format: String,
    pub show_artists: bool,
    pub artists_format: String,
    pub show_album: bool,
    pub album_format: String,
    pub show_genres: bool,
    pub genres_format: String,
    pub show_popularity: bool,
    pub popularity_format: String,
}

/// A configuration section written out in place, or the name of the file,
/// under the configuration directory, that holds it.
#[derive(Debug, Clone)]
pub enum MaybeLink<V> {
    Explicit(V),
    Link { path: String },
}

/// The value of a hexadecimal digit, in either case.
pub open spec fn hex_digit(c: char) -> Option<nat> {
    if '0' <= c <= '9' {
        Some((c as u32 - '0' as u32) as nat)
    } else if 'a' <= c <= 'f' {
        Some((c as u32 - 'a' as u32 + 10) as nat)
    } else if 'A' <= c <= 'F' {
        Some((c as u32 - 'A' as u32 + 10) as nat)
    } else {
        None
    }
}

/// The number that a non-empty run of hexadecimal digits denotes.
pub open spec fn hex_number(s: Seq<char>) -> Option<nat>
    decreases s.len(),
{
    if s.len() == 0 {
        None
    } else if s.len() == 1 {
        hex_digit(s[0])
    } else {
        match (hex_number(s.drop_last()), hex_digit(s.last())) {
            (Some(a), Some(d)) => Some(a * 16 + d),
            _ => None,
        }
    }
}

/// A hexadecimal `u32` as `u32::from_str_radix` reads it: an optional `+`,
/// then digits, with a value that fits.
pub open spec fn hex_u32(s: Seq<char>) -> Option<u32> {
    let digits = if s.len() > 0 && s[0] == '+' {
        s.drop_first()
    } else {
        s
    };
    match hex_number(digits) {
        Some(n) => if n <= u32::MAX {
            Some(n as u32)
        } else {
            None
        },
        None => None,
    }
}

/// Relies on `u32::from_str_radix` in base 16: an optional `+` sign and hex
/// digits of either case, whose value must fit in a `u32`.
#[verifier::external_body]
fn parse_hex_u32(s: &str) -> (r: Option<u32>)
    ensures
        r == hex_u32(s@),
{
    u32::from_str_radix(s, 16).ok()
}

/// How a color setting reads: `#` and a hex number give red, green and blue
/// from its three low bytes; `#` and anything else is malformed; other text
/// names a color.
#[derive(Debug, Clone, Copy, PartialEq, Eq, Structural)]
pub enum ColorSetting {
    Rgb { r: u8, g: u8, b: u8 },
    BadHex,
    Named,
}

/// How the text of a color setting reads.
pub open spec fn color_setting(v: Seq<char>) -> ColorSetting {
    if v.len() > 0 && v[0] == '#' {
        match hex_u32(v.drop_first()) {
            Some(n) => ColorSetting::Rgb {
                r: ((n / 0x10000) % 0x100) as u8,
                g: ((n / 0x100) % 0x100) as u8,
                b: (n % 0x100) as u8,
            },
            None => ColorSetting::BadHex,
        }
    } else {
        ColorSetting::Named
    }
}

/// Reads a color setting; see `ColorSetting`.
pub fn read_color_setting(v: &str) -> (r: ColorSetting)
    ensures
        r == color_setting(v@),
{
    let n = v.unicode_len();
    if n == 0 || v.get_char(0) != '#' {
        return ColorSetting::Named;
    }
    let digits = v.substring_char(1, n);
    assert(digits@ =~= v@.drop_first());
    match parse_hex_u32(digits) {
        Some(x) => ColorSetting::Rgb {
            r: ((x / 0x10000) % 0x100) as u8,
            g: ((x / 0x100) % 0x100) as u8,
            b: (x % 0x100) as u8,
        },
        None => ColorSetting::BadHex,
    }
}

/// The border styles a setting can name.
#[derive(Debug, Clone, Copy, PartialEq, Eq, Structural)]
pub enum BorderSetting {
    Plain,
    Rounded,
    Double,
    Thick,
}

/// The border style that a setting names by its exact name, if any.
pub open spec fn border_setting(v: Seq<char>) -> Option<BorderSetting> {
    if v == "Plain"@ {
        Some(BorderSetting::Plain)
    } else if v == "Rounded"@ {
        Some(BorderSetting::Rounded)
    } else if v == "Double"@ {
        Some(BorderSetting::Double)
    } else if v == "Thick"@ {
        Some(BorderSetting::Thick)
    } else {
        None
    }
}

/// Reads a border style setting; see `border_setting`.
pub fn read_border_setting(v: &str) -> (r: Option<BorderSetting>)
    ensures
        r == border_setting(v@),
{
    let text = v.to_owned();
    if text == String::from_str("Plain") {
        Some(BorderSetting::Plain)
    } else if text == String::from_str("Rounded") {
        Some(BorderSetting::Rounded)
    } else if text == String::from_str("Double") {
        Some(BorderSetting::Double)
    } else if text == String::from_str("Thick") {
        Some(BorderSetting::Thick)
    } else {
        None
    }
}

} // verus!
