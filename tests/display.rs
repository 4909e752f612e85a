use verses::callback::{parse_callback_request, CALLBACK_RESPONSE, REQUEST_SPAN_LEN};
use verses::config::{
    read_border_setting, read_color_setting, BorderSetting, ColorSetting, DisplayConfig, GeneralConfiguration,
};
use verses::event::TrackMetadata;
use verses::info::{info_fields, same_identity, InfoCache, InfoField, InfoValue};
use std::cell::Cell;
use verses::lyrics::{LyricLine, LyricSyncType, Lyrics};
use verses::romanize::{is_english, is_excluded, lines_romanized, lyric_rows, maybe_romanize_str};
use verses::tracker::LyricsTracker;
use verses::view::{fmt_duration, is_active_line, scroll_position, ScrollState, UiKey};

fn general(romanize: bool, names: bool, exclude: &[&str]) -> GeneralConfiguration {
    GeneralConfiguration {
        romanize_unicode: romanize,
        romanize_exclude: exclude.iter().map(|s| s.to_string()).collect(),
        romanize_track_names: names,
        scroll_offset: 3,
        display: display(true),
    }
}

fn display(all: bool) -> DisplayConfig {
    DisplayConfig {
        show_name: true,
        name_format: "Name: {{name}}".to_string(),
        show_artists: all,
        artists_format: "By: {{join artists}}".to_string(),
        show_album: true,
        album_format: "On: {{album}}".to_string(),
        show_genres: all,
        genres_format: "Genres: {{join genres}}".to_string(),
        show_popularity: all,
        popularity_format: "Popularity: {{popularity}}".to_string(),
    }
}

fn tracker() -> LyricsTracker {
    let mut t = LyricsTracker::new();
    t.lyrics = Lyrics {
        sync_type: LyricSyncType::LineSynced,
        lines: vec![
            LyricLine { start_time_ms: 0, words: "one".to_string() },
            LyricLine { start_time_ms: 1000, words: "two".to_string() },
        ],
        language: "en".to_string(),
    };
    t.track_data = TrackMetadata {
        track_name: "Song".to_string(),
        track_artists: vec!["X".to_string(), "Y".to_string()],
        track_album: "Album".to_string(),
        track_duration_ms: 180000,
        artist_genres: vec!["rock".to_string()],
        popularity: 77,
    };
    t
}

fn request(code: &str, state: &str) -> Vec<u8> {
    let text = format!("GET /callback?code={code}&state={state}");
    text.into_bytes()
}

#[test]
fn callback_returns_code_and_state() {
    let code = "c".repeat(270) + "ABC-_9";
    let state = "0123456789abcdef";
    let req = request(&code, state);
    assert_eq!(req.len(), REQUEST_SPAN_LEN);
    let (c, s) = parse_callback_request(&req).unwrap();
    assert_eq!(c, code);
    assert_eq!(s, state);
}

#[test]
fn callback_rejects_malformed_spans() {
    let code = "q".repeat(276);
    let mut req = request(&code, "0123456789abcdef");
    assert!(parse_callback_request(&req[..REQUEST_SPAN_LEN - 1]).is_none());
    req[40] = 0xff;
    assert!(parse_callback_request(&req).is_none());
    let mut accented = request(&"q".repeat(274), "0123456789abcdef");
    accented.splice(19..19, "é".bytes());
    assert_eq!(accented.len(), REQUEST_SPAN_LEN);
    assert!(parse_callback_request(&accented).is_none());
    assert!(parse_callback_request(&[]).is_none());
}

#[test]
fn callback_rejects_wrong_layout() {
    let code = "k".repeat(276);
    let state = "0123456789abcdef";
    let good = request(&code, state);
    assert!(parse_callback_request(&good).is_some());
    let wrong_prefix = format!("GET /callbacc?code={code}&state={state}").into_bytes();
    assert_eq!(wrong_prefix.len(), REQUEST_SPAN_LEN);
    assert!(parse_callback_request(&wrong_prefix).is_none());
    let wrong_separator = format!("GET /callback?code={code}&stat=x{state}").into_bytes();
    assert_eq!(wrong_separator.len(), REQUEST_SPAN_LEN);
    assert!(parse_callback_request(&wrong_separator).is_none());
    let post = format!("PUT /callback?code={code}&state={state}").into_bytes();
    assert!(parse_callback_request(&post).is_none());
    assert!(parse_callback_request(&vec![b'A'; REQUEST_SPAN_LEN]).is_none());
}

#[test]
fn callback_response_is_a_plain_ok() {
    assert!(CALLBACK_RESPONSE.starts_with("HTTP/1.1 200 OK"));
    assert!(CALLBACK_RESPONSE.ends_with("Success! You may now close this window."));
    assert_eq!("Success! You may now close this window.".len(), 39);
}

#[test]
fn identity_hash_follows_content() {
    let a = tracker();
    let mut b = tracker();
    b.current_line = 1;
    b.current_progress_ms = 999;
    assert_eq!(a.identity_hash(), b.identity_hash());
    b.track_data.popularity = 78;
    assert_ne!(a.identity_hash(), b.identity_hash());
}

#[test]
fn cache_serves_identical_content() {
    let t = tracker();
    let mut cache = InfoCache::new();
    assert!(!cache.is_fresh(&t));
    cache.store(&t, vec!["rendered".to_string()]);
    let same = tracker();
    assert!(cache.is_fresh(&same));
    assert_eq!(cache.cached_lines(), &vec!["rendered".to_string()]);
}

#[test]
fn cache_invalidated_by_any_field() {
    let t = tracker();
    let mut cache = InfoCache::new();
    cache.store(&t, vec!["rendered".to_string()]);
    let changes: Vec<fn(&mut LyricsTracker)> = vec![
        |t| t.lyrics.language = "ja".to_string(),
        |t| t.lyrics.lines[1].words = "three".to_string(),
        |t| t.lyrics.lines[1].start_time_ms = 1001,
        |t| t.lyrics.lines.pop().map(|_| ()).unwrap_or(()),
        |t| t.lyrics.sync_type = LyricSyncType::Unsynced,
        |t| t.track_data.popularity = 1,
        |t| t.track_data.track_artists.push("Z".to_string()),
        |t| t.track_data.track_album = "Other".to_string(),
        |t| t.track_data.artist_genres.clear(),
        |t| t.track_data.track_name = "Other".to_string(),
    ];
    for change in changes {
        let mut u = tracker();
        change(&mut u);
        assert!(!same_identity(&t, &u));
        assert!(!cache.is_fresh(&u));
    }
    let mut u = tracker();
    u.current_line = 1;
    u.track_data.track_duration_ms = 1;
    assert!(cache.is_fresh(&u));
}

#[test]
fn info_fields_follow_display_config() {
    let t = tracker();
    let all = info_fields(&display(true), &t.track_data);
    assert_eq!(all.len(), 5);
    assert_eq!(
        all[0],
        InfoField { template: "Name: {{name}}".to_string(), key: "name".to_string(), value: InfoValue::Text("Song".to_string()) }
    );
    assert_eq!(all[1].key, "artists");
    assert_eq!(all[1].value, InfoValue::Texts(vec!["X".to_string(), "Y".to_string()]));
    assert_eq!(all[2].value, InfoValue::Text("Album".to_string()));
    assert_eq!(all[3].value, InfoValue::Texts(vec!["rock".to_string()]));
    assert_eq!(all[4].key, "popularity");
    assert_eq!(all[4].value, InfoValue::Number(77));
    let some = info_fields(&display(false), &t.track_data);
    let keys: Vec<&str> = some.iter().map(|f| f.key.as_str()).collect();
    assert_eq!(keys, vec!["name", "album"]);
}

#[test]
fn track_name_romanized_where_configured() {
    let g = general(true, true, &[]);
    assert_eq!(maybe_romanize_str("北亰", "zh", &g), "北亰 (Bei Jing)");
    assert_eq!(maybe_romanize_str("Plain", "de", &g), "Plain");
    assert_eq!(maybe_romanize_str("北亰", "en", &g), "北亰");
    assert_eq!(maybe_romanize_str("北亰", "zh", &general(true, false, &[])), "北亰");
    assert_eq!(maybe_romanize_str("北亰", "zh", &general(false, true, &[])), "北亰");
    assert_eq!(maybe_romanize_str("北亰", "zh", &general(true, true, &["zh"])), "北亰");
}

#[test]
fn language_checks() {
    assert!(is_english("en"));
    assert!(!is_english("eng"));
    assert!(!is_english("ne"));
    assert!(!is_english(""));
    let g = general(true, true, &["ko", "ja"]);
    assert!(is_excluded(&g, "ja"));
    assert!(!is_excluded(&g, "j"));
    assert!(!lines_romanized(&g, "ja"));
    assert!(lines_romanized(&g, "zh"));
    assert!(!lines_romanized(&g, "en"));
}

#[test]
fn rows_mark_active_line_and_romanize() {
    let lyrics = Lyrics {
        sync_type: LyricSyncType::LineSynced,
        lines: vec![
            LyricLine { start_time_ms: 0, words: "Æneid".to_string() },
            LyricLine { start_time_ms: 10, words: "plain".to_string() },
        ],
        language: "la".to_string(),
    };
    let rows = lyric_rows(&lyrics, 1, &general(true, false, &[]));
    assert_eq!(rows.len(), 2);
    assert_eq!(rows[0].words, "Æneid");
    assert_eq!(rows[0].romanized, Some("AEneid".to_string()));
    assert!(!rows[0].active);
    assert_eq!(rows[1].romanized, None);
    assert!(rows[1].active);
    let plain = lyric_rows(&lyrics, 0, &general(false, false, &[]));
    assert_eq!(plain[0].romanized, None);
    assert!(plain[0].active);
    let unsynced = Lyrics { sync_type: LyricSyncType::Unsynced, ..lyrics };
    assert!(lyric_rows(&unsynced, 0, &general(false, false, &[])).iter().all(|r| !r.active));
}

#[test]
fn active_line_needs_timing() {
    assert!(is_active_line(2, 2, LyricSyncType::LineSynced));
    assert!(!is_active_line(2, 2, LyricSyncType::Unsynced));
    assert!(!is_active_line(0, -1, LyricSyncType::LineSynced));
    assert!(!is_active_line(usize::MAX, -1, LyricSyncType::LineSynced));
}

#[test]
fn duration_labels() {
    assert_eq!(fmt_duration(0), "00:00");
    assert_eq!(fmt_duration(999), "00:00");
    assert_eq!(fmt_duration(65000), "01:05");
    assert_eq!(fmt_duration(200000), "03:20");
    assert_eq!(fmt_duration(3600000), "60:00");
    assert_eq!(fmt_duration(u32::MAX), "71582:47");
}

#[test]
fn keys_drive_scrolling() {
    let mut s = ScrollState::new();
    assert!(s.autoscroll_enabled);
    assert!(!s.on_key(UiKey::ScrollUp));
    assert_eq!(s.scroll_amount, 0);
    s.on_key(UiKey::ScrollDown);
    s.on_key(UiKey::ScrollDown);
    assert_eq!(s.scroll_amount, 2);
    s.on_key(UiKey::ScrollUp);
    assert_eq!(s.scroll_amount, 1);
    s.on_key(UiKey::ToggleAutoscroll);
    assert!(!s.autoscroll_enabled);
    s.on_key(UiKey::ResetScroll);
    assert_eq!(s.scroll_amount, 0);
    assert!(!s.on_key(UiKey::Other));
    assert!(s.on_key(UiKey::Quit));
    let mut top = ScrollState { autoscroll_enabled: true, scroll_amount: u16::MAX };
    top.on_key(UiKey::ScrollDown);
    assert_eq!(top.scroll_amount, u16::MAX);
}

#[test]
fn scroll_follows_active_line() {
    let follow = ScrollState::new();
    assert_eq!(scroll_position(&follow, LyricSyncType::LineSynced, 10, 3, 40, 20), 7);
    assert_eq!(scroll_position(&follow, LyricSyncType::LineSynced, 1, 3, 40, 20), 0);
    assert_eq!(scroll_position(&follow, LyricSyncType::LineSynced, -1, 3, 40, 20), 0);
    assert_eq!(scroll_position(&follow, LyricSyncType::LineSynced, 39, 3, 40, 20), 20);
    assert_eq!(scroll_position(&follow, LyricSyncType::LineSynced, 5, 0, 10, 20), 0);
    let manual = ScrollState { autoscroll_enabled: false, scroll_amount: 4 };
    assert_eq!(scroll_position(&manual, LyricSyncType::LineSynced, 30, 3, 40, 20), 4);
    assert_eq!(scroll_position(&follow, LyricSyncType::Unsynced, 30, 3, 40, 20), 0);
}

#[test]
fn color_settings() {
    assert_eq!(read_color_setting("#ff8000"), ColorSetting::Rgb { r: 255, g: 128, b: 0 });
    assert_eq!(read_color_setting("#0000FF"), ColorSetting::Rgb { r: 0, g: 0, b: 255 });
    assert_eq!(read_color_setting("#+12"), ColorSetting::Rgb { r: 0, g: 0, b: 0x12 });
    assert_eq!(read_color_setting("#AABBCCDD"), ColorSetting::Rgb { r: 0xBB, g: 0xCC, b: 0xDD });
    assert_eq!(read_color_setting("#"), ColorSetting::BadHex);
    assert_eq!(read_color_setting("#+"), ColorSetting::BadHex);
    assert_eq!(read_color_setting("#-1"), ColorSetting::BadHex);
    assert_eq!(read_color_setting("#12g"), ColorSetting::BadHex);
    assert_eq!(read_color_setting("#100000000"), ColorSetting::BadHex);
    assert_eq!(read_color_setting("red"), ColorSetting::Named);
    assert_eq!(read_color_setting(""), ColorSetting::Named);
}

#[test]
fn border_settings() {
    assert_eq!(read_border_setting("Plain"), Some(BorderSetting::Plain));
    assert_eq!(read_border_setting("Rounded"), Some(BorderSetting::Rounded));
    assert_eq!(read_border_setting("Double"), Some(BorderSetting::Double));
    assert_eq!(read_border_setting("Thick"), Some(BorderSetting::Thick));
    assert_eq!(read_border_setting("thick"), None);
    assert_eq!(read_border_setting(""), None);
}

fn render_for_test(field: &InfoField) -> String {
    match &field.value {
        InfoValue::Text(t) => format!("{}={}", field.key, t),
        InfoValue::Texts(v) => format!("{}={}", field.key, v.join(",")),
        InfoValue::Number(n) => format!("{}={}", field.key, n),
    }
}

#[test]
fn render_memoizes_by_content() {
    let calls = Cell::new(0);
    let counting = |f: &InfoField| {
        calls.set(calls.get() + 1);
        render_for_test(f)
    };
    let t = tracker();
    let mut cache = InfoCache::new();
    let first = cache.render(&t, &display(true), &counting);
    assert_eq!(first, vec!["name=Song", "artists=X,Y", "album=Album", "genres=rock", "popularity=77"]);
    assert_eq!(calls.get(), 5);
    let again = cache.render(&tracker(), &display(true), &counting);
    assert_eq!(again, first);
    assert_eq!(calls.get(), 5);
    let mut other = tracker();
    other.track_data.track_album = "B-sides".to_string();
    let changed = cache.render(&other, &display(false), &counting);
    assert_eq!(changed, vec!["name=Song", "album=B-sides"]);
    assert_eq!(calls.get(), 7);
}
