use ytmusic_cli::text::{decimal_pad2_string, decimal_string, trim};
use ytmusic_cli::types::track::{format_duration, Track};

fn track(id: &str, title: &str, artist: &str) -> Track {
    Track {
        video_id: id.to_string(),
        title: title.to_string(),
        artist: artist.to_string(),
        duration: None,
        thumbnail_url: None,
        cached_path: None,
    }
}

#[test]
fn format_duration_unknown() {
    assert_eq!(format_duration(None), "--:--");
}

#[test]
fn format_duration_values() {
    assert_eq!(format_duration(Some(0)), "0:00");
    assert_eq!(format_duration(Some(9)), "0:09");
    assert_eq!(format_duration(Some(65)), "1:05");
    assert_eq!(format_duration(Some(600)), "10:00");
    assert_eq!(format_duration(Some(3599)), "59:59");
    assert_eq!(format_duration(Some(3600)), "60:00");
    assert_eq!(format_duration(Some(u64::MAX)), "307445734561825860:15");
}

#[test]
fn decimal_rendering() {
    assert_eq!(decimal_string(0), "0");
    assert_eq!(decimal_string(7), "7");
    assert_eq!(decimal_string(10), "10");
    assert_eq!(decimal_string(1234567890), "1234567890");
    assert_eq!(decimal_string(u64::MAX), "18446744073709551615");
    assert_eq!(decimal_pad2_string(0), "00");
    assert_eq!(decimal_pad2_string(5), "05");
    assert_eq!(decimal_pad2_string(42), "42");
    assert_eq!(decimal_pad2_string(123), "123");
}

#[test]
fn trim_removes_unicode_whitespace() {
    assert_eq!(trim("  hello world \t\n"), "hello world");
    assert_eq!(trim("\u{3000}x\u{a0}"), "x");
    assert_eq!(trim("   "), "");
    assert_eq!(trim(""), "");
    assert_eq!(trim("no-space"), "no-space");
    assert_eq!(trim("\u{2003}a b\u{2029}"), "a b");
    assert_eq!(trim(" \u{200b}x "), "\u{200b}x");
}

#[test]
fn track_url_and_label() {
    let t = track("abc123", "Song", "Band");
    assert_eq!(t.url(), "https://music.youtube.com/watch?v=abc123");
    assert_eq!(t.label(), "Song - Band");
}

#[test]
fn track_from_parts_takes_last_thumbnail() {
    let t = Track::from_parts(
        "id".to_string(),
        "T".to_string(),
        "A".to_string(),
        Some(120),
        vec!["small".to_string(), "large".to_string()],
    );
    assert_eq!(t.thumbnail_url, Some("large".to_string()));
    assert_eq!(t.duration, Some(120));
    assert_eq!(t.cached_path, None);
    let u = Track::from_parts("id".to_string(), "T".to_string(), "A".to_string(), None, vec![]);
    assert_eq!(u.thumbnail_url, None);
}

#[test]
fn track_clone_is_equal() {
    let mut t = track("x", "y", "z");
    t.cached_path = Some("/tmp/x.m4a".to_string());
    t.thumbnail_url = Some("thumb".to_string());
    assert_eq!(t.clone(), t);
}

#[test]
fn trim_twice_is_trim_once() {
    let once = trim(" \u{2000} spaced out\t ");
    assert_eq!(once, "spaced out");
    assert_eq!(trim(&once), once);
}
