use ytmusic_cli::app::lyrics_state::LoadedLyrics;
use ytmusic_cli::app::{App, InputMode, PlaylistFocus, QueueSource, Screen};
use ytmusic_cli::tui::{playlist_row, tab_label, track_row};
use ytmusic_cli::types::playlist::LocalPlaylist;
use ytmusic_cli::types::track::Track;

fn track(id: &str) -> Track {
    Track {
        video_id: id.to_string(),
        title: format!("T{id}"),
        artist: format!("A{id}"),
        duration: Some(61),
        thumbnail_url: None,
        cached_path: None,
    }
}

#[test]
fn tab_labels() {
    assert_eq!(tab_label(Screen::Search), "1 Search");
    assert_eq!(tab_label(Screen::Lyrics), "6 Lyrics");
}

#[test]
fn track_rows_show_markers() {
    let t = track("a");
    assert_eq!(track_row(&t, 0, 0, Some(0)), "› ▶ Ta - Aa [1:01] (remote)");
    let mut c = track("b");
    c.cached_path = Some("/x".to_string());
    c.duration = None;
    assert_eq!(track_row(&c, 2, 0, Some(1)), "    Tb - Ab [--:--] (cached)");
}

#[test]
fn playlist_rows() {
    let p = LocalPlaylist { name: "Mix".to_string(), tracks: vec![track("a"), track("b")] };
    assert_eq!(playlist_row(&p, 1, 1), "› Mix (2)");
    assert_eq!(playlist_row(&p, 0, 1), "  Mix (2)");
}

#[test]
fn now_playing_pane_lines() {
    let mut a = App::new(vec![], vec![], vec![]);
    assert_eq!(a.now_playing_lines(None, None, "50".to_string()), vec!["No track playing".to_string()]);
    a.queue_state.queue_index = Some(usize::MAX);
    assert_eq!(a.now_playing_lines(None, None, "50".to_string()), vec!["No track playing".to_string()]);
    a.queue_state.enqueue(track("a"));
    a.queue_state.enqueue(track("b"));
    a.queue_state.queue_index = Some(1);
    a.queue_state.queue_source = QueueSource::Playlist;
    a.queue_state.now_playing = Some(track("b"));
    let lines = a.now_playing_lines(Some(30), None, "70".to_string());
    assert_eq!(
        lines,
        vec![
            "Title : Tb".to_string(),
            "Artist: Ab".to_string(),
            "Time  : 0:30/1:01".to_string(),
            "Volume: 70".to_string(),
            "Queue : 2 track(s), source: playlist, index: 2".to_string(),
            "Source: https://music.youtube.com/watch?v=b".to_string(),
        ]
    );
}

#[test]
fn status_line_and_titles() {
    let mut a = App::new(vec![], vec![], vec![]);
    a.status = "hi".to_string();
    assert!(a.status_line().starts_with("SEARCH | hi | / search | 1-6 tabs"));
    assert!(a.status_line().ends_with("Space pause | q quit"));
    assert_eq!(a.search_input_title(), " Search input - typing ");
    a.input_mode = InputMode::Normal;
    assert_eq!(a.search_input_title(), " Search input - press / ");
    assert_eq!(a.playlists_title(), " Playlists [focused] - Tab tracks ");
    let p = LocalPlaylist { name: "Mix".to_string(), tracks: vec![] };
    assert_eq!(a.playlist_tracks_title(&p), " Mix ");
    a.library_state.playlist_focus = PlaylistFocus::Tracks;
    assert_eq!(a.playlists_title(), " Playlists - Tab list ");
    assert_eq!(a.playlist_tracks_title(&p), " Mix [focused] - Enter play playlist queue ");
}

#[test]
fn lyrics_placeholder() {
    let mut a = App::new(vec![], vec![], vec![]);
    assert_eq!(a.lyrics_placeholder_lines(), vec!["No lyrics loaded. Press 6 while a song is playing.".to_string()]);
    a.lyrics_state.begin_loading("x".to_string());
    let lines = a.lyrics_placeholder_lines();
    assert_eq!(lines[0], "Loading lyrics for current track...");
    a.queue_state.now_playing = Some(track("x"));
    assert_eq!(a.lyrics_placeholder_lines()[0], "Loading lyrics for Tx - Ax...");
}

fn held(synced: bool, n: usize) -> LoadedLyrics {
    LoadedLyrics {
        video_id: "v".to_string(),
        source: "Lrclib".to_string(),
        track_name: "Song".to_string(),
        artist_name: "Band".to_string(),
        instrumental: false,
        synced,
        line_times_ms: if synced { (0..n as u64).map(|i| i * 1000).collect() } else { Vec::new() },
        lines: (0..n).map(|i| format!("l{i}")).collect(),
    }
}

fn plain(lines: &[&str]) -> Vec<(String, bool)> {
    lines.iter().map(|l| (l.to_string(), false)).collect()
}

#[test]
fn lyrics_window_centers_active_line() {
    let mut a = App::new(vec![], vec![], vec![]);
    a.lyrics_state.lyrics_scroll = 3;
    assert_eq!(a.lyrics_window_start(Some(20), 10), 3);
    a.lyrics_state.lyrics = Some(held(true, 30));
    assert_eq!(a.lyrics_window_start(Some(20), 10), 15);
    assert_eq!(a.lyrics_window_start(Some(2), 10), 0);
    assert_eq!(a.lyrics_window_start(None, 10), 3);
    a.lyrics_state.lyrics = Some(held(false, 30));
    assert_eq!(a.lyrics_window_start(Some(20), 10), 3);
}

#[test]
fn lyrics_window_slices_held_lines() {
    let mut a = App::new(vec![], vec![], vec![]);
    assert!(a.lyrics_window(None, 3).is_empty());
    a.lyrics_state.lyrics = Some(held(false, 5));
    a.lyrics_state.lyrics_scroll = 1;
    assert_eq!(a.lyrics_window(None, 3), plain(&["l1", "l2", "l3"]));
    a.lyrics_state.lyrics_scroll = 4;
    assert_eq!(a.lyrics_window(None, 3), plain(&["l4"]));
    a.lyrics_state.lyrics_scroll = 9;
    assert!(a.lyrics_window(None, 3).is_empty());
    assert!(a.lyrics_window(Some(3), 2).is_empty());
}

#[test]
fn lyrics_window_highlights_active_synced_line() {
    let mut a = App::new(vec![], vec![], vec![]);
    a.lyrics_state.lyrics = Some(held(true, 5));
    a.lyrics_state.lyrics_scroll = 4;
    assert_eq!(
        a.lyrics_window(Some(3), 2),
        vec![("l2".to_string(), false), ("l3".to_string(), true)]
    );
    assert_eq!(a.lyrics_window(None, 2), plain(&["l4"]));
}

#[test]
fn lyrics_screen_puts_header_above_window() {
    let mut a = App::new(vec![], vec![], vec![]);
    assert_eq!(a.lyrics_screen(None, 20), plain(&["No lyrics loaded. Press 6 while a song is playing."]));
    a.lyrics_state.lyrics = Some(held(true, 5));
    assert_eq!(
        a.lyrics_screen(Some(1), 6),
        vec![
            ("source: Lrclib | kind: synced | track: Song - Band".to_string(), false),
            ("l0".to_string(), false),
            ("l1".to_string(), true),
        ]
    );
    assert_eq!(a.lyrics_screen(Some(1), 3), plain(&["source: Lrclib | kind: synced | track: Song - Band"]));
}

#[test]
fn track_list_per_screen() {
    let mut a = App::new(vec![track("h")], vec![], vec![]);
    a.results = vec![track("a"), track("b")];
    a.selected = 1;
    assert_eq!(
        a.track_list(),
        Some((" Results ", vec!["    Ta - Aa [1:01] (remote)".to_string(), "›   Tb - Ab [1:01] (remote)".to_string()]))
    );
    a.screen = Screen::History;
    let (title, rows) = a.track_list().unwrap();
    assert_eq!(title, " History ");
    assert_eq!(rows, vec!["    Th - Ah [1:01] (remote)".to_string()]);
    a.screen = Screen::Queue;
    a.queue_state.enqueue(track("q"));
    a.queue_state.queue_index = Some(0);
    assert_eq!(a.track_list(), Some((" Queue ", vec!["› ▶ Tq - Aq [1:01] (remote)".to_string()])));
    a.screen = Screen::Lyrics;
    assert_eq!(a.track_list(), None);
}

#[test]
fn playlist_screen_rows_and_pane() {
    let mut a = App::new(vec![], vec![], vec![]);
    assert!(a.playlist_rows().is_empty());
    assert_eq!(a.playlist_pane(), None);
    a.library_state.playlists.push(LocalPlaylist { name: "Mix".to_string(), tracks: vec![track("a")] });
    assert_eq!(a.playlist_rows(), vec!["› Mix (1)".to_string()]);
    assert_eq!(
        a.playlist_pane(),
        Some((" Mix ".to_string(), vec!["›   Ta - Aa [1:01] (remote)".to_string()]))
    );
}
