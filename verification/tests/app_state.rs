use ytmusic_cli::app::input::{Effect, Key};
use ytmusic_cli::app::flow::{Action, Flow};
use ytmusic_cli::app::lyrics::LyricsOutcome;
use ytmusic_cli::app::lyrics_state::LoadedLyrics;
use ytmusic_cli::app::playback::{PlayRequest, PreviousTarget};
use ytmusic_cli::app::{App, InputMode, Persist, PlaylistFocus, QueueSource, Screen};
use ytmusic_cli::types::playlist::LocalPlaylist;
use ytmusic_cli::types::track::Track;

fn track(id: &str) -> Track {
    Track {
        video_id: id.to_string(),
        title: format!("T{id}"),
        artist: format!("A{id}"),
        duration: Some(200),
        thumbnail_url: None,
        cached_path: None,
    }
}

fn ids(v: &[Track]) -> Vec<String> {
    v.iter().map(|t| t.video_id.clone()).collect()
}

fn queue_ids(app: &App) -> Vec<String> {
    app.queue_state.queue.iter().map(|t| t.video_id.clone()).collect()
}

fn lyrics(id: &str, n: usize) -> LoadedLyrics {
    LoadedLyrics {
        video_id: id.to_string(),
        source: "YoutubeFallback".to_string(),
        track_name: "Song".to_string(),
        artist_name: "Band".to_string(),
        instrumental: false,
        synced: false,
        line_times_ms: Vec::new(),
        lines: (0..n).map(|i| format!("line {i}")).collect(),
    }
}

fn synced_lyrics(id: &str, times: &[u64]) -> LoadedLyrics {
    LoadedLyrics {
        source: "Lrclib".to_string(),
        synced: true,
        line_times_ms: times.to_vec(),
        ..lyrics(id, times.len())
    }
}

fn app() -> App {
    App::new(vec![track("h1"), track("h2")], vec![track("f1")], vec![])
}

#[test]
fn new_app_starts_typing_search() {
    let a = app();
    assert_eq!(a.screen, Screen::Search);
    assert_eq!(a.input_mode, InputMode::TypingSearch);
    assert_eq!(a.query, "");
    assert_eq!(a.status, "type search query, then Enter");
    assert!(!a.should_quit);
    assert_eq!(ids(&a.library_state.history), vec!["h1", "h2"]);
}

#[test]
fn current_selection_follows_screen() {
    let mut a = app();
    a.results = vec![track("r0"), track("r1")];
    a.selected = 1;
    assert_eq!(a.current_selection(), Some(track("r1")));
    a.screen = Screen::History;
    assert_eq!(a.current_selection(), Some(track("h2")));
    a.screen = Screen::Favorites;
    assert_eq!(a.current_selection(), None);
    a.selected = 0;
    assert_eq!(a.current_selection(), Some(track("f1")));
    a.screen = Screen::Lyrics;
    assert_eq!(a.current_selection(), None);
    a.screen = Screen::Playlists;
    assert_eq!(a.current_selection(), None);
    a.library_state.playlists.push(LocalPlaylist { name: "p".to_string(), tracks: vec![track("p0")] });
    assert_eq!(a.current_selection(), Some(track("p0")));
    a.screen = Screen::Queue;
    a.queue_state.enqueue(track("q0"));
    assert_eq!(a.current_selection(), Some(track("q0")));
}

#[test]
fn current_len_follows_screen() {
    let mut a = app();
    assert_eq!(a.current_len(), 0);
    a.screen = Screen::History;
    assert_eq!(a.current_len(), 2);
    a.screen = Screen::Lyrics;
    assert_eq!(a.current_len(), 0);
    a.lyrics_state.lyrics = Some(lyrics("x", 7));
    assert_eq!(a.current_len(), 7);
    a.screen = Screen::Playlists;
    a.library_state.playlists.push(LocalPlaylist { name: "p".to_string(), tracks: vec![track("a"), track("b"), track("c")] });
    assert_eq!(a.current_len(), 1);
    a.library_state.playlist_focus = PlaylistFocus::Tracks;
    assert_eq!(a.current_len(), 3);
}

#[test]
fn select_next_and_prev_stay_in_range() {
    let mut a = app();
    a.screen = Screen::History;
    a.select_next();
    assert_eq!(a.selected, 1);
    a.select_next();
    assert_eq!(a.selected, 1);
    a.select_prev();
    a.select_prev();
    assert_eq!(a.selected, 0);
    a.screen = Screen::Search;
    a.select_next();
    assert_eq!(a.selected, 0);
}

#[test]
fn select_moves_queue_playlist_and_lyrics_cursors() {
    let mut a = app();
    a.screen = Screen::Queue;
    a.select_next();
    assert_eq!(a.queue_state.queue_selected, 0);
    a.queue_state.enqueue(track("a"));
    a.queue_state.enqueue(track("b"));
    a.select_next();
    a.select_next();
    assert_eq!(a.queue_state.queue_selected, 1);
    a.select_prev();
    assert_eq!(a.queue_state.queue_selected, 0);

    a.screen = Screen::Playlists;
    a.library_state.playlists.push(LocalPlaylist { name: "p".to_string(), tracks: vec![track("x"), track("y")] });
    a.library_state.playlists.push(LocalPlaylist { name: "q".to_string(), tracks: vec![] });
    a.library_state.playlist_track_selected = 1;
    a.select_next();
    assert_eq!(a.library_state.playlist_selected, 1);
    assert_eq!(a.library_state.playlist_track_selected, 0);
    a.select_prev();
    assert_eq!(a.library_state.playlist_selected, 0);
    a.library_state.playlist_focus = PlaylistFocus::Tracks;
    a.select_next();
    a.select_next();
    assert_eq!(a.library_state.playlist_track_selected, 1);
    a.select_prev();
    assert_eq!(a.library_state.playlist_track_selected, 0);

    a.screen = Screen::Lyrics;
    a.select_next();
    a.select_next();
    assert_eq!(a.lyrics_state.lyrics_scroll, 2);
    a.select_prev();
    assert_eq!(a.lyrics_state.lyrics_scroll, 1);
    a.lyrics_state.lyrics_scroll = usize::MAX;
    a.select_next();
    assert_eq!(a.lyrics_state.lyrics_scroll, usize::MAX);
}

#[test]
fn toggle_playlist_focus_twice_restores() {
    let mut a = app();
    a.toggle_playlist_focus();
    assert_eq!(a.library_state.playlist_focus, PlaylistFocus::List);
    a.screen = Screen::Playlists;
    a.toggle_playlist_focus();
    assert_eq!(a.library_state.playlist_focus, PlaylistFocus::Tracks);
    assert_eq!(a.status, "playlist focus: tracks");
    a.toggle_playlist_focus();
    assert_eq!(a.library_state.playlist_focus, PlaylistFocus::List);
    assert_eq!(a.status, "playlist focus: list");
}

#[test]
fn toggle_favorite_adds_then_removes() {
    let mut a = app();
    a.results = vec![track("r")];
    assert!(a.toggle_favorite_selected());
    assert_eq!(ids(&a.library_state.favorites), vec!["r", "f1"]);
    assert_eq!(a.status, "favorited: Tr");
    assert!(a.toggle_favorite_selected());
    assert_eq!(ids(&a.library_state.favorites), vec!["f1"]);
    assert_eq!(a.status, "removed from favorites");
}

#[test]
fn toggle_favorite_uses_now_playing_or_reports() {
    let mut a = app();
    assert!(!a.toggle_favorite_selected());
    assert_eq!(a.status, "nothing selected");
    a.queue_state.now_playing = Some(track("n"));
    assert!(a.toggle_favorite_selected());
    assert_eq!(ids(&a.library_state.favorites), vec!["n", "f1"]);
}

#[test]
fn add_to_default_playlist_creates_and_dedups() {
    let mut a = app();
    a.results = vec![track("r")];
    assert!(a.add_selected_to_default_playlist());
    assert_eq!(a.library_state.playlists.len(), 1);
    assert_eq!(a.library_state.playlists[0].name, "Default");
    assert_eq!(ids(&a.library_state.playlists[0].tracks), vec!["r"]);
    assert_eq!(a.status, "added to playlist: Default");
    assert!(a.add_selected_to_default_playlist());
    assert_eq!(ids(&a.library_state.playlists[0].tracks), vec!["r"]);
    assert_eq!(a.status, "already in playlist");
    a.results.clear();
    assert!(!a.add_selected_to_default_playlist());
    assert_eq!(a.status, "nothing selected");
}

#[test]
fn create_playlist_from_query_cases() {
    let mut a = app();
    a.query = "   ".to_string();
    assert!(!a.create_playlist_from_query());
    assert_eq!(a.status, "playlist name is empty");
    a.query = "  Road trip ".to_string();
    a.input_mode = InputMode::TypingPlaylistName;
    assert!(a.create_playlist_from_query());
    assert_eq!(a.library_state.playlists[0].name, "Road trip");
    assert_eq!(a.query, "");
    assert_eq!(a.input_mode, InputMode::Normal);
    assert_eq!(a.library_state.playlist_selected, 0);
    assert_eq!(a.library_state.playlist_focus, PlaylistFocus::Tracks);
    assert_eq!(a.status, "created playlist: Road trip");
    a.query = "Road trip".to_string();
    assert!(!a.create_playlist_from_query());
    assert_eq!(a.status, "playlist already exists");
    assert_eq!(a.library_state.playlists.len(), 1);
    a.query = "Other".to_string();
    assert!(a.create_playlist_from_query());
    assert_eq!(a.library_state.playlist_selected, 1);
}

#[test]
fn push_history_returns_saved_history() {
    let mut a = app();
    let h = a.push_history(track("h2"));
    assert_eq!(ids(&h), vec!["h2", "h1"]);
    assert_eq!(h, a.library_state.history);
}

#[test]
fn remove_favorite_and_playlist_track() {
    let mut a = app();
    a.library_state.favorites.push(track("f2"));
    a.selected = 1;
    assert!(a.remove_favorite_at_selected());
    assert_eq!(ids(&a.library_state.favorites), vec!["f1"]);
    assert_eq!(a.selected, 0);
    assert_eq!(a.status, "removed from favorites");
    a.selected = 3;
    assert!(!a.remove_favorite_at_selected());

    assert!(!a.remove_playlist_track_at_selected());
    a.library_state.playlists.push(LocalPlaylist { name: "p".to_string(), tracks: vec![track("x"), track("y")] });
    a.library_state.playlist_track_selected = 1;
    assert!(a.remove_playlist_track_at_selected());
    assert_eq!(ids(&a.library_state.playlists[0].tracks), vec!["x"]);
    assert_eq!(a.library_state.playlist_track_selected, 0);
    assert_eq!(a.status, "removed from playlist");
    a.library_state.playlist_track_selected = 4;
    assert!(!a.remove_playlist_track_at_selected());
}

#[test]
fn position_label_falls_back_to_track_length() {
    let mut a = app();
    assert_eq!(a.player_position_label(None, None), "0:00/0:00");
    assert_eq!(a.player_position_label(Some(65), Some(200)), "1:05/3:20");
    a.queue_state.now_playing = Some(track("n"));
    assert_eq!(a.player_position_label(Some(5), None), "0:05/3:20");
    assert_eq!(a.player_position_label(Some(3600), Some(7265)), "60:00/121:05");
}

#[test]
fn queue_source_label_names_source() {
    let mut a = app();
    assert_eq!(a.queue_source_label(), "auto");
    a.queue_state.queue_source = QueueSource::Playlist;
    assert_eq!(a.queue_source_label(), "playlist");
}

#[test]
fn open_lyrics_decides_whether_to_fetch() {
    let mut a = app();
    a.lyrics_state.lyrics_scroll = 3;
    assert_eq!(a.open_lyrics(), None);
    assert_eq!(a.screen, Screen::Lyrics);
    assert_eq!(a.lyrics_state.lyrics_scroll, 0);
    assert_eq!(a.status, "no track playing");
    a.queue_state.now_playing = Some(track("n"));
    a.lyrics_state.lyrics = Some(lyrics("n", 2));
    assert_eq!(a.open_lyrics(), None);
    assert_eq!(a.status, "lyrics already loaded");
    assert_eq!(a.lyrics_state.lyrics, Some(lyrics("n", 2)));
    a.lyrics_state.lyrics = Some(lyrics("m", 2));
    assert_eq!(a.open_lyrics(), Some(track("n")));
    assert_eq!(a.status, "loading lyrics: Tn - An");
    assert_eq!(a.lyrics_state.lyrics, None);
    assert!(a.lyrics_state.is_loading_for("n"));
    assert_eq!(a.open_lyrics(), None);
    assert_eq!(a.status, "lyrics still loading");
}

#[test]
fn lyrics_state_loading_marker() {
    let mut a = app();
    assert!(!a.lyrics_state.is_loading());
    a.lyrics_state.begin_loading("v".to_string());
    assert!(a.lyrics_state.is_loading());
    assert!(a.lyrics_state.is_loading_for("v"));
    assert!(!a.lyrics_state.is_loading_for("w"));
    a.lyrics_state.clear_loading();
    assert!(!a.lyrics_state.is_loading());
    a.lyrics_state.lyrics = Some(lyrics("v", 1));
    a.lyrics_state.begin_loading("w".to_string());
    assert_eq!(a.lyrics_state.lyrics, None);
    a.lyrics_state.lyrics = Some(lyrics("v", 1));
    a.lyrics_state.lyrics_scroll = 4;
    a.lyrics_state.reset_for_new_track();
    assert!(!a.lyrics_state.is_loading());
    assert_eq!(a.lyrics_state.lyrics, None);
    assert_eq!(a.lyrics_state.lyrics_scroll, 0);
}

#[test]
fn search_begins_and_shows_results() {
    let mut a = app();
    a.query = "  ".to_string();
    assert_eq!(a.begin_search(), None);
    assert_eq!(a.status, "query is empty");
    a.query = " daft punk ".to_string();
    assert_eq!(a.begin_search(), Some("daft punk".to_string()));
    assert_eq!(a.status, "searching: daft punk");
    a.selected = 4;
    a.screen = Screen::Queue;
    a.show_results(vec![track("1"), track("2"), track("3")]);
    assert_eq!(a.results.len(), 3);
    assert_eq!(a.selected, 0);
    assert_eq!(a.screen, Screen::Search);
    assert_eq!(a.input_mode, InputMode::Normal);
    assert_eq!(a.status, "3 result(s)");
}

#[test]
fn play_queue_at_points_queue_at_entry() {
    let mut a = app();
    assert_eq!(a.play_queue_at(0), None);
    assert_eq!(a.status, "queue index is empty");
    a.queue_state.enqueue(track("a"));
    a.queue_state.enqueue(track("b"));
    assert_eq!(a.play_queue_at(1), Some(track("b")));
    assert_eq!(a.queue_state.queue_index, Some(1));
    assert_eq!(a.queue_state.queue_selected, 1);
}

#[test]
fn finish_now_playing_sets_track_and_status() {
    let mut a = app();
    a.lyrics_state.begin_loading("x".to_string());
    a.lyrics_state.lyrics_scroll = 9;
    a.finish_now_playing(track("a"));
    assert_eq!(a.queue_state.now_playing, Some(track("a")));
    assert!(!a.lyrics_state.is_loading());
    assert_eq!(a.lyrics_state.lyrics_scroll, 0);
    assert_eq!(a.status, "playing remote, caching in background");
    let mut cached = track("b");
    cached.cached_path = Some("/c/b.m4a".to_string());
    a.finish_now_playing(cached);
    assert_eq!(a.status, "playing cached track");
}

#[test]
fn queue_detached_inserts_after_current() {
    let mut a = app();
    a.queue_state.queue_source = QueueSource::Playlist;
    a.queue_state.active_playlist = Some(0);
    a.queue_state.enqueue(track("a"));
    a.queue_state.enqueue(track("b"));
    a.queue_state.queue_index = Some(0);
    a.queue_detached(track("x"));
    assert_eq!(queue_ids(&a), vec!["a", "x", "b"]);
    assert_eq!(a.queue_state.queue_index, Some(1));
    assert_eq!(a.queue_state.queue_selected, 1);
    assert_eq!(a.queue_state.queue_source, QueueSource::Auto);
    assert_eq!(a.queue_state.active_playlist, None);
}

#[test]
fn playlist_playback_replaces_queue() {
    let mut a = app();
    assert_eq!(a.playlist_to_play(), None);
    assert_eq!(a.status, "no playlist selected");
    a.library_state.playlists.push(LocalPlaylist { name: "e".to_string(), tracks: vec![] });
    assert_eq!(a.playlist_to_play(), None);
    assert_eq!(a.status, "playlist is empty");
    a.library_state.playlists.push(LocalPlaylist { name: "p".to_string(), tracks: vec![track("x"), track("y")] });
    a.library_state.playlist_selected = 1;
    a.library_state.playlist_track_selected = 9;
    let (tracks, index) = a.playlist_to_play().unwrap();
    assert_eq!(ids(&tracks), vec!["x", "y"]);
    assert_eq!(index, 1);
    a.start_playlist_queue(tracks);
    assert_eq!(queue_ids(&a), vec!["x", "y"]);
    assert_eq!(a.queue_state.queue_source, QueueSource::Playlist);
    assert_eq!(a.queue_state.active_playlist, Some(1));
    assert_eq!(a.queue_state.queue_index, Some(0));
}

#[test]
fn play_selected_by_screen() {
    let mut a = app();
    assert_eq!(a.play_selected(), PlayRequest::Nothing);
    assert_eq!(a.status, "nothing selected");
    a.results = vec![track("r")];
    assert_eq!(a.play_selected(), PlayRequest::Detached(track("r")));
    a.screen = Screen::Queue;
    a.queue_state.queue_selected = 3;
    assert_eq!(a.play_selected(), PlayRequest::QueueAt(3));
    a.screen = Screen::Playlists;
    assert_eq!(a.play_selected(), PlayRequest::Playlist);
}

#[test]
fn next_and_finished_targets() {
    let mut a = app();
    assert_eq!(a.play_next_target(), None);
    assert_eq!(a.status, "no next track");
    a.queue_state.enqueue(track("a"));
    a.queue_state.enqueue(track("b"));
    assert_eq!(a.play_next_target(), Some(0));
    a.queue_state.queue_index = Some(0);
    assert_eq!(a.play_next_target(), Some(1));
    assert_eq!(a.track_finished_target(), Some(1));
    assert_eq!(a.status, "autoplay next track");
    a.queue_state.queue_index = Some(1);
    assert_eq!(a.track_finished_target(), None);
    assert_eq!(a.status, "queue finished");
    a.queue_state.queue_source = QueueSource::Playlist;
    assert_eq!(a.track_finished_target(), None);
    assert_eq!(a.status, "playlist finished");
    a.queue_state.queue_index = Some(0);
    assert_eq!(a.track_finished_target(), Some(1));
    assert_eq!(a.status, "autoplay next playlist track");
}

#[test]
fn previous_target_prefers_queue_then_stack() {
    let mut a = app();
    assert_eq!(a.previous_target(), PreviousTarget::Nothing);
    assert_eq!(a.status, "no previous track");
    a.queue_state.previous.push(track("p"));
    assert_eq!(a.previous_target(), PreviousTarget::Track(track("p")));
    assert!(a.queue_state.previous.is_empty());
    a.queue_state.enqueue(track("a"));
    a.queue_state.enqueue(track("b"));
    a.queue_state.queue_index = Some(1);
    assert_eq!(a.previous_target(), PreviousTarget::QueueAt(0));
    a.queue_state.queue_index = Some(0);
    assert_eq!(a.previous_target(), PreviousTarget::Nothing);
}

#[test]
fn refill_seed_needs_auto_short_queue_and_track() {
    let mut a = app();
    assert_eq!(a.refill_seed(), None);
    a.queue_state.now_playing = Some(track("seed"));
    assert_eq!(a.refill_seed(), Some("seed".to_string()));
    a.queue_state.queue_source = QueueSource::Playlist;
    assert_eq!(a.refill_seed(), None);
    a.queue_state.queue_source = QueueSource::Auto;
    for i in 0..5 {
        a.queue_state.enqueue(track(&format!("q{i}")));
    }
    assert_eq!(a.refill_seed(), None);
}

#[test]
fn refill_skips_known_and_stops_at_minimum() {
    let mut a = app();
    a.queue_state.now_playing = Some(track("now"));
    a.queue_state.enqueue(track("a"));
    a.queue_state.queue_index = Some(0);
    let up = vec![
        track("now"),
        track(""),
        track("a"),
        track("b"),
        track("b"),
        track("c"),
        track("d"),
        track("e"),
        track("f"),
        track("g"),
    ];
    let added = a.refill_queue_from(up);
    assert_eq!(added, 5);
    assert_eq!(queue_ids(&a), vec!["a", "b", "c", "d", "e", "f"]);
    assert_eq!(a.queue_state.remaining_after_current(), 5);
    assert!(!a.refill_should_continue(0, 5));
    a.report_refill(added);
    assert_eq!(a.status, "auto queued 5 track(s); 5 upcoming track(s)");
}

#[test]
fn refill_continue_and_report() {
    let mut a = app();
    a.queue_state.enqueue(track("a"));
    assert!(a.refill_should_continue(0, 1));
    assert!(!a.refill_should_continue(1, 1));
    assert!(!a.refill_should_continue(0, 0));
    a.status = "keep".to_string();
    a.report_refill(0);
    assert_eq!(a.status, "keep");
}

#[test]
fn enqueue_selected_rejects_duplicates() {
    let mut a = app();
    a.enqueue_selected();
    assert_eq!(a.status, "nothing selected");
    a.results = vec![track("r")];
    a.queue_state.queue_source = QueueSource::Playlist;
    a.enqueue_selected();
    assert_eq!(queue_ids(&a), vec!["r"]);
    assert_eq!(a.status, "queued: Tr");
    assert_eq!(a.screen, Screen::Queue);
    assert_eq!(a.queue_state.queue_source, QueueSource::Auto);
    a.screen = Screen::Search;
    a.enqueue_selected();
    assert_eq!(a.status, "already in queue");
    assert_eq!(queue_ids(&a), vec!["r"]);
}

#[test]
fn remove_selected_by_screen() {
    let mut a = app();
    assert_eq!(a.remove_selected(), Persist::Nothing);
    a.screen = Screen::Favorites;
    assert_eq!(a.remove_selected(), Persist::Favorites);
    assert!(a.library_state.favorites.is_empty());
    assert_eq!(a.remove_selected(), Persist::Nothing);
    a.screen = Screen::Queue;
    a.queue_state.enqueue(track("a"));
    assert_eq!(a.remove_selected(), Persist::Nothing);
    assert!(a.queue_state.queue.is_empty());
    assert_eq!(a.status, "removed from queue");
    a.screen = Screen::Playlists;
    a.library_state.playlists.push(LocalPlaylist { name: "p".to_string(), tracks: vec![track("x")] });
    assert_eq!(a.remove_selected(), Persist::Playlists);
}

#[test]
fn move_queue_only_on_queue_screen() {
    let mut a = app();
    a.queue_state.enqueue(track("a"));
    a.queue_state.enqueue(track("b"));
    a.move_queue_down();
    assert_eq!(queue_ids(&a), vec!["a", "b"]);
    a.screen = Screen::Queue;
    a.move_queue_down();
    assert_eq!(queue_ids(&a), vec!["b", "a"]);
    a.move_queue_up();
    assert_eq!(queue_ids(&a), vec!["a", "b"]);
}

#[test]
fn player_outcome_messages() {
    let mut a = app();
    a.toggle_pause(Ok(true));
    assert_eq!(a.status, "paused");
    a.toggle_pause(Ok(false));
    assert_eq!(a.status, "playing");
    a.toggle_pause(Err("no player".to_string()));
    assert_eq!(a.status, "pause failed: no player");
    a.volume_up(Ok("80".to_string()));
    assert_eq!(a.status, "volume: 80");
    a.volume_down(Err("gone".to_string()));
    assert_eq!(a.status, "volume failed: gone");
    a.report_stopped();
    assert_eq!(a.status, "stopped");
    a.report_seek_failed("eof".to_string());
    assert_eq!(a.status, "seek failed: eof");
}

#[test]
fn cache_target_and_report() {
    let mut a = app();
    assert_eq!(a.cache_target(), None);
    assert_eq!(a.status, "nothing selected");
    a.results = vec![track("r")];
    assert_eq!(a.cache_target(), Some(track("r")));
    a.report_cache(&track("r"), true);
    assert_eq!(a.status, "already cached");
    a.report_cache(&track("r"), false);
    assert_eq!(a.status, "caching: Tr");
}

#[test]
fn typing_a_search_and_running_it() {
    let mut a = app();
    assert_eq!(a.handle_key(Key::Char('a'), false), Effect::Nothing);
    assert_eq!(a.handle_key(Key::Char('b'), false), Effect::Nothing);
    assert_eq!(a.handle_key(Key::Char('é'), false), Effect::Nothing);
    assert_eq!(a.query, "abé");
    assert_eq!(a.handle_key(Key::Backspace, false), Effect::Nothing);
    assert_eq!(a.handle_key(Key::Backspace, false), Effect::Nothing);
    assert_eq!(a.query, "a");
    assert_eq!(a.handle_key(Key::Enter, false), Effect::Search("a".to_string()));
    assert_eq!(a.handle_key(Key::Esc, false), Effect::Nothing);
    assert_eq!(a.input_mode, InputMode::Normal);
}

#[test]
fn ctrl_c_quits_in_any_mode() {
    let mut a = app();
    assert_eq!(a.handle_key(Key::Char('c'), true), Effect::Nothing);
    assert!(a.should_quit);
}

#[test]
fn normal_keys_switch_screens_and_ask_for_work() {
    let mut a = app();
    a.input_mode = InputMode::Normal;
    a.handle_key(Key::Char('3'), false);
    assert_eq!(a.screen, Screen::History);
    a.handle_key(Key::Char('j'), false);
    assert_eq!(a.selected, 1);
    a.handle_key(Key::Up, false);
    assert_eq!(a.selected, 0);
    assert_eq!(a.handle_key(Key::Enter, false), Effect::PlaySelected);
    assert_eq!(a.handle_key(Key::Char('n'), false), Effect::PlayNext);
    assert_eq!(a.handle_key(Key::Char('b'), false), Effect::PlayPrevious);
    assert_eq!(a.handle_key(Key::Char('r'), false), Effect::RefillQueue);
    assert_eq!(a.handle_key(Key::Char(' '), false), Effect::TogglePause);
    assert_eq!(a.handle_key(Key::Char('s'), false), Effect::Stop);
    assert_eq!(a.handle_key(Key::Char('c'), false), Effect::CacheSelected);
    assert_eq!(a.handle_key(Key::Char('='), false), Effect::VolumeUp);
    assert_eq!(a.handle_key(Key::Char('-'), false), Effect::VolumeDown);
    assert_eq!(a.handle_key(Key::Left, false), Effect::Seek(-5));
    assert_eq!(a.handle_key(Key::Char('l'), false), Effect::Seek(5));
    assert_eq!(a.handle_key(Key::Char('6'), false), Effect::OpenLyrics);
    assert_eq!(a.handle_key(Key::Char('f'), false), Effect::SaveFavorites);
    assert_eq!(a.handle_key(Key::Char('p'), false), Effect::SavePlaylists);
    assert_eq!(a.handle_key(Key::Char('z'), false), Effect::Nothing);
    a.handle_key(Key::Char('q'), false);
    assert!(a.should_quit);
}

#[test]
fn normal_keys_enter_typing_modes() {
    let mut a = app();
    a.input_mode = InputMode::Normal;
    a.query = "old".to_string();
    a.handle_key(Key::Char('P'), false);
    assert_eq!(a.screen, Screen::Playlists);
    assert_eq!(a.input_mode, InputMode::TypingPlaylistName);
    assert_eq!(a.query, "");
    assert_eq!(a.status, "type playlist name, Enter to create");
    a.handle_key(Key::Char('m'), false);
    assert_eq!(a.handle_key(Key::Enter, false), Effect::SavePlaylists);
    assert_eq!(a.library_state.playlists[0].name, "m");
    a.handle_key(Key::Char('/'), false);
    assert_eq!(a.screen, Screen::Search);
    assert_eq!(a.input_mode, InputMode::TypingSearch);
    assert_eq!(a.status, "search mode");
}

#[test]
fn playlist_name_escape_discards() {
    let mut a = app();
    a.input_mode = InputMode::TypingPlaylistName;
    assert_eq!(a.handle_key(Key::Backspace, false), Effect::Nothing);
    assert_eq!(a.query, "");
    a.handle_key(Key::Char('x'), false);
    a.handle_key(Key::Esc, false);
    assert_eq!(a.query, "");
    assert_eq!(a.input_mode, InputMode::Normal);
    assert!(a.library_state.playlists.is_empty());
}

#[test]
fn delete_key_asks_to_save_favorites() {
    let mut a = app();
    a.input_mode = InputMode::Normal;
    a.screen = Screen::Favorites;
    assert_eq!(a.handle_key(Key::Delete, false), Effect::TrySaveFavorites);
    assert!(a.library_state.favorites.is_empty());
}

#[test]
fn next_queue_index_after_playing() {
    let mut a = app();
    assert_eq!(a.next_queue_index(), 0);
    a.queue_state.queue_index = Some(4);
    assert_eq!(a.next_queue_index(), 5);
}

#[test]
fn lyrics_arrival_messages() {
    let mut a = app();
    a.lyrics_state.begin_loading("v".to_string());
    a.lyrics_arrived(LyricsOutcome::Loaded(lyrics("v", 3)));
    assert!(!a.lyrics_state.is_loading());
    assert_eq!(a.lyrics_state.lyrics, Some(lyrics("v", 3)));
    assert_eq!(a.status, "plain lyrics loaded from YouTube fallback");
    a.lyrics_arrived(LyricsOutcome::Loaded(LoadedLyrics { instrumental: true, synced: true, ..synced_lyrics("v", &[0]) }));
    assert_eq!(a.status, "instrumental track from LRCLIB");
    a.lyrics_arrived(LyricsOutcome::Loaded(synced_lyrics("v", &[0])));
    assert_eq!(a.status, "synced lyrics loaded from cache/LRCLIB");
    a.lyrics_arrived(LyricsOutcome::Loaded(LoadedLyrics { source: "Lrclib".to_string(), ..lyrics("v", 1) }));
    assert_eq!(a.status, "plain lyrics loaded");
    a.lyrics_arrived(LyricsOutcome::Missing);
    assert_eq!(a.lyrics_state.lyrics, None);
    assert_eq!(a.status, "lyrics not available");
    a.lyrics_arrived(LyricsOutcome::Failed("timeout".to_string()));
    assert_eq!(a.status, "lyrics failed: timeout");
    a.lyrics_arrived(LyricsOutcome::TaskFailed("cancelled".to_string()));
    assert_eq!(a.status, "lyrics task failed: cancelled");
}

#[test]
fn key_ok_guards_overflowing_cursors() {
    let mut a = app();
    a.input_mode = InputMode::Normal;
    a.screen = Screen::Queue;
    assert!(a.key_ok(Key::Char('j'), false));
    a.queue_state.enqueue(track("a"));
    a.queue_state.enqueue(track("b"));
    a.queue_state.queue_selected = usize::MAX;
    assert!(!a.key_ok(Key::Char('j'), false));
    assert!(!a.key_ok(Key::Char('J'), false));
    assert!(!a.key_ok(Key::Char('K'), false));
    assert!(a.key_ok(Key::Char('c'), true));
    assert!(a.key_ok(Key::Char('x'), false));
}

#[test]
fn keys_keep_queue_cursor_and_index_in_range() {
    let mut a = app();
    a.input_mode = InputMode::Normal;
    for id in ["a", "b", "c"] {
        a.queue_state.enqueue(track(id));
    }
    a.queue_state.queue_index = Some(2);
    a.screen = Screen::Queue;
    let keys = [Key::Char('j'), Key::Char('j'), Key::Char('j'), Key::Char('K'), Key::Char('d'), Key::Char('d'), Key::Char('J'), Key::Char('k'), Key::Delete];
    for k in keys {
        a.handle_key(k, false);
        let len = a.queue_state.queue.len();
        assert!(a.queue_state.queue_selected < len || a.queue_state.queue_selected == 0);
        if let Some(i) = a.queue_state.queue_index {
            assert!(i < len);
        }
    }
}

#[test]
fn playback_steps_keep_queue_in_range() {
    let mut a = app();
    for id in ["a", "b"] {
        a.queue_state.enqueue(track(id));
    }
    a.play_queue_at(1);
    a.queue_detached(track("x"));
    assert_eq!(a.queue_state.queue_index, Some(2));
    assert_eq!(queue_ids(&a), vec!["a", "b", "x"]);
    a.start_playlist_queue(vec![track("p")]);
    assert_eq!(a.queue_state.queue_index, Some(0));
    assert_eq!(a.queue_state.queue_selected, 0);
}

#[test]
fn flow_selected_on_queue_plays_entry_then_refills() {
    let mut a = app();
    a.queue_state.enqueue(track("a"));
    a.queue_state.enqueue(track("b"));
    a.screen = Screen::Queue;
    a.queue_state.queue_selected = 1;
    assert_eq!(a.step(Flow::Selected), Action::Play(track("b"), Flow::QueuePlayed(false)));
    assert_eq!(a.queue_state.queue_index, Some(1));
    assert_eq!(a.step(Flow::QueuePlayed(false)), Action::Refill(Flow::End));
    assert_eq!(a.step(Flow::End), Action::Done);
    a.queue_state.queue_source = QueueSource::Playlist;
    assert_eq!(a.step(Flow::QueuePlayed(true)), Action::Done);
}

#[test]
fn flow_selected_detached_and_playlist() {
    let mut a = app();
    a.results = vec![track("r")];
    assert_eq!(a.step(Flow::Selected), Action::Enrich(track("r")));
    a.queue_state.enqueue(track("a"));
    a.queue_state.queue_index = Some(0);
    assert_eq!(a.step(Flow::DetachedReady(track("r"))), Action::Play(track("r"), Flow::RefillAgain));
    assert_eq!(queue_ids(&a), vec!["a", "r"]);
    assert_eq!(a.queue_state.queue_index, Some(1));
    assert_eq!(a.step(Flow::RefillAgain), Action::Refill(Flow::End));

    a.screen = Screen::Playlists;
    assert_eq!(a.step(Flow::Selected), Action::Done);
    assert_eq!(a.status, "no playlist selected");
    a.library_state.playlists.push(LocalPlaylist { name: "p".to_string(), tracks: vec![track("x"), track("y")] });
    a.library_state.playlist_track_selected = 1;
    assert_eq!(a.step(Flow::Selected), Action::EnrichAll(vec![track("x"), track("y")], 1));
    assert_eq!(
        a.step(Flow::PlaylistReady(vec![track("x"), track("y")], 1)),
        Action::Play(track("y"), Flow::QueuePlayed(false))
    );
    assert_eq!(queue_ids(&a), vec!["x", "y"]);
    assert_eq!(a.queue_state.queue_index, Some(1));
    assert_eq!(a.queue_state.queue_source, QueueSource::Playlist);
    assert_eq!(a.step(Flow::QueuePlayed(false)), Action::Done);
}

#[test]
fn flow_next_refills_twice_when_needed() {
    let mut a = app();
    assert_eq!(a.step(Flow::Next), Action::Refill(Flow::NextChecked));
    assert_eq!(a.step(Flow::NextChecked), Action::Refill(Flow::NextPick));
    assert_eq!(a.step(Flow::NextPick), Action::Done);
    assert_eq!(a.status, "no next track");
    a.queue_state.enqueue(track("a"));
    assert_eq!(a.step(Flow::NextChecked), Action::Play(track("a"), Flow::QueuePlayed(false)));
    a.queue_state.queue_source = QueueSource::Playlist;
    a.queue_state.queue_index = None;
    assert_eq!(a.step(Flow::Next), Action::Play(track("a"), Flow::QueuePlayed(false)));
}

#[test]
fn flow_finished_track() {
    let mut a = app();
    assert_eq!(a.step(Flow::Finished), Action::Done);
    a.queue_state.now_playing = Some(track("a"));
    a.queue_state.enqueue(track("a"));
    a.queue_state.enqueue(track("b"));
    a.queue_state.queue_index = Some(0);
    assert_eq!(a.step(Flow::Finished), Action::Refill(Flow::FinishedPick));
    assert_eq!(a.step(Flow::FinishedPick), Action::Play(track("b"), Flow::QueuePlayed(true)));
    assert_eq!(a.status, "autoplay next track");
    assert_eq!(a.step(Flow::QueuePlayed(true)), Action::Refill(Flow::RefillAgain));
    a.queue_state.queue_source = QueueSource::Playlist;
    assert_eq!(a.step(Flow::Finished), Action::Done);
    assert_eq!(a.status, "playlist finished");
    a.queue_state.queue_index = Some(0);
    assert_eq!(a.step(Flow::Finished), Action::Play(track("b"), Flow::QueuePlayed(false)));
    assert_eq!(a.status, "autoplay next playlist track");
}

#[test]
fn flow_previous() {
    let mut a = app();
    assert_eq!(a.step(Flow::Previous), Action::Done);
    assert_eq!(a.status, "no previous track");
    a.queue_state.previous.push(track("p"));
    assert_eq!(a.step(Flow::Previous), Action::Play(track("p"), Flow::End));
    a.queue_state.enqueue(track("a"));
    a.queue_state.enqueue(track("b"));
    a.queue_state.queue_index = Some(1);
    assert_eq!(a.step(Flow::Previous), Action::Play(track("a"), Flow::QueuePlayed(false)));
    assert_eq!(a.queue_state.queue_index, Some(0));
}

#[test]
fn step_ok_guards_the_playing_index() {
    let mut a = app();
    a.queue_state.queue_index = Some(usize::MAX);
    assert!(!a.step_ok(&Flow::Next));
    assert!(a.step_ok(&Flow::Finished));
    assert!(a.step_ok(&Flow::Previous));
    a.queue_state.now_playing = Some(track("a"));
    assert!(!a.step_ok(&Flow::Finished));
}

#[test]
fn active_lyrics_index_follows_position() {
    let mut a = app();
    assert_eq!(a.active_lyrics_index(5000), None);
    a.lyrics_state.lyrics = Some(lyrics("v", 3));
    assert_eq!(a.active_lyrics_index(5000), None);
    a.lyrics_state.lyrics = Some(synced_lyrics("v", &[1000, 2000, 4000]));
    assert_eq!(a.active_lyrics_index(500), None);
    assert_eq!(a.active_lyrics_index(1000), Some(0));
    assert_eq!(a.active_lyrics_index(3999), Some(1));
    assert_eq!(a.active_lyrics_index(4000), Some(2));
    assert_eq!(a.active_lyrics_index(90000), Some(2));
}

#[test]
fn lyrics_header_names_source_kind_and_track() {
    assert_eq!(lyrics("v", 1).header(), "source: YoutubeFallback | kind: plain | track: Song - Band");
    assert_eq!(synced_lyrics("v", &[0]).header(), "source: Lrclib | kind: synced | track: Song - Band");
    let l = LoadedLyrics { instrumental: true, ..synced_lyrics("v", &[0]) };
    assert_eq!(l.header(), "source: Lrclib | kind: instrumental | track: Song - Band");
}

#[test]
fn refill_steps_at_last_index_only_when_needed() {
    let mut a = app();
    a.queue_state.now_playing = Some(track("seed"));
    a.queue_state.queue_source = QueueSource::Playlist;
    a.queue_state.queue_index = Some(usize::MAX);
    assert_eq!(a.refill_seed(), None);
    assert_eq!(a.refill_queue_from(Vec::new()), 0);
    assert!(!a.refill_should_continue(0, 0));
    assert_eq!(a.queue_state.queue_index, Some(usize::MAX));
}
