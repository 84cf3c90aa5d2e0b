//! Cursor movement, the current selection, and the keyboard: what each key
//! does to the state, and which outside work it asks for.

use vstd::prelude::*;
use crate::app::{App, InputMode, Persist, PlaylistFocus, Screen};
use crate::text::{pop_char, push_char};
use crate::app::library_state::LibraryState;
use crate::app::lyrics_state::LyricsState;
use crate::app::queue_state::{QueueState, seq_has_id, law_moves_follow_playing_track, law_remaining, law_remove_follows_playing_track};
use crate::types::track::Track;

verus! {

/// The element at `i`, if there is one.
pub open spec fn at(s: Seq<Track>, i: int) -> Option<Track> {
    if 0 <= i < s.len() {
        Some(s[i])
    } else {
        None
    }
}

/// One step further, stopping at the last of `len` entries (`len > 0`).
pub open spec fn step_next(cur: usize, len: int) -> usize {
    if cur + 1 < len {
        (cur + 1) as usize
    } else {
        (len - 1) as usize
    }
}

/// One step back, stopping at 0.
pub open spec fn step_prev(cur: usize) -> usize {
    if cur == 0 {
        0
    } else {
        (cur - 1) as usize
    }
}

fn get_track(v: &Vec<Track>, i: usize) -> (r: Option<Track>)
    ensures
        r == at(v@, i as int),
{
    if i < v.len() {
        Some(v[i].clone())
    } else {
        None
    }
}

impl App {
    /// The track under the cursor of the screen shown, if any.
    pub open spec fn selection(self) -> Option<Track> {
        match self.screen {
            Screen::Search => at(self.results@, self.selected as int),
            Screen::Queue => at(self.queue_state.queue@, self.queue_state.queue_selected as int),
            Screen::History => at(self.library_state.history@, self.selected as int),
            Screen::Favorites => at(self.library_state.favorites@, self.selected as int),
            Screen::Playlists => if self.library_state.playlist_selected
                < self.library_state.playlists@.len() {
                at(
                    self.library_state.playlists@[self.library_state.playlist_selected as int].tracks@,
                    self.library_state.playlist_track_selected as int,
                )
            } else {
                None
            },
            Screen::Lyrics => None,
        }
    }

    /// The length of the list shown; on the lyrics screen, the number of
    /// lyric lines held.
    pub open spec fn list_len(self) -> int {
        match self.screen {
            Screen::Search => self.results@.len() as int,
            Screen::Queue => self.queue_state.queue@.len() as int,
            Screen::History => self.library_state.history@.len() as int,
            Screen::Favorites => self.library_state.favorites@.len() as int,
            Screen::Playlists => match self.library_state.playlist_focus {
                PlaylistFocus::List => self.library_state.playlists@.len() as int,
                PlaylistFocus::Tracks => self.library_state.spec_focused_len(),
            },
            Screen::Lyrics => self.lyrics_state.line_count(),
        }
    }

    /// The effect of `select_next`.
    pub open spec fn selected_next(pre: App, post: App) -> bool {
        if pre.screen == Screen::Lyrics {
            post == App {
                lyrics_state: LyricsState {
                    lyrics_scroll: if pre.lyrics_state.lyrics_scroll < usize::MAX {
                        (pre.lyrics_state.lyrics_scroll + 1) as usize
                    } else {
                        pre.lyrics_state.lyrics_scroll
                    },
                    ..pre.lyrics_state
                },
                ..pre
            }
        } else if pre.screen == Screen::Queue {
            let len = pre.queue_state.queue@.len() as int;
            post == App {
                queue_state: QueueState {
                    queue_selected: if len > 0 {
                        step_next(pre.queue_state.queue_selected, len)
                    } else {
                        pre.queue_state.queue_selected
                    },
                    ..pre.queue_state
                },
                ..pre
            }
        } else if pre.screen == Screen::Playlists {
            let lib = pre.library_state;
            match lib.playlist_focus {
                PlaylistFocus::List => {
                    let len = lib.playlists@.len() as int;
                    post == if len > 0 {
                        App {
                            library_state: LibraryState {
                                playlist_selected: step_next(lib.playlist_selected, len),
                                playlist_track_selected: 0,
                                ..lib
                            },
                            ..pre
                        }
                    } else {
                        pre
                    }
                },
                PlaylistFocus::Tracks => {
                    let len = lib.spec_focused_len();
                    post == if len > 0 {
                        App {
                            library_state: LibraryState {
                                playlist_track_selected: step_next(lib.playlist_track_selected, len),
                                ..lib
                            },
                            ..pre
                        }
                    } else {
                        pre
                    }
                },
            }
        } else {
            let len = pre.list_len();
            post == if len > 0 {
                App { selected: step_next(pre.selected, len), ..pre }
            } else {
                pre
            }
        }
    }

    /// The effect of `select_prev`.
    pub open spec fn selected_prev(pre: App, post: App) -> bool {
        if pre.screen == Screen::Lyrics {
            post == App {
                lyrics_state: LyricsState { lyrics_scroll: step_prev(pre.lyrics_state.lyrics_scroll), ..pre.lyrics_state },
                ..pre
            }
        } else if pre.screen == Screen::Queue {
            post == App {
                queue_state: QueueState {
                    queue_selected: step_prev(pre.queue_state.queue_selected),
                    ..pre.queue_state
                },
                ..pre
            }
        } else if pre.screen == Screen::Playlists {
            let lib = pre.library_state;
            post == match lib.playlist_focus {
                PlaylistFocus::List => App {
                    library_state: LibraryState {
                        playlist_selected: step_prev(lib.playlist_selected),
                        playlist_track_selected: 0,
                        ..lib
                    },
                    ..pre
                },
                PlaylistFocus::Tracks => App {
                    library_state: LibraryState {
                        playlist_track_selected: step_prev(lib.playlist_track_selected),
                        ..lib
                    },
                    ..pre
                },
            }
        } else {
            post == App { selected: step_prev(pre.selected), ..pre }
        }
    }

    /// The effect of `toggle_playlist_focus`.
    pub open spec fn focus_toggled(pre: App, post: App) -> bool {
        if pre.screen != Screen::Playlists {
            post == pre
        } else {
            &&& post == App {
                library_state: LibraryState {
                    playlist_focus: post.library_state.playlist_focus,
                    ..pre.library_state
                },
                status: post.status,
                ..pre
            }
            &&& post.library_state.playlist_focus != pre.library_state.playlist_focus
            &&& post.status@ == (match post.library_state.playlist_focus {
                PlaylistFocus::List => "playlist focus: list"@,
                PlaylistFocus::Tracks => "playlist focus: tracks"@,
            })
        }
    }

    /// `select_next` moves a cursor that can still move: the one it moves is
    /// below `usize::MAX` whenever its list is not empty.
    pub open spec fn can_select_next(self) -> bool {
        match self.screen {
            Screen::Lyrics => true,
            Screen::Queue => self.queue_state.queue@.len() > 0 ==> self.queue_state.queue_selected
                < usize::MAX,
            Screen::Playlists => match self.library_state.playlist_focus {
                PlaylistFocus::List => self.library_state.playlists@.len() > 0
                    ==> self.library_state.playlist_selected < usize::MAX,
                PlaylistFocus::Tracks => self.library_state.spec_focused_len() > 0
                    ==> self.library_state.playlist_track_selected < usize::MAX,
            },
            _ => self.list_len() > 0 ==> self.selected < usize::MAX,
        }
    }

    /// The track under the cursor of the screen shown.
    pub fn current_selection(&self) -> (r: Option<Track>)
        ensures
            r == self.selection(),
    {
        match self.screen {
            Screen::Search => get_track(&self.results, self.selected),
            Screen::Queue => {
                if self.queue_state.queue_selected < self.queue_state.queue.len() {
                    Some(self.queue_state.queue[self.queue_state.queue_selected].clone())
                } else {
                    None
                }
            },
            Screen::History => get_track(&self.library_state.history, self.selected),
            Screen::Favorites => get_track(&self.library_state.favorites, self.selected),
            Screen::Playlists => {
                if self.library_state.playlist_selected < self.library_state.playlists.len() {
                    get_track(
                        &self.library_state.playlists[self.library_state.playlist_selected].tracks,
                        self.library_state.playlist_track_selected,
                    )
                } else {
                    None
                }
            },
            Screen::Lyrics => None,
        }
    }

    /// The length of the list shown; on the lyrics screen, the number of
    /// lyric lines held.
    pub fn current_len(&self) -> (r: usize)
        ensures
            r == self.list_len(),
    {
        match self.screen {
            Screen::Search => self.results.len(),
            Screen::Queue => self.queue_state.queue.len(),
            Screen::History => self.library_state.history.len(),
            Screen::Favorites => self.library_state.favorites.len(),
            Screen::Playlists => match self.library_state.playlist_focus {
                PlaylistFocus::List => self.library_state.playlists.len(),
                PlaylistFocus::Tracks => self.library_state.focused_playlist_track_len(),
            },
            Screen::Lyrics => match &self.lyrics_state.lyrics {
                Some(l) => l.lines.len(),
                None => 0,
            },
        }
    }

    /// On the playlists screen, moves the cursor between the list of
    /// playlists and the tracks of the selected one.
    pub fn toggle_playlist_focus(&mut self)
        ensures
            App::focus_toggled(*old(self), *final(self)),
    {
        if self.screen != Screen::Playlists {
            return;
        }
        self.library_state.playlist_focus = match self.library_state.playlist_focus {
            PlaylistFocus::List => PlaylistFocus::Tracks,
            PlaylistFocus::Tracks => PlaylistFocus::List,
        };
        self.status = match self.library_state.playlist_focus {
            PlaylistFocus::List => String::from_str("playlist focus: list"),
            PlaylistFocus::Tracks => String::from_str("playlist focus: tracks"),
        };
    }

    /// Moves the cursor of the screen shown one step down (on the lyrics
    /// screen, scrolls).
    pub fn select_next(&mut self)
        requires
            old(self).can_select_next(),
        ensures
            App::selected_next(*old(self), *final(self)),
    {
        if self.screen == Screen::Lyrics {
            self.lyrics_state.lyrics_scroll = self.lyrics_state.lyrics_scroll.saturating_add(1);
            return;
        }
        if self.screen == Screen::Queue {
            let len = self.queue_state.queue.len();
            if len > 0 {
                let s = self.queue_state.queue_selected + 1;
                self.queue_state.queue_selected = if s < len { s } else { len - 1 };
            }
            return;
        }
        if self.screen == Screen::Playlists {
            match self.library_state.playlist_focus {
                PlaylistFocus::List => {
                    let len = self.library_state.playlists.len();
                    if len > 0 {
                        let s = self.library_state.playlist_selected + 1;
                        self.library_state.playlist_selected = if s < len { s } else { len - 1 };
                        self.library_state.playlist_track_selected = 0;
                    }
                },
                PlaylistFocus::Tracks => {
                    let len = self.library_state.focused_playlist_track_len();
                    if len > 0 {
                        let s = self.library_state.playlist_track_selected + 1;
                        self.library_state.playlist_track_selected = if s < len { s } else { len - 1 };
                    }
                },
            }
            return;
        }
        let len = self.current_len();
        if len > 0 {
            let s = self.selected + 1;
            self.selected = if s < len { s } else { len - 1 };
        }
    }

    /// Moves the cursor of the screen shown one step up (on the lyrics
    /// screen, scrolls back).
    pub fn select_prev(&mut self)
        ensures
            App::selected_prev(*old(self), *final(self)),
    {
        if self.screen == Screen::Lyrics {
            self.lyrics_state.lyrics_scroll = self.lyrics_state.lyrics_scroll.saturating_sub(1);
            return;
        }
        if self.screen == Screen::Queue {
            self.queue_state.queue_selected = self.queue_state.queue_selected.saturating_sub(1);
            return;
        }
        if self.screen == Screen::Playlists {
            match self.library_state.playlist_focus {
                PlaylistFocus::List => {
                    self.library_state.playlist_selected = self.library_state.playlist_selected.saturating_sub(1);
                    self.library_state.playlist_track_selected = 0;
                },
                PlaylistFocus::Tracks => {
                    self.library_state.playlist_track_selected = self.library_state.playlist_track_selected.saturating_sub(1);
                },
            }
            return;
        }
        self.selected = self.selected.saturating_sub(1);
    }
}


/// A key press, as far as the interface tells keys apart.
#[derive(Debug, Clone, Copy, PartialEq, Eq, Structural)]
pub enum Key {
    Char(char),
    Esc,
    Enter,
    Backspace,
    Tab,
    Up,
    Down,
    Left,
    Right,
    Delete,
    Other,
}

/// Outside work that a key asks for; the caller performs it.
#[derive(Debug, PartialEq, Eq)]
pub enum Effect {
    Nothing,
    /// Search for this query, then `show_results`.
    Search(String),
    /// Save the favorites; a failure ends the program.
    SaveFavorites,
    /// Save the playlists; a failure ends the program.
    SavePlaylists,
    /// Save the favorites; a failure is ignored.
    TrySaveFavorites,
    /// Save the playlists; a failure is ignored.
    TrySavePlaylists,
    /// Call `open_lyrics` with the video id of the lyrics held, and fetch
    /// what it returns.
    OpenLyrics,
    /// Play what `play_selected` asks for.
    PlaySelected,
    PlayNext,
    PlayPrevious,
    RefillQueue,
    TogglePause,
    /// Stop the player, then `report_stopped`.
    Stop,
    /// Cache what `cache_target` returns.
    CacheSelected,
    VolumeUp,
    VolumeDown,
    /// Seek by this many seconds.
    Seek(i64),
}

impl App {
    /// The effect of a key typed into the search query.
    pub open spec fn search_key(pre: App, post: App, key: Key, eff: Effect) -> bool {
        match key {
            Key::Esc => eff == Effect::Nothing && post == (App { input_mode: InputMode::Normal, ..pre }),
            Key::Enter => exists|r: Option<String>| #[trigger] App::search_begun(pre, post, r) && eff == (match r {
                Some(q) => Effect::Search(q),
                None => Effect::Nothing,
            }),
            Key::Backspace => eff == Effect::Nothing && post == (App { query: post.query, ..pre }) && post.query@
                == (if pre.query@.len() == 0 { pre.query@ } else { pre.query@.drop_last() }),
            Key::Char(c) => eff == Effect::Nothing && post == (App { query: post.query, ..pre }) && post.query@
                == pre.query@.push(c),
            _ => eff == Effect::Nothing && post == pre,
        }
    }

    /// The effect of a key typed into the name of a new playlist.
    pub open spec fn playlist_name_key(pre: App, post: App, key: Key, eff: Effect) -> bool {
        match key {
            Key::Esc => eff == Effect::Nothing && post == (App { query: post.query, input_mode: InputMode::Normal, ..pre })
                && post.query@.len() == 0,
            Key::Enter => exists|save: bool| #[trigger] App::playlist_created(pre, post, save) && eff == (if save {
                Effect::SavePlaylists
            } else {
                Effect::Nothing
            }),
            Key::Backspace => eff == Effect::Nothing && post == (App { query: post.query, ..pre }) && post.query@
                == (if pre.query@.len() == 0 { pre.query@ } else { pre.query@.drop_last() }),
            Key::Char(c) => eff == Effect::Nothing && post == (App { query: post.query, ..pre }) && post.query@
                == pre.query@.push(c),
            _ => eff == Effect::Nothing && post == pre,
        }
    }

    /// `Effect::Nothing` and only the screen changed, to `s`.
    pub open spec fn switched_to(pre: App, post: App, eff: Effect, s: Screen) -> bool {
        eff == Effect::Nothing && post == (App { screen: s, ..pre })
    }

    /// The effect of a key in normal mode.
    pub open spec fn normal_key(pre: App, post: App, key: Key, eff: Effect) -> bool {
        let untouched = post == pre;
        if key == Key::Char('q') || key == Key::Esc {
            eff == Effect::Nothing && post == (App { should_quit: true, ..pre })
        } else if key == Key::Char('/') {
            &&& eff == Effect::Nothing
            &&& post == (App { screen: Screen::Search, input_mode: InputMode::TypingSearch, query: post.query, status: post.status, ..pre })
            &&& post.query@.len() == 0
            &&& post.status@ == "search mode"@
        } else if key == Key::Char('1') {
            App::switched_to(pre, post, eff, Screen::Search)
        } else if key == Key::Char('2') {
            App::switched_to(pre, post, eff, Screen::Queue)
        } else if key == Key::Char('3') {
            App::switched_to(pre, post, eff, Screen::History)
        } else if key == Key::Char('4') {
            App::switched_to(pre, post, eff, Screen::Favorites)
        } else if key == Key::Char('5') {
            App::switched_to(pre, post, eff, Screen::Playlists)
        } else if key == Key::Char('6') {
            untouched && eff == Effect::OpenLyrics
        } else if key == Key::Tab {
            eff == Effect::Nothing && App::focus_toggled(pre, post)
        } else if key == Key::Down || key == Key::Char('j') {
            eff == Effect::Nothing && App::selected_next(pre, post)
        } else if key == Key::Up || key == Key::Char('k') {
            eff == Effect::Nothing && App::selected_prev(pre, post)
        } else if key == Key::Char('J') {
            eff == Effect::Nothing && App::queue_moved_down(pre, post)
        } else if key == Key::Char('K') {
            eff == Effect::Nothing && App::queue_moved_up(pre, post)
        } else if key == Key::Enter {
            untouched && eff == Effect::PlaySelected
        } else if key == Key::Char('a') {
            eff == Effect::Nothing && App::selection_enqueued(pre, post)
        } else if key == Key::Char('d') || key == Key::Delete {
            exists|r: Persist| #[trigger] App::selection_removed(pre, post, r) && eff == (match r {
                Persist::Nothing => Effect::Nothing,
                Persist::Favorites => Effect::TrySaveFavorites,
                Persist::Playlists => Effect::TrySavePlaylists,
            })
        } else if key == Key::Char('n') {
            untouched && eff == Effect::PlayNext
        } else if key == Key::Char('b') {
            untouched && eff == Effect::PlayPrevious
        } else if key == Key::Char('r') {
            untouched && eff == Effect::RefillQueue
        } else if key == Key::Char(' ') {
            untouched && eff == Effect::TogglePause
        } else if key == Key::Char('s') {
            untouched && eff == Effect::Stop
        } else if key == Key::Char('c') {
            untouched && eff == Effect::CacheSelected
        } else if key == Key::Char('f') {
            exists|save: bool| #[trigger] App::favorite_toggled(pre, post, save) && eff == (if save {
                Effect::SaveFavorites
            } else {
                Effect::Nothing
            })
        } else if key == Key::Char('p') {
            exists|save: bool| #[trigger] App::added_to_default(pre, post, save) && eff == (if save {
                Effect::SavePlaylists
            } else {
                Effect::Nothing
            })
        } else if key == Key::Char('P') {
            &&& eff == Effect::Nothing
            &&& post == (App { screen: Screen::Playlists, input_mode: InputMode::TypingPlaylistName, query: post.query, status: post.status, ..pre })
            &&& post.query@.len() == 0
            &&& post.status@ == "type playlist name, Enter to create"@
        } else if key == Key::Char('+') || key == Key::Char('=') {
            untouched && eff == Effect::VolumeUp
        } else if key == Key::Char('-') {
            untouched && eff == Effect::VolumeDown
        } else if key == Key::Char('h') || key == Key::Left {
            untouched && eff == Effect::Seek(-5i64)
        } else if key == Key::Char('l') || key == Key::Right {
            untouched && eff == Effect::Seek(5i64)
        } else {
            untouched && eff == Effect::Nothing
        }
    }

    /// The preconditions that the key's action has in normal mode: a cursor
    /// that moves or a queue entry that moves must be able to.
    pub open spec fn normal_key_ok(self, key: Key) -> bool {
        &&& (key == Key::Down || key == Key::Char('j')) ==> self.can_select_next()
        &&& key == Key::Char('J') ==> (self.screen == Screen::Queue ==> self.queue_state.queue_selected < usize::MAX)
        &&& key == Key::Char('K') ==> (self.screen == Screen::Queue && self.queue_state@.can_move_up()
            ==> self.queue_state.queue_selected < self.queue_state.queue@.len()
            && self.queue_state.queue_index != Some(usize::MAX))
    }

    /// The effect of a key, in whatever mode: Ctrl+C quits; otherwise the
    /// key goes to the search query, the playlist name, or normal mode.
    pub open spec fn key_handled(pre: App, post: App, key: Key, ctrl: bool, eff: Effect) -> bool {
        if ctrl && key == Key::Char('c') {
            eff == Effect::Nothing && post == (App { should_quit: true, ..pre })
        } else {
            match pre.input_mode {
                InputMode::TypingSearch => App::search_key(pre, post, key, eff),
                InputMode::TypingPlaylistName => App::playlist_name_key(pre, post, key, eff),
                InputMode::Normal => App::normal_key(pre, post, key, eff),
            }
        }
    }

    /// A key typed into the search query: Esc leaves typing, Enter starts
    /// the search, Backspace deletes, a character is appended.
    pub fn handle_search_input(&mut self, key: Key) -> (eff: Effect)
        ensures
            App::search_key(*old(self), *final(self), key, eff),
    {
        match key {
            Key::Esc => {
                self.input_mode = InputMode::Normal;
                Effect::Nothing
            },
            Key::Enter => {
                let r = self.begin_search();
                match r {
                    Some(q) => Effect::Search(q),
                    None => Effect::Nothing,
                }
            },
            Key::Backspace => {
                pop_char(&mut self.query);
                Effect::Nothing
            },
            Key::Char(c) => {
                push_char(&mut self.query, c);
                Effect::Nothing
            },
            _ => Effect::Nothing,
        }
    }

    /// A key typed into the name of a new playlist: Esc drops the name and
    /// leaves typing, Enter creates the playlist, Backspace deletes, a
    /// character is appended.
    pub fn handle_playlist_name_input(&mut self, key: Key) -> (eff: Effect)
        ensures
            App::playlist_name_key(*old(self), *final(self), key, eff),
    {
        match key {
            Key::Esc => {
                self.query = String::new();
                self.input_mode = InputMode::Normal;
                Effect::Nothing
            },
            Key::Enter => {
                let save = self.create_playlist_from_query();
                if save {
                    Effect::SavePlaylists
                } else {
                    Effect::Nothing
                }
            },
            Key::Backspace => {
                pop_char(&mut self.query);
                Effect::Nothing
            },
            Key::Char(c) => {
                push_char(&mut self.query, c);
                Effect::Nothing
            },
            _ => Effect::Nothing,
        }
    }

    /// A key in normal mode.
    pub fn handle_normal_key(&mut self, key: Key) -> (eff: Effect)
        requires
            old(self).normal_key_ok(key),
        ensures
            App::normal_key(*old(self), *final(self), key, eff),
    {
        if key == Key::Char('q') || key == Key::Esc {
            self.should_quit = true;
            Effect::Nothing
        } else if key == Key::Char('/') {
            self.screen = Screen::Search;
            self.input_mode = InputMode::TypingSearch;
            self.query = String::new();
            self.status = String::from_str("search mode");
            Effect::Nothing
        } else if key == Key::Char('1') {
            self.screen = Screen::Search;
            Effect::Nothing
        } else if key == Key::Char('2') {
            self.screen = Screen::Queue;
            Effect::Nothing
        } else if key == Key::Char('3') {
            self.screen = Screen::History;
            Effect::Nothing
        } else if key == Key::Char('4') {
            self.screen = Screen::Favorites;
            Effect::Nothing
        } else if key == Key::Char('5') {
            self.screen = Screen::Playlists;
            Effect::Nothing
        } else if key == Key::Char('6') {
            Effect::OpenLyrics
        } else if key == Key::Tab {
            self.toggle_playlist_focus();
            Effect::Nothing
        } else if key == Key::Down || key == Key::Char('j') {
            self.select_next();
            Effect::Nothing
        } else if key == Key::Up || key == Key::Char('k') {
            self.select_prev();
            Effect::Nothing
        } else if key == Key::Char('J') {
            self.move_queue_down();
            Effect::Nothing
        } else if key == Key::Char('K') {
            self.move_queue_up();
            Effect::Nothing
        } else if key == Key::Enter {
            Effect::PlaySelected
        } else if key == Key::Char('a') {
            self.enqueue_selected();
            Effect::Nothing
        } else if key == Key::Char('d') || key == Key::Delete {
            let r = self.remove_selected();
            match r {
                Persist::Nothing => Effect::Nothing,
                Persist::Favorites => Effect::TrySaveFavorites,
                Persist::Playlists => Effect::TrySavePlaylists,
            }
        } else if key == Key::Char('n') {
            Effect::PlayNext
        } else if key == Key::Char('b') {
            Effect::PlayPrevious
        } else if key == Key::Char('r') {
            Effect::RefillQueue
        } else if key == Key::Char(' ') {
            Effect::TogglePause
        } else if key == Key::Char('s') {
            Effect::Stop
        } else if key == Key::Char('c') {
            Effect::CacheSelected
        } else if key == Key::Char('f') {
            let save = self.toggle_favorite_selected();
            if save {
                Effect::SaveFavorites
            } else {
                Effect::Nothing
            }
        } else if key == Key::Char('p') {
            let save = self.add_selected_to_default_playlist();
            if save {
                Effect::SavePlaylists
            } else {
                Effect::Nothing
            }
        } else if key == Key::Char('P') {
            self.screen = Screen::Playlists;
            self.input_mode = InputMode::TypingPlaylistName;
            self.query = String::new();
            self.status = String::from_str("type playlist name, Enter to create");
            Effect::Nothing
        } else if key == Key::Char('+') || key == Key::Char('=') {
            Effect::VolumeUp
        } else if key == Key::Char('-') {
            Effect::VolumeDown
        } else if key == Key::Char('h') || key == Key::Left {
            Effect::Seek(-5)
        } else if key == Key::Char('l') || key == Key::Right {
            Effect::Seek(5)
        } else {
            Effect::Nothing
        }
    }

    /// Whether `handle_key` may be called with this key: tests exactly its
    /// precondition.
    pub fn key_ok(&self, key: Key, ctrl: bool) -> (r: bool)
        ensures
            r == (self.input_mode == InputMode::Normal && !(ctrl && key == Key::Char('c')) ==> self.normal_key_ok(key)),
    {
        if self.input_mode != InputMode::Normal || (ctrl && key == Key::Char('c')) {
            return true;
        }
        if key == Key::Down || key == Key::Char('j') {
            let ok = match self.screen {
                Screen::Lyrics => true,
                Screen::Queue => self.queue_state.queue.len() == 0 || self.queue_state.queue_selected < usize::MAX,
                Screen::Playlists => match self.library_state.playlist_focus {
                    PlaylistFocus::List => self.library_state.playlists.len() == 0 || self.library_state.playlist_selected < usize::MAX,
                    PlaylistFocus::Tracks => self.library_state.focused_playlist_track_len() == 0
                        || self.library_state.playlist_track_selected < usize::MAX,
                },
                _ => self.current_len() == 0 || self.selected < usize::MAX,
            };
            return ok;
        }
        if key == Key::Char('J') {
            return self.screen != Screen::Queue || self.queue_state.queue_selected < usize::MAX;
        }
        if key == Key::Char('K') {
            let can_move = self.queue_state.queue_selected != 0 && self.queue_state.queue.len() >= 2;
            return !(self.screen == Screen::Queue && can_move) || (self.queue_state.queue_selected
                < self.queue_state.queue.len() && self.queue_state.queue_index != Some(usize::MAX));
        }
        true
    }

    /// Any key: Ctrl+C quits; otherwise the key goes to the handler of the
    /// input mode.
    pub fn handle_key(&mut self, key: Key, ctrl: bool) -> (eff: Effect)
        requires
            old(self).input_mode == InputMode::Normal && !(ctrl && key == Key::Char('c')) ==> old(self).normal_key_ok(key),
        ensures
            App::key_handled(*old(self), *final(self), key, ctrl, eff),
    {
        if ctrl && key == Key::Char('c') {
            self.should_quit = true;
            return Effect::Nothing;
        }
        match self.input_mode {
            InputMode::TypingSearch => self.handle_search_input(key),
            InputMode::TypingPlaylistName => self.handle_playlist_name_input(key),
            InputMode::Normal => self.handle_normal_key(key),
        }
    }
}


/// No key breaks the queue: when the playing index and the cursor of the
/// queue point into it before a key is handled, they do afterwards.
pub proof fn law_keys_keep_queue_well_formed(pre: App, post: App, key: Key, ctrl: bool, eff: Effect)
    requires
        pre.queue_state@.wf(),
        App::key_handled(pre, post, key, ctrl, eff),
    ensures
        post.queue_state@.wf(),
{
    if !(ctrl && key == Key::Char('c')) && pre.input_mode == InputMode::Normal {
        if key == Key::Char('J') {
            if pre.screen == Screen::Queue && pre.queue_state@.can_move_down() {
                law_moves_follow_playing_track(pre.queue_state@);
            }
        } else if key == Key::Char('K') {
            if pre.screen == Screen::Queue && pre.queue_state@.can_move_up() {
                law_moves_follow_playing_track(pre.queue_state@);
            }
        } else if key == Key::Char('a') {
            if let Some(t) = pre.selection() {
                if !seq_has_id(pre.queue_state@.queue, t.video_id@) {
                    law_remaining(pre.queue_state@, t);
                }
            }
        } else if key == Key::Char('d') || key == Key::Delete {
            if pre.screen == Screen::Queue && pre.queue_state.queue_selected < pre.queue_state.queue@.len() {
                law_remove_follows_playing_track(pre.queue_state@);
            }
        }
    }
}

} // verus!
