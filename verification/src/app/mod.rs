//! The application state and the enums that steer it.

use vstd::prelude::*;
use crate::types::track::Track;
use crate::types::playlist::LocalPlaylist;
use crate::app::library_state::LibraryState;
use crate::app::lyrics_state::LyricsState;
use crate::app::queue_state::QueueState;

pub mod flow;
pub mod input;
pub mod library;
pub mod library_state;
pub mod lyrics;
pub mod lyrics_state;
pub mod playback;
pub mod queue_state;

verus! {

/// The play queue is topped up while fewer than this many tracks follow the
/// current one.
pub const MIN_QUEUE_LEN: usize = 5;

/// The tab that is shown.
#[derive(Debug, Clone, Copy, PartialEq, Eq, Structural)]
pub enum Screen {
    Search,
    Queue,
    History,
    Favorites,
    Playlists,
    Lyrics,
}

/// What keystrokes currently go to.
#[derive(Debug, Clone, Copy, PartialEq, Eq, Structural)]
pub enum InputMode {
    Normal,
    TypingSearch,
    TypingPlaylistName,
}

/// Where the queue came from: filled automatically from recommendations, or
/// taken from a playlist.
#[derive(Debug, Clone, Copy, PartialEq, Eq, Structural)]
pub enum QueueSource {
    Auto,
    Playlist,
}

/// Which pane of the playlists screen moves with the cursor.
#[derive(Debug, Clone, Copy, PartialEq, Eq, Structural)]
pub enum PlaylistFocus {
    List,
    Tracks,
}

/// Which part of the library an edit changed, so that the caller saves it.
#[derive(Debug, Clone, Copy, PartialEq, Eq, Structural)]
pub enum Persist {
    Nothing,
    Favorites,
    Playlists,
}

/// Everything the interface shows and edits. The services that fetch,
/// play, cache and save are held by the caller, which hands their results
/// to the methods of this type.
pub struct App {
    pub screen: Screen,
    pub input_mode: InputMode,
    pub query: String,
    pub results: Vec<Track>,
    pub selected: usize,
    pub library_state: LibraryState,
    pub queue_state: QueueState,
    pub lyrics_state: LyricsState,
    pub status: String,
    pub should_quit: bool,
}

impl App {
    /// The start-up state, on the library loaded from disk: the search tab,
    /// typing a query, with an empty queue.
    pub fn new(history: Vec<Track>, favorites: Vec<Track>, playlists: Vec<LocalPlaylist>) -> (r: Self)
        ensures
            r.screen == Screen::Search,
            r.input_mode == InputMode::TypingSearch,
            r.query@.len() == 0,
            r.results@.len() == 0,
            r.selected == 0,
            r.library_state.history@ == history@,
            r.library_state.favorites@ == favorites@,
            r.library_state.playlists@ == playlists@,
            r.library_state.playlist_selected == 0,
            r.library_state.playlist_track_selected == 0,
            r.library_state.playlist_focus == PlaylistFocus::List,
            r.queue_state@.queue.len() == 0,
            r.queue_state@.index is None,
            r.queue_state@.selected == 0,
            r.queue_state@.active_playlist is None,
            r.queue_state@.source == QueueSource::Auto,
            r.queue_state@.now_playing is None,
            r.queue_state@.previous.len() == 0,
            r.queue_state@.ids.is_empty(),
            r.lyrics_state.is_fresh(),
            r.status@ == "type search query, then Enter"@,
            !r.should_quit,
    {
        App {
            screen: Screen::Search,
            input_mode: InputMode::TypingSearch,
            query: String::new(),
            results: Vec::new(),
            selected: 0,
            library_state: LibraryState::new(history, favorites, playlists),
            queue_state: QueueState::new(),
            lyrics_state: LyricsState::new(),
            status: String::from_str("type search query, then Enter"),
            should_quit: false,
        }
    }
}

} // verus!
