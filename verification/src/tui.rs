//! The text that the terminal interface shows: tab labels, list rows,
//! titles, the now-playing pane and the status line. Laying it out and
//! drawing it is left to the caller.

use vstd::prelude::*;
use crate::app::{App, InputMode, PlaylistFocus, QueueSource, Screen};
use crate::app::input::Key;
use crate::app::input::Effect;
use crate::app::lyrics::clock;
use crate::app::lyrics_state::header_of;
use crate::text::{decimal, decimal_string};
use crate::types::playlist::LocalPlaylist;
use crate::types::track::{Track, duration_text, format_duration, label_of, url_of};

verus! {

/// The number of lyric lines that fit in an area `area_height` rows high:
/// four rows go to the border and the header.
pub open spec fn lyrics_height(area_height: u16) -> usize {
    (if area_height < 4 { 0 } else { area_height - 4 }) as usize
}

/// The label of a tab.
pub open spec fn spec_tab_label(s: Screen) -> Seq<char> {
    match s {
        Screen::Search => "1 Search"@,
        Screen::Queue => "2 Queue"@,
        Screen::History => "3 History"@,
        Screen::Favorites => "4 Favorites"@,
        Screen::Playlists => "5 Playlists"@,
        Screen::Lyrics => "6 Lyrics"@,
    }
}

/// The row of a track list: cursor marker, playing marker, title, artist,
/// length and whether the audio is cached.
pub open spec fn spec_track_row(t: Track, index: usize, selected: usize, playing: Option<usize>) -> Seq<char> {
    (if index == selected { "›"@ } else { " "@ }) + " "@ + (if playing == Some(index) { "▶ "@ } else { "  "@ })
        + t.title@ + " - "@ + t.artist@ + " ["@ + duration_text(t.duration) + "] ("@ + (if t.cached_path is Some {
        "cached"@
    } else {
        "remote"@
    }) + ")"@
}

/// The row of a playlist: cursor marker, name and number of tracks.
pub open spec fn spec_playlist_row(p: LocalPlaylist, index: usize, selected: usize) -> Seq<char> {
    (if index == selected { "›"@ } else { " "@ }) + " "@ + p.name@ + " ("@ + decimal(p.tracks@.len()) + ")"@
}

/// The keys listed in the status line.
pub open spec fn help_text() -> Seq<char> {
    " | / search | 1-6 tabs | Tab playlist focus | Enter play | a queue | r refill | n/b next/prev | f favorite | p playlist | c cache | Space pause | q quit"@
}

/// The name of an input mode in the status line.
pub open spec fn mode_name(m: InputMode) -> Seq<char> {
    match m {
        InputMode::Normal => "NORMAL"@,
        InputMode::TypingSearch => "SEARCH"@,
        InputMode::TypingPlaylistName => "PLAYLIST NAME"@,
    }
}

/// The label of a tab.
pub fn tab_label(s: Screen) -> (r: &'static str)
    ensures
        r@ == spec_tab_label(s),
{
    match s {
        Screen::Search => "1 Search",
        Screen::Queue => "2 Queue",
        Screen::History => "3 History",
        Screen::Favorites => "4 Favorites",
        Screen::Playlists => "5 Playlists",
        Screen::Lyrics => "6 Lyrics",
    }
}

/// The row for the track at `index` of a list whose cursor is at
/// `selected` and whose playing entry, if any, is `playing`.
pub fn track_row(t: &Track, index: usize, selected: usize, playing: Option<usize>) -> (r: String)
    ensures
        r@ == spec_track_row(*t, index, selected, playing),
{
    let mut r = if index == selected {
        String::from_str("›")
    } else {
        String::from_str(" ")
    };
    r.append(" ");
    let is_playing = match playing {
        Some(p) => p == index,
        None => false,
    };
    r.append(if is_playing { "▶ " } else { "  " });
    r.append(t.title.as_str());
    r.append(" - ");
    r.append(t.artist.as_str());
    r.append(" [");
    r.append(format_duration(t.duration).as_str());
    r.append("] (");
    r.append(if t.cached_path.is_some() { "cached" } else { "remote" });
    r.append(")");
    r
}

/// The row for the playlist at `index` of the list of playlists.
pub fn playlist_row(p: &LocalPlaylist, index: usize, selected: usize) -> (r: String)
    ensures
        r@ == spec_playlist_row(*p, index, selected),
{
    let mut r = if index == selected {
        String::from_str("›")
    } else {
        String::from_str(" ")
    };
    r.append(" ");
    r.append(p.name.as_str());
    r.append(" (");
    r.append(decimal_string(p.tracks.len() as u64).as_str());
    r.append(")");
    r
}

/// `rows` are the rows of `tracks` for a list whose cursor is at `selected`
/// and whose playing entry, if any, is `playing`.
pub open spec fn rows_of(rows: Seq<String>, tracks: Seq<Track>, selected: usize, playing: Option<usize>) -> bool {
    &&& rows.len() == tracks.len()
    &&& forall|i: int| 0 <= i < rows.len() ==> #[trigger] rows[i]@ == spec_track_row(tracks[i], i as usize, selected, playing)
}

/// The rows of a list of tracks.
pub fn track_rows(tracks: &Vec<Track>, selected: usize, playing: Option<usize>) -> (r: Vec<String>)
    ensures
        rows_of(r@, tracks@, selected, playing),
{
    let mut r: Vec<String> = Vec::new();
    let n = tracks.len();
    let mut i: usize = 0;
    while i < n
        invariant
            n == tracks@.len(),
            0 <= i <= n,
            r@.len() == i,
            forall|j: int| 0 <= j < i ==> #[trigger] r@[j]@ == spec_track_row(tracks@[j], j as usize, selected, playing),
        decreases n - i,
    {
        r.push(track_row(&tracks[i], i, selected, playing));
        i = i + 1;
    }
    r
}

fn queue_rows(q: &std::collections::VecDeque<Track>, selected: usize, playing: Option<usize>) -> (r: Vec<String>)
    ensures
        rows_of(r@, q@, selected, playing),
{
    let mut r: Vec<String> = Vec::new();
    let n = q.len();
    let mut i: usize = 0;
    while i < n
        invariant
            n == q@.len(),
            0 <= i <= n,
            r@.len() == i,
            forall|j: int| 0 <= j < i ==> #[trigger] r@[j]@ == spec_track_row(q@[j], j as usize, selected, playing),
        decreases n - i,
    {
        r.push(track_row(&q[i], i, selected, playing));
        i = i + 1;
    }
    r
}

impl App {
    /// The lines of the now-playing pane. `position` and `player_duration`
    /// are what the player reports, in whole seconds; `volume` is its volume
    /// as it renders it.
    pub open spec fn spec_now_playing_lines(self, position: Option<u64>, player_duration: Option<u64>, volume: Seq<char>) -> Seq<Seq<char>> {
        match self.queue_state.now_playing {
            None => seq!["No track playing"@],
            Some(t) => seq![
                "Title : "@ + t.title@,
                "Artist: "@ + t.artist@,
                "Time  : "@ + clock(match position {
                    Some(p) => p,
                    None => 0,
                }) + seq!['/'] + clock(self.shown_duration(player_duration)),
                "Volume: "@ + volume,
                "Queue : "@ + decimal(self.queue_state.queue@.len()) + " track(s), source: "@ + (
                match self.queue_state.queue_source {
                    QueueSource::Auto => "auto"@,
                    QueueSource::Playlist => "playlist"@,
                }) + ", index: "@ + decimal(match self.queue_state.queue_index {
                    Some(i) => (i + 1) as nat,
                    None => 0,
                }),
                "Source: "@ + match t.cached_path {
                    Some(p) => p@,
                    None => url_of(t.video_id@),
                },
            ],
        }
    }

    /// The title and rows of the track list that the search, queue,
    /// history and favorites screens show; `None` on the other screens.
    pub fn track_list(&self) -> (r: Option<(&'static str, Vec<String>)>)
        ensures
            match self.screen {
                Screen::Search => r matches Some((title, rows)) && title@ == " Results "@
                    && rows_of(rows@, self.results@, self.selected, None),
                Screen::Queue => r matches Some((title, rows)) && title@ == " Queue "@
                    && rows_of(rows@, self.queue_state.queue@, self.queue_state.queue_selected, self.queue_state.queue_index),
                Screen::History => r matches Some((title, rows)) && title@ == " History "@
                    && rows_of(rows@, self.library_state.history@, self.selected, None),
                Screen::Favorites => r matches Some((title, rows)) && title@ == " Favorites "@
                    && rows_of(rows@, self.library_state.favorites@, self.selected, None),
                _ => r is None,
            },
    {
        match self.screen {
            Screen::Search => Some((" Results ", track_rows(&self.results, self.selected, None))),
            Screen::Queue => Some((
                " Queue ",
                queue_rows(&self.queue_state.queue, self.queue_state.queue_selected, self.queue_state.queue_index),
            )),
            Screen::History => Some((" History ", track_rows(&self.library_state.history, self.selected, None))),
            Screen::Favorites => Some((" Favorites ", track_rows(&self.library_state.favorites, self.selected, None))),
            _ => None,
        }
    }

    /// The rows of the list of playlists.
    pub fn playlist_rows(&self) -> (r: Vec<String>)
        ensures
            r@.len() == self.library_state.playlists@.len(),
            forall|i: int| 0 <= i < r@.len() ==> #[trigger] r@[i]@ == spec_playlist_row(
                self.library_state.playlists@[i],
                i as usize,
                self.library_state.playlist_selected,
            ),
    {
        let p = &self.library_state.playlists;
        let mut r: Vec<String> = Vec::new();
        let n = p.len();
        let mut i: usize = 0;
        while i < n
            invariant
                n == p@.len(),
                0 <= i <= n,
                r@.len() == i,
                forall|j: int| 0 <= j < i ==> #[trigger] r@[j]@ == spec_playlist_row(p@[j], j as usize, self.library_state.playlist_selected),
            decreases n - i,
        {
            r.push(playlist_row(&p[i], i, self.library_state.playlist_selected));
            i = i + 1;
        }
        r
    }

    /// The title and rows of the tracks pane of the playlists screen, for
    /// the selected playlist; `None` when no playlist is selected, where the
    /// pane says there are no playlists.
    pub fn playlist_pane(&self) -> (r: Option<(String, Vec<String>)>)
        ensures
            ({
                let lib = self.library_state;
                let ps = lib.playlist_selected as int;
                if ps < lib.playlists@.len() {
                    let p = lib.playlists@[ps];
                    r matches Some((title, rows)) && title@ == (match lib.playlist_focus {
                        PlaylistFocus::Tracks => " "@ + p.name@ + " [focused] - Enter play playlist queue "@,
                        PlaylistFocus::List => " "@ + p.name@ + " "@,
                    }) && rows_of(rows@, p.tracks@, lib.playlist_track_selected, None)
                } else {
                    r is None
                }
            }),
    {
        let ps = self.library_state.playlist_selected;
        if ps < self.library_state.playlists.len() {
            let p = &self.library_state.playlists[ps];
            Some((
                self.playlist_tracks_title(p),
                track_rows(&p.tracks, self.library_state.playlist_track_selected, None),
            ))
        } else {
            None
        }
    }

    /// The lines of the now-playing pane.
    pub fn now_playing_lines(&self, position: Option<u64>, player_duration: Option<u64>, volume: String) -> (r: Vec<String>)
        requires
            self.queue_state.now_playing is Some ==> self.queue_state.queue_index != Some(usize::MAX),
        ensures
            r@.len() == self.spec_now_playing_lines(position, player_duration, volume@).len(),
            forall|i: int| 0 <= i < r@.len() ==> #[trigger] r@[i]@ == self.spec_now_playing_lines(position, player_duration, volume@)[i],
    {
        let mut r: Vec<String> = Vec::new();
        match &self.queue_state.now_playing {
            None => {
                r.push(String::from_str("No track playing"));
            },
            Some(t) => {
                let mut title = String::from_str("Title : ");
                title.append(t.title.as_str());
                r.push(title);
                let mut artist = String::from_str("Artist: ");
                artist.append(t.artist.as_str());
                r.push(artist);
                let mut time = String::from_str("Time  : ");
                time.append(self.player_position_label(position, player_duration).as_str());
                r.push(time);
                let mut vol = String::from_str("Volume: ");
                vol.append(volume.as_str());
                r.push(vol);
                let mut queue = String::from_str("Queue : ");
                queue.append(decimal_string(self.queue_state.queue.len() as u64).as_str());
                queue.append(" track(s), source: ");
                queue.append(self.queue_source_label());
                queue.append(", index: ");
                let shown = match self.queue_state.queue_index {
                    Some(i) => i + 1,
                    None => 0,
                };
                queue.append(decimal_string(shown as u64).as_str());
                r.push(queue);
                let mut source = String::from_str("Source: ");
                match &t.cached_path {
                    Some(p) => source.append(p.as_str()),
                    None => source.append(t.url().as_str()),
                }
                r.push(source);
            },
        }
        r
    }

    /// The status line: the input mode, the status message and the keys.
    pub fn status_line(&self) -> (r: String)
        ensures
            r@ == mode_name(self.input_mode) + " | "@ + self.status@ + help_text(),
    {
        let mut r = String::from_str(match self.input_mode {
            InputMode::Normal => "NORMAL",
            InputMode::TypingSearch => "SEARCH",
            InputMode::TypingPlaylistName => "PLAYLIST NAME",
        });
        r.append(" | ");
        r.append(self.status.as_str());
        r.append(" | / search | 1-6 tabs | Tab playlist focus | Enter play | a queue | r refill | n/b next/prev | f favorite | p playlist | c cache | Space pause | q quit");
        r
    }

    /// The title of the search box, which says whether a query is being
    /// typed.
    pub fn search_input_title(&self) -> (r: &'static str)
        ensures
            r@ == (if self.input_mode == InputMode::TypingSearch {
                " Search input - typing "@
            } else {
                " Search input - press / "@
            }),
    {
        if self.input_mode == InputMode::TypingSearch {
            " Search input - typing "
        } else {
            " Search input - press / "
        }
    }

    /// The title of the list of playlists, which says where the focus is.
    pub fn playlists_title(&self) -> (r: &'static str)
        ensures
            r@ == (match self.library_state.playlist_focus {
                PlaylistFocus::List => " Playlists [focused] - Tab tracks "@,
                PlaylistFocus::Tracks => " Playlists - Tab list "@,
            }),
    {
        match self.library_state.playlist_focus {
            PlaylistFocus::List => " Playlists [focused] - Tab tracks ",
            PlaylistFocus::Tracks => " Playlists - Tab list ",
        }
    }

    /// The title of the track list of playlist `p`, which says whether it
    /// has the focus.
    pub fn playlist_tracks_title(&self, p: &LocalPlaylist) -> (r: String)
        ensures
            r@ == (match self.library_state.playlist_focus {
                PlaylistFocus::Tracks => " "@ + p.name@ + " [focused] - Enter play playlist queue "@,
                PlaylistFocus::List => " "@ + p.name@ + " "@,
            }),
    {
        let mut r = String::from_str(" ");
        r.append(p.name.as_str());
        match self.library_state.playlist_focus {
            PlaylistFocus::Tracks => r.append(" [focused] - Enter play playlist queue "),
            PlaylistFocus::List => r.append(" "),
        }
        r
    }

    /// The lyric lines held, none when no lyrics are.
    pub open spec fn held_lines(self) -> Seq<String> {
        match self.lyrics_state.lyrics {
            Some(l) => l.lines@,
            None => Seq::empty(),
        }
    }

    /// Whether the lyrics held are synced.
    pub open spec fn held_synced(self) -> bool {
        match self.lyrics_state.lyrics {
            Some(l) => l.synced,
            None => false,
        }
    }

    /// See `lyrics_window_start`.
    pub open spec fn window_start_of(self, active: Option<usize>, height: usize) -> int {
        match active {
            Some(i) if self.held_synced() => if i < height / 2 { 0 } else { i - height / 2 },
            _ => self.lyrics_state.lyrics_scroll as int,
        }
    }

    /// See `lyrics_window`: line `start + k` of the lyrics held, flagged when
    /// it is the active line of synced lyrics, for each `k` below `height`
    /// that is still a line.
    pub open spec fn window_of(self, active: Option<usize>, height: usize) -> Seq<(String, bool)> {
        let all = self.held_lines();
        let start = self.window_start_of(active, height);
        let end = if start + height < all.len() { start + height } else { all.len() as int };
        Seq::new(
            (if start < end { end - start } else { 0 }) as nat,
            |k: int| (all[start + k], self.held_synced() && active == Some((start + k) as usize)),
        )
    }

    /// The first lyric line shown in a window of `height` lines, `active`
    /// being the synced line sung now (see `active_lyrics_index`): for synced
    /// lyrics with an active line, the one that puts the active line in the
    /// middle (or the first line); otherwise the manual scroll offset.
    pub fn lyrics_window_start(&self, active: Option<usize>, height: usize) -> (r: usize)
        ensures
            r == self.window_start_of(active, height),
    {
        let synced = match &self.lyrics_state.lyrics {
            Some(l) => l.synced,
            None => false,
        };
        match active {
            Some(i) if synced => i.saturating_sub(height / 2),
            _ => self.lyrics_state.lyrics_scroll,
        }
    }

    /// The lyric lines shown in a window of `height` lines starting at
    /// `lyrics_window_start(active, height)`: those of the lyrics held, from
    /// that line on, at most `height` of them, each with a flag that is set
    /// on the active line of synced lyrics, which is shown highlighted.
    pub fn lyrics_window(&self, active: Option<usize>, height: usize) -> (r: Vec<(String, bool)>)
        ensures
            r@ == self.window_of(active, height),
    {
        let start = self.lyrics_window_start(active, height);
        let mut r: Vec<(String, bool)> = Vec::new();
        match &self.lyrics_state.lyrics {
            Some(l) => {
                let n = l.lines.len();
                let end = if start >= n {
                    start
                } else if height <= n - start {
                    start + height
                } else {
                    n
                };
                let mut k = start;
                while k < end
                    invariant
                        start <= k <= end,
                        end <= n || end == start,
                        n == l.lines@.len(),
                        self.lyrics_state.lyrics == Some(*l),
                        start == self.window_start_of(active, height),
                        r@.len() == k - start,
                        forall|j: int| 0 <= j < r@.len() ==> #[trigger] r@[j] == (l.lines@[start + j],
                            l.synced && active == Some((start + j) as usize)),
                    decreases end - k,
                {
                    let highlighted = l.synced && match active {
                        Some(a) => a == k,
                        None => false,
                    };
                    r.push((l.lines[k].clone(), highlighted));
                    k = k + 1;
                }
            },
            None => {},
        }
        proof {
            assert(r@ =~= self.window_of(active, height));
        }
        r
    }

    /// The lines of the lyrics screen in an area `area_height` rows high,
    /// each with the flag that has it highlighted: with lyrics held, their
    /// header and then the window of `area_height - 4` lines (see
    /// `lyrics_window`); otherwise the placeholder lines, none highlighted.
    pub fn lyrics_screen(&self, active: Option<usize>, area_height: u16) -> (r: Vec<(String, bool)>)
        ensures
            match self.lyrics_state.lyrics {
                Some(l) => {
                    &&& r@.len() > 0
                    &&& r@[0].0@ == header_of(l)
                    &&& !r@[0].1
                    &&& r@.skip(1) == self.window_of(active, lyrics_height(area_height))
                },
                None => {
                    &&& r@.len() == self.placeholder_of().len()
                    &&& forall|k: int| 0 <= k < r@.len() ==> #[trigger] r@[k].0@ == self.placeholder_of()[k] && !r@[k].1
                },
            },
    {
        match &self.lyrics_state.lyrics {
            Some(l) => {
                let height = area_height.saturating_sub(4) as usize;
                let mut r: Vec<(String, bool)> = Vec::new();
                r.push((l.header(), false));
                let mut w = self.lyrics_window(active, height);
                r.append(&mut w);
                proof {
                    assert(r@.skip(1) =~= self.window_of(active, height));
                }
                r
            },
            None => {
                let lines = self.lyrics_placeholder_lines();
                let mut r: Vec<(String, bool)> = Vec::new();
                let mut k: usize = 0;
                while k < lines.len()
                    invariant
                        k <= lines@.len(),
                        r@.len() == k,
                        forall|j: int| 0 <= j < k ==> #[trigger] r@[j] == (lines@[j], false),
                    decreases lines@.len() - k,
                {
                    r.push((lines[k].clone(), false));
                    k = k + 1;
                }
                r
            },
        }
    }

    /// The lines of the lyrics screen when no lyrics are held.
    pub open spec fn placeholder_of(self) -> Seq<Seq<char>> {
        if self.lyrics_state.loading() is Some {
            seq![
                "Loading lyrics for "@ + (match self.queue_state.now_playing {
                    Some(t) => label_of(t.title@, t.artist@),
                    None => "current track"@,
                }) + "..."@,
                "TUI remains responsive. You can keep navigating while LRCLIB/YouTube fallback is fetched."@,
            ]
        } else {
            seq!["No lyrics loaded. Press 6 while a song is playing."@]
        }
    }

    /// The lines of the lyrics screen when no lyrics are held: a loading
    /// notice while they are fetched, a hint otherwise.
    pub fn lyrics_placeholder_lines(&self) -> (r: Vec<String>)
        ensures
            r@.len() == self.placeholder_of().len(),
            forall|k: int| 0 <= k < r@.len() ==> #[trigger] r@[k]@ == self.placeholder_of()[k],
    {
        let mut r: Vec<String> = Vec::new();
        if self.lyrics_state.is_loading() {
            let mut first = String::from_str("Loading lyrics for ");
            match &self.queue_state.now_playing {
                Some(t) => first.append(t.label().as_str()),
                None => first.append("current track"),
            }
            first.append("...");
            r.push(first);
            r.push(String::from_str("TUI remains responsive. You can keep navigating while LRCLIB/YouTube fallback is fetched."));
        } else {
            r.push(String::from_str("No lyrics loaded. Press 6 while a song is playing."));
        }
        r
    }
}

/// In normal mode, each digit key from 1 to 5 shows the screen whose tab
/// label starts with that digit, and changes nothing else.
pub proof fn law_digit_keys_pick_their_tab(pre: App, post: App, d: char, eff: Effect)
    requires
        pre.input_mode == InputMode::Normal,
        d == '1' || d == '2' || d == '3' || d == '4' || d == '5',
        App::key_handled(pre, post, Key::Char(d), false, eff),
    ensures
        eff == Effect::Nothing,
        post == (App { screen: post.screen, ..pre }),
        spec_tab_label(post.screen).len() > 0 && spec_tab_label(post.screen)[0] == d,
{
    reveal_strlit("1 Search");
    reveal_strlit("2 Queue");
    reveal_strlit("3 History");
    reveal_strlit("4 Favorites");
    reveal_strlit("5 Playlists");
}

/// In normal mode, key 6 asks for the lyrics and changes nothing itself;
/// opening them then shows the screen whose tab label starts with 6.
pub proof fn law_lyrics_key_picks_its_tab(pre: App, post: App, eff: Effect, opened: App, r: Option<Track>)
    requires
        pre.input_mode == InputMode::Normal,
        App::key_handled(pre, post, Key::Char('6'), false, eff),
        App::lyrics_opened(post, opened, r),
    ensures
        eff == Effect::OpenLyrics,
        post == pre,
        spec_tab_label(opened.screen)[0] == '6',
{
    reveal_strlit("6 Lyrics");
}

} // verus!
