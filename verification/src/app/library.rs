//! Editing the library from the interface: favorites, playlists, history.
//! Each edit returns whether the edited list must now be saved; the caller
//! saves it.

use vstd::prelude::*;
use crate::app::{App, InputMode, PlaylistFocus, Screen};
use crate::app::library_state::{LibraryState, recorded};
use crate::app::queue_state::seq_has_id;
use crate::text::{trim, trimmed};
use crate::types::playlist::LocalPlaylist;
use crate::types::track::Track;

verus! {

/// `i` is the first position of `s` that holds the video id `id`.
pub open spec fn first_with_id(s: Seq<Track>, id: Seq<char>, i: int) -> bool {
    &&& 0 <= i < s.len()
    &&& s[i].video_id@ == id
    &&& forall|j: int| 0 <= j < i ==> #[trigger] s[j].video_id@ != id
}

/// The favorites after `t` is toggled: the first entry with its video id
/// leaves, or, when there is none, `t` goes in front.
pub open spec fn toggled(favorites: Seq<Track>, t: Track) -> Seq<Track> {
    if seq_has_id(favorites, t.video_id@) {
        favorites.remove(choose|i: int| first_with_id(favorites, t.video_id@, i))
    } else {
        seq![t] + favorites
    }
}

/// No two playlists share a name.
pub open spec fn distinct_names(p: Seq<LocalPlaylist>) -> bool {
    forall|i: int, j: int| 0 <= i < p.len() && 0 <= j < p.len() && i != j ==> #[trigger] p[i].name@ != #[trigger] p[j].name@
}

/// Some playlist is called `name`.
pub open spec fn has_name(p: Seq<LocalPlaylist>, name: Seq<char>) -> bool {
    exists|i: int| 0 <= i < p.len() && #[trigger] p[i].name@ == name
}

proof fn lemma_first_with_id_unique(s: Seq<Track>, id: Seq<char>, i: int, k: int)
    requires
        first_with_id(s, id, i),
        first_with_id(s, id, k),
    ensures
        i == k,
{
    if i < k {
        assert(s[i].video_id@ != id);
    } else if k < i {
        assert(s[k].video_id@ != id);
    }
}

/// Finds the first position of `v` whose track has the video id `id`.
fn position_of_id(v: &Vec<Track>, id: &String) -> (r: Option<usize>)
    ensures
        match r {
            Some(i) => first_with_id(v@, id@, i as int),
            None => !seq_has_id(v@, id@),
        },
{
    let n = v.len();
    let mut i: usize = 0;
    while i < n
        invariant
            n == v@.len(),
            0 <= i <= n,
            forall|j: int| 0 <= j < i ==> #[trigger] v@[j].video_id@ != id@,
        decreases n - i,
    {
        if v[i].video_id == *id {
            return Some(i);
        }
        i = i + 1;
    }
    None
}

impl App {
    /// The track that favorites and playlist additions act on: the
    /// selection, or else the track now playing.
    pub open spec fn target(self) -> Option<Track> {
        match self.selection() {
            Some(t) => Some(t),
            None => self.queue_state.now_playing,
        }
    }

    /// The effect of `toggle_favorite_selected`.
    pub open spec fn favorite_toggled(pre: App, post: App, save: bool) -> bool {
        match pre.target() {
            None => {
                &&& !save
                &&& post == App { status: post.status, ..pre }
                &&& post.status@ == "nothing selected"@
            },
            Some(t) => {
                &&& save
                &&& post == App {
                    library_state: LibraryState { favorites: post.library_state.favorites, ..pre.library_state },
                    status: post.status,
                    ..pre
                }
                &&& post.library_state.favorites@ == toggled(pre.library_state.favorites@, t)
                &&& post.status@ == (if seq_has_id(pre.library_state.favorites@, t.video_id@) {
                    "removed from favorites"@
                } else {
                    "favorited: "@ + t.title@
                })
            },
        }
    }

    /// The effect of `add_selected_to_default_playlist`.
    pub open spec fn added_to_default(pre: App, post: App, save: bool) -> bool {
        match pre.target() {
            None => {
                &&& !save
                &&& post == App { status: post.status, ..pre }
                &&& post.status@ == "nothing selected"@
            },
            Some(t) => {
                let p = pre.library_state.playlists@;
                let q = post.library_state.playlists@;
                let fresh = p.len() == 0;
                let first_tracks = if fresh { Seq::<Track>::empty() } else { p[0].tracks@ };
                let present = seq_has_id(first_tracks, t.video_id@);
                &&& save
                &&& post == App {
                    library_state: LibraryState { playlists: post.library_state.playlists, ..pre.library_state },
                    status: post.status,
                    ..pre
                }
                &&& q.len() == (if fresh { 1 } else { p.len() })
                &&& q[0].name@ == (if fresh { "Default"@ } else { p[0].name@ })
                &&& q[0].tracks@ == (if present { first_tracks } else { first_tracks.push(t) })
                &&& forall|i: int| 1 <= i < q.len() ==> #[trigger] q[i] == p[i]
                &&& post.status@ == (if present {
                    "already in playlist"@
                } else {
                    "added to playlist: "@ + q[0].name@
                })
            },
        }
    }

    /// The effect of `create_playlist_from_query`.
    pub open spec fn playlist_created(pre: App, post: App, save: bool) -> bool {
        let name = trimmed(pre.query@);
        let p = pre.library_state.playlists@;
        if name.len() == 0 {
            &&& !save
            &&& post == App { status: post.status, ..pre }
            &&& post.status@ == "playlist name is empty"@
        } else if has_name(p, name) {
            &&& !save
            &&& post == App { status: post.status, ..pre }
            &&& post.status@ == "playlist already exists"@
        } else {
            let q = post.library_state.playlists@;
            &&& save
            &&& post == App {
                library_state: LibraryState {
                    playlists: post.library_state.playlists,
                    playlist_selected: p.len() as usize,
                    playlist_focus: PlaylistFocus::Tracks,
                    ..pre.library_state
                },
                query: post.query,
                input_mode: InputMode::Normal,
                status: post.status,
                ..pre
            }
            &&& q.len() == p.len() + 1
            &&& forall|i: int| 0 <= i < p.len() ==> #[trigger] q[i] == p[i]
            &&& q.last().name@ == name
            &&& q.last().tracks@.len() == 0
            &&& post.query@.len() == 0
            &&& post.status@ == "created playlist: "@ + name
        }
    }

    /// The effect of `remove_favorite_at_selected`.
    pub open spec fn favorite_removed(pre: App, post: App, save: bool) -> bool {
        let f = pre.library_state.favorites@;
        if pre.selected < f.len() {
            &&& save
            &&& post == App {
                library_state: LibraryState { favorites: post.library_state.favorites, ..pre.library_state },
                selected: if pre.selected == 0 { 0 } else { (pre.selected - 1) as usize },
                status: post.status,
                ..pre
            }
            &&& post.library_state.favorites@ == f.remove(pre.selected as int)
            &&& post.status@ == "removed from favorites"@
        } else {
            !save && post == pre
        }
    }

    /// The effect of `remove_playlist_track_at_selected`.
    pub open spec fn playlist_track_removed(pre: App, post: App, save: bool) -> bool {
        let lib = pre.library_state;
        let p = lib.playlists@;
        let ps = lib.playlist_selected as int;
        let pt = lib.playlist_track_selected as int;
        if ps < p.len() && pt < p[ps].tracks@.len() {
            let q = post.library_state.playlists@;
            let n = p[ps].tracks@.len() - 1;
            let cap = if n == 0 { 0 } else { n - 1 };
            &&& save
            &&& post == App {
                library_state: LibraryState {
                    playlists: post.library_state.playlists,
                    playlist_track_selected: (if pt < cap { pt } else { cap }) as usize,
                    ..lib
                },
                status: post.status,
                ..pre
            }
            &&& q.len() == p.len()
            &&& forall|i: int| 0 <= i < q.len() && i != ps ==> #[trigger] q[i] == p[i]
            &&& q[ps].name == p[ps].name
            &&& q[ps].tracks@ == p[ps].tracks@.remove(pt)
            &&& post.status@ == "removed from playlist"@
        } else {
            !save && post == pre
        }
    }

    /// Adds the selected track (or the one playing) to the favorites, or
    /// removes it when it is there already. Returns whether the favorites
    /// must be saved.
    pub fn toggle_favorite_selected(&mut self) -> (save: bool)
        ensures
            App::favorite_toggled(*old(self), *final(self), save),
    {
        let track = match self.current_selection() {
            Some(t) => t,
            None => match &self.queue_state.now_playing {
                Some(t) => t.clone(),
                None => {
                    self.status = String::from_str("nothing selected");
                    return false;
                },
            },
        };
        match position_of_id(&self.library_state.favorites, &track.video_id) {
            Some(i) => {
                proof {
                    let f = old(self).library_state.favorites@;
                    let id = track.video_id@;
                    assert(seq_has_id(f, id));
                    let c = choose|k: int| first_with_id(f, id, k);
                    lemma_first_with_id_unique(f, id, i as int, c);
                }
                self.library_state.favorites.remove(i);
                self.status = String::from_str("removed from favorites");
            },
            None => {
                let mut status = String::from_str("favorited: ");
                status.append(track.title.as_str());
                self.library_state.favorites.insert(0, track);
                self.status = status;
                assert(self.library_state.favorites@ =~= toggled(old(self).library_state.favorites@, track));
            },
        }
        true
    }

    /// Adds the selected track (or the one playing) to the first playlist,
    /// creating a playlist named `Default` when there is none, unless the
    /// track is in it already. Returns whether the playlists must be saved.
    pub fn add_selected_to_default_playlist(&mut self) -> (save: bool)
        ensures
            App::added_to_default(*old(self), *final(self), save),
    {
        let track = match self.current_selection() {
            Some(t) => t,
            None => match &self.queue_state.now_playing {
                Some(t) => t.clone(),
                None => {
                    self.status = String::from_str("nothing selected");
                    return false;
                },
            },
        };
        if self.library_state.playlists.len() == 0 {
            self.library_state.playlists.push(
                LocalPlaylist { name: String::from_str("Default"), tracks: Vec::new() },
            );
        }
        match position_of_id(&self.library_state.playlists[0].tracks, &track.video_id) {
            None => {
                let mut first = self.library_state.playlists.remove(0);
                first.tracks.push(track);
                let mut status = String::from_str("added to playlist: ");
                status.append(first.name.as_str());
                self.library_state.playlists.insert(0, first);
                self.status = status;
            },
            Some(_) => {
                self.status = String::from_str("already in playlist");
            },
        }
        true
    }

    /// Creates an empty playlist named after the trimmed query, unless the
    /// name is empty or taken; on success the query is cleared, typing ends
    /// and the new playlist is selected with its tracks focused. Returns
    /// whether the playlists must be saved.
    pub fn create_playlist_from_query(&mut self) -> (save: bool)
        ensures
            App::playlist_created(*old(self), *final(self), save),
    {
        let name = trim(self.query.as_str());
        if name.as_str().is_empty() {
            self.status = String::from_str("playlist name is empty");
            return false;
        }
        let n = self.library_state.playlists.len();
        let mut i: usize = 0;
        while i < n
            invariant
                *self == *old(self),
                name@ == trimmed(old(self).query@),
                name@.len() > 0,
                n == self.library_state.playlists@.len(),
                0 <= i <= n,
                forall|j: int| 0 <= j < i ==> #[trigger] self.library_state.playlists@[j].name@ != name@,
            decreases n - i,
        {
            if self.library_state.playlists[i].name == name {
                assert(has_name(self.library_state.playlists@, name@));
                self.status = String::from_str("playlist already exists");
                return false;
            }
            i = i + 1;
        }
        let mut status = String::from_str("created playlist: ");
        status.append(name.as_str());
        self.library_state.playlists.push(LocalPlaylist { name, tracks: Vec::new() });
        self.query = String::new();
        self.input_mode = InputMode::Normal;
        self.library_state.playlist_selected = self.library_state.playlists.len() - 1;
        self.library_state.playlist_focus = PlaylistFocus::Tracks;
        self.status = status;
        assert(!has_name(old(self).library_state.playlists@, name@));
        assert(self.library_state.playlists@.last().name@ == name@);
        true
    }

    /// Records `track` as just played and returns the history to save.
    pub fn push_history(&mut self, track: Track) -> (r: Vec<Track>)
        ensures
            *final(self) == (App {
                library_state: (LibraryState { history: final(self).library_state.history, ..old(self).library_state }),
                ..*old(self)
            }),
            final(self).library_state.history@ == recorded(old(self).library_state.history@, track),
            r@ == final(self).library_state.history@,
    {
        self.library_state.record_play(track)
    }

    /// Removes the favorite under the cursor, if the cursor is on one, and
    /// steps the cursor back. Returns whether the favorites must be saved.
    pub fn remove_favorite_at_selected(&mut self) -> (save: bool)
        ensures
            App::favorite_removed(*old(self), *final(self), save),
    {
        if self.selected < self.library_state.favorites.len() {
            self.library_state.favorites.remove(self.selected);
            self.selected = self.selected.saturating_sub(1);
            self.status = String::from_str("removed from favorites");
            true
        } else {
            false
        }
    }

    /// Removes the track under the cursor of the selected playlist, if there
    /// is one, keeping the cursor within the shorter list. Returns whether
    /// the playlists must be saved.
    pub fn remove_playlist_track_at_selected(&mut self) -> (save: bool)
        ensures
            App::playlist_track_removed(*old(self), *final(self), save),
    {
        let ps = self.library_state.playlist_selected;
        if ps >= self.library_state.playlists.len() {
            return false;
        }
        let pt = self.library_state.playlist_track_selected;
        if pt >= self.library_state.playlists[ps].tracks.len() {
            return false;
        }
        let mut playlist = self.library_state.playlists.remove(ps);
        playlist.tracks.remove(pt);
        let left = playlist.tracks.len().saturating_sub(1);
        self.library_state.playlists.insert(ps, playlist);
        self.library_state.playlist_track_selected = if pt < left { pt } else { left };
        self.status = String::from_str("removed from playlist");
        true
    }
}

/// Toggling a track that is not among the favorites twice leaves the
/// favorites as they were.
pub proof fn law_toggle_favorite_twice(favorites: Seq<Track>, t: Track)
    requires
        !seq_has_id(favorites, t.video_id@),
    ensures
        toggled(toggled(favorites, t), t) == favorites,
{
    let f1 = toggled(favorites, t);
    assert(f1 == seq![t] + favorites);
    assert(f1[0] == t);
    assert(seq_has_id(f1, t.video_id@));
    assert(first_with_id(f1, t.video_id@, 0));
    let c = choose|i: int| first_with_id(f1, t.video_id@, i);
    lemma_first_with_id_unique(f1, t.video_id@, 0, c);
    assert(f1.remove(0) =~= favorites);
}

/// Toggling a favorite puts it among the favorites or takes its first entry
/// away: afterwards it is present exactly when it was absent, provided no
/// video id was repeated.
pub proof fn law_toggle_favorite_flips_presence(favorites: Seq<Track>, t: Track)
    requires
        forall|i: int, j: int| 0 <= i < favorites.len() && 0 <= j < favorites.len() && i != j ==> #[trigger] favorites[i].video_id@ != #[trigger] favorites[j].video_id@,
    ensures
        seq_has_id(toggled(favorites, t), t.video_id@) == !seq_has_id(favorites, t.video_id@),
{
    let id = t.video_id@;
    let f1 = toggled(favorites, t);
    if seq_has_id(favorites, id) {
        let w = choose|w: int| 0 <= w < favorites.len() && #[trigger] favorites[w].video_id@ == id;
        assert(exists|k: int| first_with_id(favorites, id, k)) by {
            assert(first_with_id(favorites, id, w)) by {
                assert forall|j: int| 0 <= j < w implies #[trigger] favorites[j].video_id@ != id by {}
            }
        }
        let c = choose|i: int| first_with_id(favorites, id, i);
        assert forall|i: int| 0 <= i < f1.len() implies #[trigger] f1[i].video_id@ != id by {
            if i < c {
                assert(f1[i] == favorites[i]);
            } else {
                assert(f1[i] == favorites[i + 1]);
            }
        }
    } else {
        assert(f1[0] == t);
    }
}

/// Adding to the default playlist never repeats a video id in it.
pub proof fn law_default_playlist_keeps_ids_distinct(pre: App, post: App, save: bool)
    requires
        App::added_to_default(pre, post, save),
        pre.target() is Some,
        pre.library_state.playlists@.len() > 0 ==> (forall|i: int, j: int| 0 <= i < pre.library_state.playlists@[0].tracks@.len() && 0 <= j < pre.library_state.playlists@[0].tracks@.len() && i != j ==> #[trigger] pre.library_state.playlists@[0].tracks@[i].video_id@ != #[trigger] pre.library_state.playlists@[0].tracks@[j].video_id@),
    ensures
        ({
            let s = post.library_state.playlists@[0].tracks@;
            forall|i: int, j: int| 0 <= i < s.len() && 0 <= j < s.len() && i != j ==> #[trigger] s[i].video_id@ != #[trigger] s[j].video_id@
        }),
{
    let t = pre.target()->0;
    let p = pre.library_state.playlists@;
    let first = if p.len() == 0 { Seq::<Track>::empty() } else { p[0].tracks@ };
    let s = post.library_state.playlists@[0].tracks@;
    if !seq_has_id(first, t.video_id@) {
        assert forall|i: int, j: int| 0 <= i < s.len() && 0 <= j < s.len() && i != j implies #[trigger] s[i].video_id@ != #[trigger] s[j].video_id@ by {
            if i < first.len() && j < first.len() {
                assert(s[i] == first[i] && s[j] == first[j]);
            } else if i < first.len() {
                assert(s[i] == first[i]);
            } else {
                assert(s[j] == first[j]);
            }
        }
    }
}

/// Creating playlists never gives two of them the same name.
pub proof fn law_playlist_names_stay_distinct(pre: App, post: App, save: bool)
    requires
        App::playlist_created(pre, post, save),
        distinct_names(pre.library_state.playlists@),
    ensures
        distinct_names(post.library_state.playlists@),
{
    let p = pre.library_state.playlists@;
    let q = post.library_state.playlists@;
    if save {
        let name = trimmed(pre.query@);
        assert forall|i: int, j: int| 0 <= i < q.len() && 0 <= j < q.len() && i != j implies #[trigger] q[i].name@ != #[trigger] q[j].name@ by {
            if i < p.len() && j < p.len() {
                assert(q[i] == p[i] && q[j] == p[j]);
            } else if i < p.len() {
                assert(q[i] == p[i]);
                assert(!has_name(p, name));
                assert(q[j] == q.last());
            } else {
                assert(q[j] == p[j]);
                assert(!has_name(p, name));
                assert(q[i] == q.last());
            }
        }
    }
}

/// Removing the favorite under the cursor takes out exactly the track that
/// the favorites screen had selected: the favorites before it stay, those
/// after it move up by one, and putting it back where it was gives the old
/// favorites. The cursor steps back by one, stopping at the top.
pub proof fn law_remove_favorite_takes_selection(pre: App, post: App, save: bool)
    requires
        pre.screen == Screen::Favorites,
        pre.selected < pre.library_state.favorites@.len(),
        App::favorite_removed(pre, post, save),
    ensures
        ({
            let f = pre.library_state.favorites@;
            let g = post.library_state.favorites@;
            let s = pre.selected as int;
            &&& save
            &&& pre.selection() == Some(f[s])
            &&& g.len() == f.len() - 1
            &&& forall|k: int| 0 <= k < s ==> #[trigger] g[k] == f[k]
            &&& forall|k: int| s <= k < g.len() ==> #[trigger] g[k] == f[k + 1]
            &&& g.insert(s, f[s]) == f
            &&& post.selected == (if s == 0 { 0 } else { s - 1 })
        }),
{
    let f = pre.library_state.favorites@;
    let s = pre.selected as int;
    assert(post.library_state.favorites@.insert(s, f[s]) =~= f);
}

/// Removing the track under the playlist cursor edits only the selected
/// playlist: it loses exactly the track that the playlists screen had
/// selected (the tracks before it stay, those after it move up by one, and
/// putting it back gives the old playlist), keeps its name, and every other
/// playlist stays as it was.
pub proof fn law_remove_playlist_track_takes_selection(pre: App, post: App, save: bool)
    requires
        pre.screen == Screen::Playlists,
        pre.library_state.playlist_selected < pre.library_state.playlists@.len(),
        pre.library_state.playlist_track_selected
            < pre.library_state.playlists@[pre.library_state.playlist_selected as int].tracks@.len(),
        App::playlist_track_removed(pre, post, save),
    ensures
        ({
            let p = pre.library_state.playlists@;
            let q = post.library_state.playlists@;
            let ps = pre.library_state.playlist_selected as int;
            let pt = pre.library_state.playlist_track_selected as int;
            let before = p[ps].tracks@;
            let after = q[ps].tracks@;
            &&& save
            &&& pre.selection() == Some(before[pt])
            &&& q.len() == p.len()
            &&& forall|i: int| 0 <= i < p.len() && i != ps ==> #[trigger] q[i] == p[i]
            &&& q[ps].name == p[ps].name
            &&& after.len() == before.len() - 1
            &&& forall|k: int| 0 <= k < pt ==> #[trigger] after[k] == before[k]
            &&& forall|k: int| pt <= k < after.len() ==> #[trigger] after[k] == before[k + 1]
            &&& after.insert(pt, before[pt]) == before
            &&& post.library_state.playlist_selected == pre.library_state.playlist_selected
            &&& post.library_state.playlist_track_selected == (if pt < after.len() {
                pt
            } else if after.len() == 0 {
                0
            } else {
                after.len() - 1
            })
        }),
{
    let p = pre.library_state.playlists@;
    let ps = pre.library_state.playlist_selected as int;
    let pt = pre.library_state.playlist_track_selected as int;
    let q = post.library_state.playlists@;
    assert(q[ps].tracks@.insert(pt, p[ps].tracks@[pt]) =~= p[ps].tracks@);
}

} // verus!
