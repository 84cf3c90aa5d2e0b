//! The decisions of searching and playback. Fetching, playing, caching and
//! saving are outside work: the caller performs it between these steps and
//! hands its results back.

use vstd::prelude::*;
use crate::app::{App, InputMode, QueueSource, Screen, Persist, MIN_QUEUE_LEN};
use crate::app::queue_state::{QueueModel, QueueState, seq_has_id};
use crate::text::{decimal, decimal_string, trim, trimmed};
use crate::types::track::Track;

verus! {

/// What to play when going back.
#[derive(Debug, PartialEq, Eq)]
pub enum PreviousTarget {
    /// The queue entry at this index.
    QueueAt(usize),
    /// This track, taken from the `previous` stack.
    Track(Track),
    /// Nothing: there is no earlier track.
    Nothing,
}

/// What `play_selected` asks for.
#[derive(Debug, PartialEq, Eq)]
pub enum PlayRequest {
    /// Play the queue entry at this index.
    QueueAt(usize),
    /// Play the selected playlist as the queue.
    Playlist,
    /// Play this track right after the current one.
    Detached(Track),
    /// Nothing is selected.
    Nothing,
}

/// The queue after the tracks of `up_next` are offered to it in order:
/// offering stops once `MIN_QUEUE_LEN` tracks follow the current one, and
/// tracks with an empty id or already known anywhere are skipped. Also gives
/// how many tracks were added.
pub open spec fn refill_from(m: QueueModel, up_next: Seq<Track>) -> (QueueModel, nat)
    decreases up_next.len(),
{
    if up_next.len() == 0 || m.remaining() >= MIN_QUEUE_LEN {
        (m, 0)
    } else {
        let t = up_next[0];
        let rest = up_next.drop_first();
        if t.video_id@.len() == 0 || m.has_track(t.video_id@) {
            refill_from(m, rest)
        } else {
            let r = refill_from(m.enqueued(t), rest);
            (r.0, r.1 + 1)
        }
    }
}

/// The index after the playing one, or 0 when nothing plays from the queue.
pub open spec fn next_index(index: Option<usize>) -> int {
    match index {
        Some(i) => i + 1,
        None => 0,
    }
}

impl App {
    /// The effect of `begin_search`.
    pub open spec fn search_begun(pre: App, post: App, r: Option<String>) -> bool {
        let q = trimmed(pre.query@);
        &&& post == App { status: post.status, ..pre }
        &&& if q.len() == 0 {
            r is None && post.status@ == "query is empty"@
        } else {
            r matches Some(s) && s@ == q && post.status@ == "searching: "@ + q
        }
    }

    /// The effect of `play_queue_at`.
    pub open spec fn queue_entry_chosen(pre: App, post: App, index: usize, r: Option<Track>) -> bool {
        let q = pre.queue_state;
        if index < q.queue@.len() {
            &&& r == Some(q.queue@[index as int])
            &&& post == App {
                queue_state: QueueState { queue_index: Some(index), queue_selected: index, ..q },
                ..pre
            }
        } else {
            &&& r is None
            &&& post == App { status: post.status, ..pre }
            &&& post.status@ == "queue index is empty"@
        }
    }

    /// Starts a search for the trimmed query. Returns the query to search
    /// for, or `None` (with a status saying so) when it is empty.
    pub fn begin_search(&mut self) -> (r: Option<String>)
        ensures
            App::search_begun(*old(self), *final(self), r),
    {
        let q = trim(self.query.as_str());
        if q.as_str().is_empty() {
            self.status = String::from_str("query is empty");
            return None;
        }
        let mut status = String::from_str("searching: ");
        status.append(q.as_str());
        self.status = status;
        Some(q)
    }

    /// Shows the results of a search: the search tab, cursor on the first
    /// result, typing ended.
    pub fn show_results(&mut self, results: Vec<Track>)
        ensures
            *final(self) == (App {
                results: final(self).results,
                selected: 0,
                screen: Screen::Search,
                input_mode: InputMode::Normal,
                status: final(self).status,
                ..*old(self)
            }),
            final(self).results@ == results@,
            final(self).status@ == decimal(results@.len()) + " result(s)"@,
    {
        let n = results.len();
        self.results = results;
        self.selected = 0;
        self.screen = Screen::Search;
        self.input_mode = InputMode::Normal;
        let mut status = decimal_string(n as u64);
        status.append(" result(s)");
        self.status = status;
    }

    /// Points the queue at the entry `index` and returns its track for
    /// playing; when there is no such entry, says so and returns `None`.
    pub fn play_queue_at(&mut self, index: usize) -> (r: Option<Track>)
        ensures
            App::queue_entry_chosen(*old(self), *final(self), index, r),
    {
        if index < self.queue_state.queue.len() {
            let t = self.queue_state.queue[index].clone();
            self.queue_state.queue_index = Some(index);
            self.queue_state.queue_selected = index;
            Some(t)
        } else {
            self.status = String::from_str("queue index is empty");
            None
        }
    }

    /// Completes the switch to `track` once the player has started it and
    /// the history is saved: it becomes the track now playing, the lyrics
    /// state is reset to a fresh one (no lyrics, nothing loading, scrolled
    /// to the top), and the status tells whether it plays from the cache.
    pub fn finish_now_playing(&mut self, track: Track)
        ensures
            *final(self) == (App {
                queue_state: (QueueState { now_playing: Some(track), ..old(self).queue_state }),
                lyrics_state: final(self).lyrics_state,
                status: final(self).status,
                ..*old(self)
            }),
            final(self).lyrics_state.is_fresh(),
            final(self).status@ == (if track.cached_path is Some {
                "playing cached track"@
            } else {
                "playing remote, caching in background"@
            }),
    {
        let cached = track.cached_path.is_some();
        self.queue_state.now_playing = Some(track);
        self.lyrics_state.reset_for_new_track();
        self.status = if cached {
            String::from_str("playing cached track")
        } else {
            String::from_str("playing remote, caching in background")
        };
    }

    /// Puts `track` right after the current one, in an automatic queue that
    /// no playlist owns, and points the queue at it.
    pub fn queue_detached(&mut self, track: Track)
        requires
            old(self).queue_state.queue_index != Some(usize::MAX),
        ensures
            ({
                let m = old(self).queue_state@;
                let k = m.insert_position();
                &&& final(self).queue_state@ == (QueueModel {
                    source: QueueSource::Auto,
                    active_playlist: None,
                    index: Some(k),
                    selected: k,
                    ..m.inserted_after_current(track)
                })
                &&& *final(self) == (App { queue_state: final(self).queue_state, ..*old(self) })
            }),
    {
        self.queue_state.queue_source = QueueSource::Auto;
        self.queue_state.active_playlist = None;
        let index = self.queue_state.insert_after_current(track);
        self.queue_state.queue_index = Some(index);
        self.queue_state.queue_selected = index;
    }

    /// The selected playlist's tracks and the track to start from (the one
    /// under the playlist cursor, at most the last), or `None` with a status
    /// when there is no playlist or it is empty.
    pub fn playlist_to_play(&mut self) -> (r: Option<(Vec<Track>, usize)>)
        ensures
            ({
                let lib = old(self).library_state;
                let p = lib.playlists@;
                let ps = lib.playlist_selected as int;
                &&& *final(self) == (App { status: final(self).status, ..*old(self) })
                &&& if ps >= p.len() {
                    r is None && final(self).status@ == "no playlist selected"@
                } else if p[ps].tracks@.len() == 0 {
                    r is None && final(self).status@ == "playlist is empty"@
                } else {
                    let n = p[ps].tracks@.len();
                    &&& r matches Some((tracks, index)) && tracks@ == p[ps].tracks@ && index == (
                    if lib.playlist_track_selected < n - 1 {
                        lib.playlist_track_selected as int
                    } else {
                        n - 1
                    })
                    &&& final(self).status == old(self).status
                }
            }),
    {
        let ps = self.library_state.playlist_selected;
        if ps >= self.library_state.playlists.len() {
            self.status = String::from_str("no playlist selected");
            return None;
        }
        let n = self.library_state.playlists[ps].tracks.len();
        if n == 0 {
            self.status = String::from_str("playlist is empty");
            return None;
        }
        let pt = self.library_state.playlist_track_selected;
        let index = if pt < n - 1 { pt } else { n - 1 };
        let tracks = self.library_state.playlists[ps].tracks.clone();
        assert(tracks@ =~= self.library_state.playlists@[ps as int].tracks@);
        Some((tracks, index))
    }

    /// Makes `tracks` the queue, owned by the selected playlist.
    pub fn start_playlist_queue(&mut self, tracks: Vec<Track>)
        ensures
            final(self).queue_state@ == (QueueModel {
                source: QueueSource::Playlist,
                active_playlist: Some(old(self).library_state.playlist_selected),
                ..old(self).queue_state@.replaced(tracks@)
            }),
            *final(self) == (App { queue_state: final(self).queue_state, ..*old(self) }),
    {
        self.queue_state.queue_source = QueueSource::Playlist;
        self.queue_state.active_playlist = Some(self.library_state.playlist_selected);
        self.queue_state.replace_with(tracks);
    }

    /// What Enter plays on the screen shown: on the queue, the entry under
    /// the cursor; on the playlists screen, the selected playlist; elsewhere
    /// the selected track, or nothing (with a status) when none is selected.
    pub fn play_selected(&mut self) -> (r: PlayRequest)
        ensures
            old(self).screen == Screen::Queue ==> *final(self) == *old(self) && r == PlayRequest::QueueAt(old(self).queue_state.queue_selected),
            old(self).screen == Screen::Playlists ==> *final(self) == *old(self) && r == PlayRequest::Playlist,
            old(self).screen != Screen::Queue && old(self).screen != Screen::Playlists ==> match old(self).selection() {
                Some(t) => *final(self) == *old(self) && r == PlayRequest::Detached(t),
                None => r == PlayRequest::Nothing && *final(self) == (App { status: final(self).status, ..*old(self) })
                    && final(self).status@ == "nothing selected"@,
            },
    {
        match self.screen {
            Screen::Queue => PlayRequest::QueueAt(self.queue_state.queue_selected),
            Screen::Playlists => PlayRequest::Playlist,
            _ => match self.current_selection() {
                Some(t) => PlayRequest::Detached(t),
                None => {
                    self.status = String::from_str("nothing selected");
                    PlayRequest::Nothing
                },
            },
        }
    }

    /// The index after the playing entry, or 0 when nothing plays from the
    /// queue.
    pub fn next_queue_index(&self) -> (r: usize)
        requires
            self.queue_state.queue_index != Some(usize::MAX),
        ensures
            r == next_index(self.queue_state.queue_index),
    {
        match self.queue_state.queue_index {
            Some(i) => i + 1,
            None => 0,
        }
    }

    /// The index that `n` goes to: the one after the playing entry (or the
    /// first when none plays), if the queue has it; otherwise `None` and a
    /// status saying there is no next track.
    pub fn play_next_target(&mut self) -> (r: Option<usize>)
        requires
            old(self).queue_state.queue_index != Some(usize::MAX),
        ensures
            ({
                let k = next_index(old(self).queue_state.queue_index);
                if k < old(self).queue_state.queue@.len() {
                    r == Some(k as usize) && *final(self) == *old(self)
                } else {
                    &&& r is None
                    &&& *final(self) == (App { status: final(self).status, ..*old(self) })
                    &&& final(self).status@ == "no next track"@
                }
            }),
    {
        let next = match self.queue_state.queue_index {
            Some(i) => i + 1,
            None => 0,
        };
        if next < self.queue_state.queue.len() {
            Some(next)
        } else {
            self.status = String::from_str("no next track");
            None
        }
    }

    /// When a track ends: the index to play next, if the queue has one, with
    /// a status for the case; otherwise `None` and a status saying the
    /// playlist or the queue is finished.
    pub fn track_finished_target(&mut self) -> (r: Option<usize>)
        requires
            old(self).queue_state.queue_index != Some(usize::MAX),
        ensures
            ({
                let k = next_index(old(self).queue_state.queue_index);
                let playlist = old(self).queue_state.queue_source == QueueSource::Playlist;
                &&& *final(self) == (App { status: final(self).status, ..*old(self) })
                &&& if k < old(self).queue_state.queue@.len() {
                    r == Some(k as usize) && final(self).status@ == (if playlist {
                        "autoplay next playlist track"@
                    } else {
                        "autoplay next track"@
                    })
                } else {
                    r is None && final(self).status@ == (if playlist {
                        "playlist finished"@
                    } else {
                        "queue finished"@
                    })
                }
            }),
    {
        let next = match self.queue_state.queue_index {
            Some(i) => i + 1,
            None => 0,
        };
        let playlist = self.queue_state.queue_source == QueueSource::Playlist;
        if next < self.queue_state.queue.len() {
            self.status = if playlist {
                String::from_str("autoplay next playlist track")
            } else {
                String::from_str("autoplay next track")
            };
            Some(next)
        } else {
            self.status = if playlist {
                String::from_str("playlist finished")
            } else {
                String::from_str("queue finished")
            };
            None
        }
    }

    /// What `b` goes back to: the queue entry before the playing one when
    /// there is one; else the last track of the `previous` stack, which is
    /// popped; else nothing, with a status.
    pub fn previous_target(&mut self) -> (r: PreviousTarget)
        ensures
            ({
                let q = old(self).queue_state;
                if q.queue_index matches Some(i) && i > 0 && i - 1 < q.queue@.len() {
                    r == PreviousTarget::QueueAt((q.queue_index->0 - 1) as usize) && *final(self) == *old(self)
                } else if q.previous@.len() > 0 {
                    &&& r == PreviousTarget::Track(q.previous@.last())
                    &&& final(self).queue_state.previous@ == q.previous@.drop_last()
                    &&& *final(self) == (App {
                        queue_state: (QueueState { previous: final(self).queue_state.previous, ..q }),
                        ..*old(self)
                    })
                } else {
                    &&& r == PreviousTarget::Nothing
                    &&& *final(self) == (App { status: final(self).status, ..*old(self) })
                    &&& final(self).status@ == "no previous track"@
                }
            }),
    {
        if let Some(index) = self.queue_state.queue_index {
            if index > 0 && index - 1 < self.queue_state.queue.len() {
                return PreviousTarget::QueueAt(index - 1);
            }
        }
        if self.queue_state.previous.len() == 0 {
            self.status = String::from_str("no previous track");
            return PreviousTarget::Nothing;
        }
        match self.queue_state.previous.pop() {
            Some(t) => PreviousTarget::Track(t),
            None => PreviousTarget::Nothing,
        }
    }

    /// The video id to fetch recommendations for when the queue needs
    /// topping up: the track now playing, when the queue is automatic and
    /// fewer than `MIN_QUEUE_LEN` tracks follow the current one.
    pub fn refill_seed(&self) -> (r: Option<String>)
        requires
            self.queue_state.queue_source == QueueSource::Auto ==> self.queue_state.queue_index != Some(usize::MAX),
        ensures
            match r {
                Some(id) => self.queue_state@.should_refill() && (self.queue_state.now_playing matches Some(t) && t.video_id@ == id@),
                None => !self.queue_state@.should_refill() || self.queue_state.now_playing is None,
            },
    {
        if self.queue_state.queue_source == QueueSource::Playlist {
            return None;
        }
        if !self.queue_state.should_refill_queue() {
            return None;
        }
        match &self.queue_state.now_playing {
            Some(t) => Some(t.video_id.clone()),
            None => None,
        }
    }

    /// Offers the recommended tracks `up_next`, in order, to the queue:
    /// offering stops once `MIN_QUEUE_LEN` tracks follow the current one, and
    /// tracks with an empty id or already known anywhere are skipped.
    /// Returns how many were added.
    pub fn refill_queue_from(&mut self, up_next: Vec<Track>) -> (added: usize)
        requires
            up_next@.len() > 0 ==> old(self).queue_state.queue_index != Some(usize::MAX),
        ensures
            final(self).queue_state@ == refill_from(old(self).queue_state@, up_next@).0,
            added == refill_from(old(self).queue_state@, up_next@).1,
            *final(self) == (App { queue_state: final(self).queue_state, ..*old(self) }),
    {
        let ghost m0 = self.queue_state@;
        let ghost u = up_next@;
        let ghost goal = refill_from(m0, u);
        let n = up_next.len();
        assert(u.skip(0) =~= u);
        let mut added: usize = 0;
        let mut i: usize = 0;
        while i < n
            invariant_except_break
                refill_from(self.queue_state@, u.skip(i as int)).0 == goal.0,
                added + refill_from(self.queue_state@, u.skip(i as int)).1 == goal.1,
            invariant
                n == u.len(),
                up_next@ == u,
                0 <= i <= n,
                added <= i,
                self.queue_state.queue_index == old(self).queue_state.queue_index,
                n > 0 ==> old(self).queue_state.queue_index != Some(usize::MAX),
                *self == (App { queue_state: self.queue_state, ..*old(self) }),
            ensures
                refill_from(self.queue_state@, u.skip(i as int)) == (self.queue_state@, 0nat),
                refill_from(self.queue_state@, u.skip(i as int)).0 == goal.0,
                added + refill_from(self.queue_state@, u.skip(i as int)).1 == goal.1,
            decreases n - i,
        {
            let ghost cur = self.queue_state@;
            let ghost rest = u.skip(i as int);
            assert(rest.drop_first() =~= u.skip(i as int + 1));
            if self.queue_state.remaining_after_current() >= MIN_QUEUE_LEN {
                break;
            }
            let t = up_next[i].clone();
            assert(rest[0] == t);
            if t.video_id.as_str().is_empty() {
                i = i + 1;
                continue;
            }
            if self.queue_state.has_track_anywhere(t.video_id.as_str()) {
                i = i + 1;
                continue;
            }
            self.queue_state.enqueue(t);
            added = added + 1;
            i = i + 1;
        }
        assert(u.skip(n as int).len() == 0);
        added
    }

    /// After a batch of recommendations was offered: whether to fetch
    /// another, which is so while the queue still needs topping up and the
    /// batch added tracks and changed how many follow the current one.
    pub fn refill_should_continue(&self, before: usize, batch_added: usize) -> (r: bool)
        requires
            batch_added != 0 ==> self.queue_state.queue_index != Some(usize::MAX),
        ensures
            r == (batch_added != 0 && self.queue_state@.remaining() != before && self.queue_state@.should_refill()),
    {
        if batch_added == 0 || self.queue_state.remaining_after_current() == before {
            return false;
        }
        self.queue_state.should_refill_queue()
    }

    /// Reports a finished top-up: when tracks were added, the status gives
    /// their number and how many tracks now follow the current one.
    pub fn report_refill(&mut self, added: usize)
        requires
            added > 0 ==> old(self).queue_state.queue_index != Some(usize::MAX),
        ensures
            added == 0 ==> *final(self) == *old(self),
            added > 0 ==> *final(self) == (App { status: final(self).status, ..*old(self) })
                && final(self).status@ == "auto queued "@ + decimal(added as nat) + " track(s); "@
                + decimal(old(self).queue_state@.remaining() as nat) + " upcoming track(s)"@,
    {
        if added > 0 {
            let mut status = String::from_str("auto queued ");
            status.append(decimal_string(added as u64).as_str());
            status.append(" track(s); ");
            status.append(decimal_string(self.queue_state.remaining_after_current() as u64).as_str());
            status.append(" upcoming track(s)");
            self.status = status;
        }
    }
}

impl App {
    /// The effect of `enqueue_selected`.
    pub open spec fn selection_enqueued(pre: App, post: App) -> bool {
        match pre.selection() {
            None => post == (App { status: post.status, ..pre }) && post.status@ == "nothing selected"@,
            Some(t) => if seq_has_id(pre.queue_state.queue@, t.video_id@) {
                post == (App { status: post.status, ..pre }) && post.status@ == "already in queue"@
            } else {
                &&& post == (App { queue_state: post.queue_state, status: post.status, screen: Screen::Queue, ..pre })
                &&& post.queue_state@ == (QueueModel {
                    source: QueueSource::Auto,
                    active_playlist: None,
                    ..pre.queue_state@.enqueued(t)
                })
                &&& post.status@ == "queued: "@ + t.title@
            },
        }
    }

    /// The effect of `remove_selected`.
    pub open spec fn selection_removed(pre: App, post: App, r: Persist) -> bool {
        match pre.screen {
            Screen::Queue => {
                &&& r == Persist::Nothing
                &&& if pre.queue_state.queue_selected < pre.queue_state.queue@.len() {
                    &&& post == (App { queue_state: post.queue_state, status: post.status, ..pre })
                    &&& post.queue_state@ == pre.queue_state@.removed_selected()
                    &&& post.status@ == "removed from queue"@
                } else {
                    post == (App { queue_state: post.queue_state, ..pre }) && post.queue_state@ == pre.queue_state@
                }
            },
            Screen::Favorites => exists|save: bool| App::favorite_removed(pre, post, save)
                && r == (if save { Persist::Favorites } else { Persist::Nothing }),
            Screen::Playlists => exists|save: bool| App::playlist_track_removed(pre, post, save)
                && r == (if save { Persist::Playlists } else { Persist::Nothing }),
            _ => r == Persist::Nothing && post == pre,
        }
    }

    /// The effect of `move_queue_up`.
    pub open spec fn queue_moved_up(pre: App, post: App) -> bool {
        &&& post == (App { queue_state: post.queue_state, ..pre })
        &&& post.queue_state@ == (if pre.screen == Screen::Queue && pre.queue_state@.can_move_up() {
            pre.queue_state@.moved_up()
        } else {
            pre.queue_state@
        })
    }

    /// The effect of `move_queue_down`.
    pub open spec fn queue_moved_down(pre: App, post: App) -> bool {
        &&& post == (App { queue_state: post.queue_state, ..pre })
        &&& post.queue_state@ == (if pre.screen == Screen::Queue && pre.queue_state@.can_move_down() {
            pre.queue_state@.moved_down()
        } else {
            pre.queue_state@
        })
    }

    /// Queues the selected track at the end of an automatic queue, unless a
    /// track with its video id is queued already, and shows the queue.
    pub fn enqueue_selected(&mut self)
        ensures
            App::selection_enqueued(*old(self), *final(self)),
    {
        match self.current_selection() {
            Some(track) => {
                let n = self.queue_state.queue.len();
                let mut i: usize = 0;
                while i < n
                    invariant
                        *self == *old(self),
                        old(self).selection() == Some(track),
                        n == self.queue_state.queue@.len(),
                        0 <= i <= n,
                        forall|j: int| 0 <= j < i ==> #[trigger] self.queue_state.queue@[j].video_id@ != track.video_id@,
                    decreases n - i,
                {
                    if self.queue_state.queue[i].video_id == track.video_id {
                        assert(seq_has_id(self.queue_state.queue@, track.video_id@));
                        self.status = String::from_str("already in queue");
                        return;
                    }
                    i = i + 1;
                }
                self.queue_state.queue_source = QueueSource::Auto;
                self.queue_state.active_playlist = None;
                let mut status = String::from_str("queued: ");
                status.append(track.title.as_str());
                self.queue_state.enqueue(track);
                self.status = status;
                self.screen = Screen::Queue;
            },
            None => {
                self.status = String::from_str("nothing selected");
            },
        }
    }

    /// Removes the entry under the cursor of the queue, favorites or
    /// playlist screen, and says which list must be saved.
    pub fn remove_selected(&mut self) -> (r: Persist)
        ensures
            App::selection_removed(*old(self), *final(self), r),
    {
        match self.screen {
            Screen::Queue => {
                if self.queue_state.remove_at_selected() {
                    self.status = String::from_str("removed from queue");
                }
                Persist::Nothing
            },
            Screen::Favorites => {
                if self.remove_favorite_at_selected() {
                    Persist::Favorites
                } else {
                    Persist::Nothing
                }
            },
            Screen::Playlists => {
                if self.remove_playlist_track_at_selected() {
                    Persist::Playlists
                } else {
                    Persist::Nothing
                }
            },
            _ => Persist::Nothing,
        }
    }

    /// On the queue screen, moves the track under the cursor up.
    pub fn move_queue_up(&mut self)
        requires
            old(self).screen == Screen::Queue && old(self).queue_state@.can_move_up() ==> old(
                self,
            ).queue_state.queue_selected < old(self).queue_state.queue@.len() && old(self).queue_state.queue_index
                != Some(usize::MAX),
        ensures
            App::queue_moved_up(*old(self), *final(self)),
    {
        if self.screen != Screen::Queue {
            return;
        }
        self.queue_state.move_selected_up();
    }

    /// On the queue screen, moves the track under the cursor down.
    pub fn move_queue_down(&mut self)
        requires
            old(self).screen == Screen::Queue ==> old(self).queue_state.queue_selected < usize::MAX,
        ensures
            App::queue_moved_down(*old(self), *final(self)),
    {
        if self.screen != Screen::Queue {
            return;
        }
        self.queue_state.move_selected_down();
    }

    /// Reports the outcome of toggling pause: the player's error message, or
    /// whether it is paused now.
    pub fn toggle_pause(&mut self, outcome: Result<bool, String>)
        ensures
            *final(self) == (App { status: final(self).status, ..*old(self) }),
            final(self).status@ == (match outcome {
                Err(e) => "pause failed: "@ + e@,
                Ok(paused) => if paused { "paused"@ } else { "playing"@ },
            }),
    {
        self.status = match outcome {
            Err(e) => {
                let mut s = String::from_str("pause failed: ");
                s.append(e.as_str());
                s
            },
            Ok(paused) => if paused {
                String::from_str("paused")
            } else {
                String::from_str("playing")
            },
        };
    }

    /// Reports the outcome of raising the volume: the player's error
    /// message, or the volume it reports now, as the player renders it.
    pub fn volume_up(&mut self, outcome: Result<String, String>)
        ensures
            *final(self) == (App { status: final(self).status, ..*old(self) }),
            final(self).status@ == (match outcome {
                Err(e) => "volume failed: "@ + e@,
                Ok(v) => "volume: "@ + v@,
            }),
    {
        self.report_volume(outcome);
    }

    /// Reports the outcome of lowering the volume, as `volume_up` does.
    pub fn volume_down(&mut self, outcome: Result<String, String>)
        ensures
            *final(self) == (App { status: final(self).status, ..*old(self) }),
            final(self).status@ == (match outcome {
                Err(e) => "volume failed: "@ + e@,
                Ok(v) => "volume: "@ + v@,
            }),
    {
        self.report_volume(outcome);
    }

    fn report_volume(&mut self, outcome: Result<String, String>)
        ensures
            *final(self) == (App { status: final(self).status, ..*old(self) }),
            final(self).status@ == (match outcome {
                Err(e) => "volume failed: "@ + e@,
                Ok(v) => "volume: "@ + v@,
            }),
    {
        self.status = match outcome {
            Err(e) => {
                let mut s = String::from_str("volume failed: ");
                s.append(e.as_str());
                s
            },
            Ok(v) => {
                let mut s = String::from_str("volume: ");
                s.append(v.as_str());
                s
            },
        };
    }

    /// The track that `c` caches: the selection, or `None` with a status
    /// when nothing is selected.
    pub fn cache_target(&mut self) -> (r: Option<Track>)
        ensures
            r == old(self).selection(),
            r is Some ==> *final(self) == *old(self),
            r is None ==> *final(self) == (App { status: final(self).status, ..*old(self) })
                && final(self).status@ == "nothing selected"@,
    {
        let r = self.current_selection();
        if r.is_none() {
            self.status = String::from_str("nothing selected");
        }
        r
    }

    /// Reports on caching `track`: it was cached already, or caching has
    /// started.
    pub fn report_cache(&mut self, track: &Track, already_cached: bool)
        ensures
            *final(self) == (App { status: final(self).status, ..*old(self) }),
            final(self).status@ == (if already_cached {
                "already cached"@
            } else {
                "caching: "@ + track.title@
            }),
    {
        if already_cached {
            self.status = String::from_str("already cached");
        } else {
            let mut s = String::from_str("caching: ");
            s.append(track.title.as_str());
            self.status = s;
        }
    }

    /// Reports that playback was stopped.
    pub fn report_stopped(&mut self)
        ensures
            *final(self) == (App { status: final(self).status, ..*old(self) }),
            final(self).status@ == "stopped"@,
    {
        self.status = String::from_str("stopped");
    }

    /// Reports that seeking failed, with the player's message.
    pub fn report_seek_failed(&mut self, message: String)
        ensures
            *final(self) == (App { status: final(self).status, ..*old(self) }),
            final(self).status@ == "seek failed: "@ + message@,
    {
        let mut s = String::from_str("seek failed: ");
        s.append(message.as_str());
        self.status = s;
    }
}

proof fn lemma_enqueued_keeps_known(m: QueueModel, t: Track, id: Seq<char>)
    requires
        m.has_track(id),
    ensures
        m.enqueued(t).has_track(id),
{
    let e = m.enqueued(t);
    if seq_has_id(m.queue, id) {
        let w = choose|w: int| 0 <= w < m.queue.len() && #[trigger] m.queue[w].video_id@ == id;
        assert(e.queue[w] == m.queue[w]);
    }
}

/// Topping up the queue only appends: the queue before it is kept as a
/// prefix and every other part of the state but the remembered ids is kept;
/// each added track has a non-empty id that was not known anywhere before,
/// no two added tracks share an id; the top-up stops at `MIN_QUEUE_LEN`
/// upcoming tracks, and keeps a well-formed queue well-formed.
pub proof fn law_refill_appends_new_tracks(m: QueueModel, up_next: Seq<Track>)
    ensures
        ({
            let (r, k) = refill_from(m, up_next);
            let n = m.queue.len();
            &&& r.queue.len() == n + k
            &&& r.queue.take(n as int) == m.queue
            &&& r == (QueueModel { queue: r.queue, ids: r.ids, ..m })
            &&& forall|j: int| n <= j < r.queue.len() ==> #[trigger] r.queue[j].video_id@.len() > 0
                && !m.has_track(r.queue[j].video_id@)
            &&& forall|i: int, j: int| n <= i < j < r.queue.len() ==> #[trigger] r.queue[i].video_id@
                != #[trigger] r.queue[j].video_id@
            &&& (m.remaining() >= MIN_QUEUE_LEN ==> r == m && k == 0)
            &&& (m.remaining() < MIN_QUEUE_LEN ==> r.remaining() <= MIN_QUEUE_LEN)
            &&& (m.wf() ==> r.wf())
        }),
    decreases up_next.len(),
{
    let n = m.queue.len();
    if up_next.len() == 0 || m.remaining() >= MIN_QUEUE_LEN {
        assert(m.queue.take(n as int) =~= m.queue);
    } else {
        let t = up_next[0];
        let rest = up_next.drop_first();
        if t.video_id@.len() == 0 || m.has_track(t.video_id@) {
            law_refill_appends_new_tracks(m, rest);
        } else {
            let e = m.enqueued(t);
            law_refill_appends_new_tracks(e, rest);
            let (r, k) = refill_from(e, rest);
            assert(e.queue[n as int] == t);
            assert(r.queue.take(n as int + 1) == e.queue);
            assert(r.queue.take(n as int) =~= m.queue) by {
                assert forall|j: int| 0 <= j < n implies r.queue.take(n as int)[j] == m.queue[j] by {
                    assert(r.queue.take(n as int + 1)[j] == e.queue[j]);
                }
            }
            assert(r.queue[n as int] == t) by {
                assert(r.queue.take(n as int + 1)[n as int] == e.queue[n as int]);
            }
            assert(e.has_track(t.video_id@)) by {
                assert(e.ids.contains(t.video_id@));
            }
            assert forall|j: int| n <= j < r.queue.len() implies #[trigger] r.queue[j].video_id@.len() > 0
                && !m.has_track(r.queue[j].video_id@) by {
                if j > n {
                    if m.has_track(r.queue[j].video_id@) {
                        lemma_enqueued_keeps_known(m, t, r.queue[j].video_id@);
                    }
                }
            }
            assert forall|i: int, j: int| n <= i < j < r.queue.len() implies #[trigger] r.queue[i].video_id@
                != #[trigger] r.queue[j].video_id@ by {
                if i == n {
                    assert(!e.has_track(r.queue[j].video_id@));
                }
            }
        }
    }
}

/// The playback steps keep a well-formed queue well-formed: pointing it at
/// an entry it has, playing a track after the current one, replacing it by
/// a non-empty playlist, and topping it up.
pub proof fn law_playback_keeps_queue_well_formed(
    m: QueueModel,
    index: int,
    t: Track,
    tracks: Seq<Track>,
    playlist: usize,
    up_next: Seq<Track>,
)
    requires
        m.wf(),
    ensures
        0 <= index < m.queue.len() ==> (QueueModel { index: Some(index), selected: index, ..m }).wf(),
        (QueueModel {
            source: QueueSource::Auto,
            active_playlist: None,
            index: Some(m.insert_position()),
            selected: m.insert_position(),
            ..m.inserted_after_current(t)
        }).wf(),
        tracks.len() > 0 ==> (QueueModel {
            source: QueueSource::Playlist,
            active_playlist: Some(playlist),
            ..m.replaced(tracks)
        }).wf(),
        refill_from(m, up_next).0.wf(),
{
    crate::app::queue_state::law_insert_after_current(m, t);
    law_refill_appends_new_tracks(m, up_next);
}

} // verus!
