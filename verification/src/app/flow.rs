//! The playback flows as a state machine. A flow is started by a key or by
//! the end of a track; each step makes the decisions that are due and asks
//! for one piece of outside work (topping up the queue, playing a track,
//! looking tracks up in the cache), after which the caller takes the next
//! step with the flow that the action carries.

use vstd::prelude::*;
use crate::app::{App, QueueSource, Screen};
use crate::app::playback::{PlayRequest, PreviousTarget, next_index};
use crate::app::queue_state::{QueueModel, QueueState};
use crate::types::track::Track;

verus! {

/// Where a playback flow stands.
#[derive(Debug, PartialEq, Eq)]
pub enum Flow {
    /// Enter: play what is selected.
    Selected,
    /// `n`: play the next entry of the queue.
    Next,
    /// `n`, after the top-up of an automatic queue.
    NextChecked,
    /// `n`, with the queue topped up as far as it goes.
    NextPick,
    /// The player finished a track.
    Finished,
    /// After the top-up that follows the end of a track.
    FinishedPick,
    /// `b`: go back.
    Previous,
    /// The track to play right after the current one, looked up in the
    /// cache.
    DetachedReady(Track),
    /// The tracks of the selected playlist, looked up in the cache, and the
    /// one to start from.
    PlaylistReady(Vec<Track>, usize),
    /// A queue entry was played: top an automatic queue up, and once more
    /// afterwards when the flag is set.
    QueuePlayed(bool),
    /// Top the queue up once more.
    RefillAgain,
    /// Nothing is left to do.
    End,
}

/// The outside work that a step asks for.
#[derive(Debug, PartialEq, Eq)]
pub enum Action {
    /// The flow is over.
    Done,
    /// Top the queue up (`refill_seed`, fetch, `refill_queue_from`, ...),
    /// then step with this flow.
    Refill(Flow),
    /// Play this track (`push_previous_if_different`, look it up in the
    /// cache, `remember_track`, start the player, save the history,
    /// `finish_now_playing`), then step with this flow.
    Play(Track, Flow),
    /// Look this track up in the cache, then step with
    /// `Flow::DetachedReady` of the result.
    Enrich(Track),
    /// Look these tracks up in the cache, then step with
    /// `Flow::PlaylistReady` of the results and this index.
    EnrichAll(Vec<Track>, usize),
}

impl Flow {
    /// The step steps past the playing index, so that index must not be
    /// the last `usize`.
    pub open spec fn needs_room(self, app: App) -> bool {
        match self {
            Flow::Next | Flow::NextChecked | Flow::NextPick | Flow::FinishedPick | Flow::DetachedReady(_) => true,
            Flow::Finished => app.queue_state.now_playing is Some,
            _ => false,
        }
    }
}

impl App {
    /// Pointing the queue at entry `i` and playing it, when it exists;
    /// `twice` goes to the flow that follows.
    pub open spec fn queue_at_step(pre: App, post: App, i: int, twice: bool, act: Action) -> bool {
        if 0 <= i < pre.queue_state.queue@.len() {
            &&& act == Action::Play(pre.queue_state.queue@[i], Flow::QueuePlayed(twice))
            &&& post == (App {
                queue_state: QueueState { queue_index: Some(i as usize), queue_selected: i as usize, ..pre.queue_state },
                ..pre
            })
        } else {
            &&& act == Action::Done
            &&& post == (App { status: post.status, ..pre })
            &&& post.status@ == "queue index is empty"@
        }
    }

    /// The effect of `step` on `n` once the queue is topped up.
    pub open spec fn next_pick_step(pre: App, post: App, act: Action) -> bool {
        let k = next_index(pre.queue_state.queue_index);
        if k < pre.queue_state.queue@.len() {
            App::queue_at_step(pre, post, k, false, act)
        } else {
            &&& act == Action::Done
            &&& post == (App { status: post.status, ..pre })
            &&& post.status@ == "no next track"@
        }
    }

    /// The effect of `step` after the top-up that follows the end of a
    /// track.
    pub open spec fn finished_pick_step(pre: App, post: App, act: Action) -> bool {
        let k = next_index(pre.queue_state.queue_index);
        let playlist = pre.queue_state.queue_source == QueueSource::Playlist;
        if k < pre.queue_state.queue@.len() {
            &&& act == Action::Play(pre.queue_state.queue@[k], Flow::QueuePlayed(!playlist))
            &&& post == (App {
                queue_state: QueueState { queue_index: Some(k as usize), queue_selected: k as usize, ..pre.queue_state },
                status: post.status,
                ..pre
            })
            &&& post.status@ == (if playlist { "autoplay next playlist track"@ } else { "autoplay next track"@ })
        } else {
            &&& act == Action::Done
            &&& post == (App { status: post.status, ..pre })
            &&& post.status@ == (if playlist { "playlist finished"@ } else { "queue finished"@ })
        }
    }

    /// The effect of one `step` of a playback flow.
    pub open spec fn stepped(pre: App, post: App, flow: Flow, act: Action) -> bool {
        let q = pre.queue_state;
        let auto = q.queue_source == QueueSource::Auto;
        match flow {
            Flow::Selected => match pre.screen {
                Screen::Queue => App::queue_at_step(pre, post, q.queue_selected as int, false, act),
                Screen::Playlists => {
                    let lib = pre.library_state;
                    let p = lib.playlists@;
                    let ps = lib.playlist_selected as int;
                    if ps >= p.len() {
                        act == Action::Done && post == (App { status: post.status, ..pre })
                            && post.status@ == "no playlist selected"@
                    } else if p[ps].tracks@.len() == 0 {
                        act == Action::Done && post == (App { status: post.status, ..pre })
                            && post.status@ == "playlist is empty"@
                    } else {
                        let n = p[ps].tracks@.len();
                        &&& post == pre
                        &&& act matches Action::EnrichAll(v, k) && v@ == p[ps].tracks@
                            && k == (if lib.playlist_track_selected < n - 1 { lib.playlist_track_selected as int } else { n - 1 })
                    }
                },
                _ => match pre.selection() {
                    Some(t) => post == pre && act == Action::Enrich(t),
                    None => act == Action::Done && post == (App { status: post.status, ..pre })
                        && post.status@ == "nothing selected"@,
                },
            },
            Flow::PlaylistReady(tracks, k) => {
                let m = QueueModel {
                    source: QueueSource::Playlist,
                    active_playlist: Some(pre.library_state.playlist_selected),
                    ..q@.replaced(tracks@)
                };
                &&& post == (App { queue_state: post.queue_state, status: post.status, ..pre })
                &&& if k < tracks@.len() {
                    &&& post.queue_state@ == (QueueModel { index: Some(k as int), selected: k as int, ..m })
                    &&& post.status == pre.status
                    &&& act == Action::Play(tracks@[k as int], Flow::QueuePlayed(false))
                } else {
                    post.queue_state@ == m && post.status@ == "queue index is empty"@ && act == Action::Done
                }
            },
            Flow::DetachedReady(t) => {
                let k = q@.insert_position();
                &&& post == (App { queue_state: post.queue_state, ..pre })
                &&& post.queue_state@ == (QueueModel {
                    source: QueueSource::Auto,
                    active_playlist: None,
                    index: Some(k),
                    selected: k,
                    ..q@.inserted_after_current(t)
                })
                &&& act == Action::Play(t, Flow::RefillAgain)
            },
            Flow::QueuePlayed(twice) => post == pre && act == (if auto {
                Action::Refill(if twice { Flow::RefillAgain } else { Flow::End })
            } else {
                Action::Done
            }),
            Flow::RefillAgain => post == pre && act == Action::Refill(Flow::End),
            Flow::End => post == pre && act == Action::Done,
            Flow::Next => if auto {
                post == pre && act == Action::Refill(Flow::NextChecked)
            } else {
                App::next_pick_step(pre, post, act)
            },
            Flow::NextChecked => if auto && next_index(q.queue_index) >= q.queue@.len() {
                post == pre && act == Action::Refill(Flow::NextPick)
            } else {
                App::next_pick_step(pre, post, act)
            },
            Flow::NextPick => App::next_pick_step(pre, post, act),
            Flow::Finished => if q.now_playing is None {
                post == pre && act == Action::Done
            } else if auto {
                post == pre && act == Action::Refill(Flow::FinishedPick)
            } else {
                App::finished_pick_step(pre, post, act)
            },
            Flow::FinishedPick => App::finished_pick_step(pre, post, act),
            Flow::Previous => if q.queue_index matches Some(i) && i > 0 && i - 1 < q.queue@.len() {
                App::queue_at_step(pre, post, q.queue_index->0 - 1, false, act)
            } else if q.previous@.len() > 0 {
                &&& act == Action::Play(q.previous@.last(), Flow::End)
                &&& post.queue_state.previous@ == q.previous@.drop_last()
                &&& post == (App {
                    queue_state: (QueueState { previous: post.queue_state.previous, ..q }),
                    ..pre
                })
            } else {
                act == Action::Done && post == (App { status: post.status, ..pre })
                    && post.status@ == "no previous track"@
            },
        }
    }

    /// Whether `step` may be taken with `flow`: tests exactly its
    /// precondition.
    pub fn step_ok(&self, flow: &Flow) -> (r: bool)
        ensures
            r == (flow.needs_room(*self) ==> self.queue_state.queue_index != Some(usize::MAX)),
    {
        let needs = match flow {
            Flow::Next | Flow::NextChecked | Flow::NextPick | Flow::FinishedPick | Flow::DetachedReady(_) => true,
            Flow::Finished => self.queue_state.now_playing.is_some(),
            _ => false,
        };
        !needs || self.queue_state.queue_index != Some(usize::MAX)
    }

    fn queue_at(&mut self, i: usize, twice: bool) -> (act: Action)
        ensures
            App::queue_at_step(*old(self), *final(self), i as int, twice, act),
    {
        match self.play_queue_at(i) {
            Some(t) => Action::Play(t, Flow::QueuePlayed(twice)),
            None => Action::Done,
        }
    }

    /// Takes one step of a playback flow: the decisions that are due, and
    /// the outside work to do before the next step.
    pub fn step(&mut self, flow: Flow) -> (act: Action)
        requires
            flow.needs_room(*old(self)) ==> old(self).queue_state.queue_index != Some(usize::MAX),
        ensures
            App::stepped(*old(self), *final(self), flow, act),
    {
        let auto = self.queue_state.queue_source == QueueSource::Auto;
        match flow {
            Flow::Selected => match self.play_selected() {
                PlayRequest::QueueAt(i) => self.queue_at(i, false),
                PlayRequest::Playlist => match self.playlist_to_play() {
                    Some((tracks, k)) => Action::EnrichAll(tracks, k),
                    None => Action::Done,
                },
                PlayRequest::Detached(t) => Action::Enrich(t),
                PlayRequest::Nothing => Action::Done,
            },
            Flow::PlaylistReady(tracks, k) => {
                let ghost t = tracks@;
                let first = if k < tracks.len() {
                    Some(tracks[k].clone())
                } else {
                    None
                };
                self.start_playlist_queue(tracks);
                match self.play_queue_at(k) {
                    Some(_) => {
                        match first {
                            Some(f) => Action::Play(f, Flow::QueuePlayed(false)),
                            None => Action::Done,
                        }
                    },
                    None => Action::Done,
                }
            },
            Flow::DetachedReady(t) => {
                self.queue_detached(t.clone());
                Action::Play(t, Flow::RefillAgain)
            },
            Flow::QueuePlayed(twice) => {
                if auto {
                    Action::Refill(if twice { Flow::RefillAgain } else { Flow::End })
                } else {
                    Action::Done
                }
            },
            Flow::RefillAgain => Action::Refill(Flow::End),
            Flow::End => Action::Done,
            Flow::Next => {
                if auto {
                    Action::Refill(Flow::NextChecked)
                } else {
                    self.next_pick()
                }
            },
            Flow::NextChecked => {
                if auto && self.next_queue_index() >= self.queue_state.queue.len() {
                    Action::Refill(Flow::NextPick)
                } else {
                    self.next_pick()
                }
            },
            Flow::NextPick => self.next_pick(),
            Flow::Finished => {
                if self.queue_state.now_playing.is_none() {
                    Action::Done
                } else if auto {
                    Action::Refill(Flow::FinishedPick)
                } else {
                    self.finished_pick()
                }
            },
            Flow::FinishedPick => self.finished_pick(),
            Flow::Previous => match self.previous_target() {
                PreviousTarget::QueueAt(i) => self.queue_at(i, false),
                PreviousTarget::Track(t) => Action::Play(t, Flow::End),
                PreviousTarget::Nothing => Action::Done,
            },
        }
    }

    fn next_pick(&mut self) -> (act: Action)
        requires
            old(self).queue_state.queue_index != Some(usize::MAX),
        ensures
            App::next_pick_step(*old(self), *final(self), act),
    {
        match self.play_next_target() {
            Some(i) => self.queue_at(i, false),
            None => Action::Done,
        }
    }

    fn finished_pick(&mut self) -> (act: Action)
        requires
            old(self).queue_state.queue_index != Some(usize::MAX),
        ensures
            App::finished_pick_step(*old(self), *final(self), act),
    {
        let playlist = self.queue_state.queue_source == QueueSource::Playlist;
        match self.track_finished_target() {
            Some(i) => self.queue_at(i, !playlist),
            None => Action::Done,
        }
    }
}

/// No step of a playback flow breaks the queue: when its playing index and
/// cursor point into it before the step, they do afterwards. (A playlist
/// handed to `Flow::PlaylistReady` is never empty: `Action::EnrichAll`
/// carries only non-empty ones.)
pub proof fn law_steps_keep_queue_well_formed(pre: App, post: App, flow: Flow, act: Action)
    requires
        pre.queue_state@.wf(),
        App::stepped(pre, post, flow, act),
        flow matches Flow::PlaylistReady(v, _) ==> v@.len() > 0,
    ensures
        post.queue_state@.wf(),
{
    match flow {
        Flow::PlaylistReady(tracks, k) => {
            let m = QueueModel {
                source: QueueSource::Playlist,
                active_playlist: Some(pre.library_state.playlist_selected),
                ..pre.queue_state@.replaced(tracks@)
            };
            assert(m.wf());
        },
        Flow::DetachedReady(t) => {
            crate::app::queue_state::law_insert_after_current(pre.queue_state@, t);
        },
        _ => {},
    }
}

/// A step that plays a queue entry of an automatic queue is followed by a
/// top-up: the flow it hands on asks for one.
pub proof fn law_played_entries_are_followed_by_refill(pre: App, twice: bool, post: App, act: Action)
    requires
        pre.queue_state.queue_source == QueueSource::Auto,
        App::stepped(pre, post, Flow::QueuePlayed(twice), act),
    ensures
        act matches Action::Refill(next) && (twice ==> next == Flow::RefillAgain),
{
}

/// Enter on the playlists screen plays the selected playlist from the track
/// under its cursor (from its last track when the cursor is past the end):
/// the first step hands on the playlist's tracks and that index, changing
/// nothing, and the step that follows with them makes the playlist the queue
/// and plays that very track.
pub proof fn law_enter_plays_playlist_from_cursor(pre: App, mid: App, act: Action, post: App, act2: Action)
    requires
        pre.screen == Screen::Playlists,
        pre.library_state.playlist_selected < pre.library_state.playlists@.len(),
        pre.library_state.playlists@[pre.library_state.playlist_selected as int].tracks@.len() > 0,
        App::stepped(pre, mid, Flow::Selected, act),
        act matches Action::EnrichAll(v, k) ==> App::stepped(mid, post, Flow::PlaylistReady(v, k), act2),
    ensures
        ({
            let tracks = pre.library_state.playlists@[pre.library_state.playlist_selected as int].tracks@;
            let c = pre.library_state.playlist_track_selected as int;
            let start = if c < tracks.len() { c } else { tracks.len() - 1 };
            &&& mid == pre
            &&& act matches Action::EnrichAll(v, k) && v@ == tracks && k == start
            &&& act2 == Action::Play(tracks[start], Flow::QueuePlayed(false))
            &&& post.queue_state.queue@ == tracks
            &&& post.queue_state.queue_index == Some(start as usize)
            &&& post.queue_state.queue_source == QueueSource::Playlist
            &&& c < tracks.len() ==> act2 == Action::Play(tracks[c], Flow::QueuePlayed(false))
        }),
{
}

} // verus!
