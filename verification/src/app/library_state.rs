//! The user's library: play history, favorites and local playlists, with the
//! cursors that select within them on the playlists screen.

use vstd::prelude::*;
use crate::app::PlaylistFocus;
use crate::types::playlist::LocalPlaylist;
use crate::types::track::Track;

verus! {

/// At most this many tracks are kept in the play history.
pub const HISTORY_CAP: usize = 100;

/// The tracks whose video id is not `id`.
pub open spec fn not_id(id: Seq<char>) -> spec_fn(Track) -> bool {
    |t: Track| t.video_id@ != id
}

/// The first `HISTORY_CAP` elements of `s`.
pub open spec fn capped(s: Seq<Track>) -> Seq<Track> {
    if s.len() > HISTORY_CAP {
        s.take(HISTORY_CAP as int)
    } else {
        s
    }
}

/// The history after `t` is played: `t` in front, every other entry with
/// its video id dropped, the rest in order, cut to the cap.
pub open spec fn recorded(history: Seq<Track>, t: Track) -> Seq<Track> {
    capped(seq![t] + history.filter(not_id(t.video_id@)))
}

/// No two tracks of `s` share a video id.
pub open spec fn distinct_ids(s: Seq<Track>) -> bool {
    forall|i: int, j: int| 0 <= i < s.len() && 0 <= j < s.len() && i != j ==> #[trigger] s[i].video_id@ != #[trigger] s[j].video_id@
}

/// History, favorites and playlists, and the playlist-screen cursors.
pub struct LibraryState {
    pub history: Vec<Track>,
    pub favorites: Vec<Track>,
    pub playlists: Vec<LocalPlaylist>,
    pub playlist_selected: usize,
    pub playlist_track_selected: usize,
    pub playlist_focus: PlaylistFocus,
}

impl LibraryState {
    /// The number of tracks in the selected playlist, 0 when no playlist is
    /// selected.
    pub open spec fn spec_focused_len(self) -> int {
        if self.playlist_selected < self.playlists@.len() {
            self.playlists@[self.playlist_selected as int].tracks@.len() as int
        } else {
            0
        }
    }

    pub fn new(history: Vec<Track>, favorites: Vec<Track>, playlists: Vec<LocalPlaylist>) -> (r: Self)
        ensures
            r.history@ == history@,
            r.favorites@ == favorites@,
            r.playlists@ == playlists@,
            r.playlist_selected == 0,
            r.playlist_track_selected == 0,
            r.playlist_focus == PlaylistFocus::List,
    {
        LibraryState {
            history,
            favorites,
            playlists,
            playlist_selected: 0,
            playlist_track_selected: 0,
            playlist_focus: PlaylistFocus::List,
        }
    }

    /// Records that `track` was played: any entry with its video id leaves
    /// the history, the track goes in front, the list is cut to
    /// `HISTORY_CAP`, and the new history is returned so that the caller can
    /// save it.
    pub fn record_play(&mut self, track: Track) -> (r: Vec<Track>)
        ensures
            final(self).history@ == recorded(old(self).history@, track),
            r@ == final(self).history@,
            final(self).favorites == old(self).favorites,
            final(self).playlists == old(self).playlists,
            final(self).playlist_selected == old(self).playlist_selected,
            final(self).playlist_track_selected == old(self).playlist_track_selected,
            final(self).playlist_focus == old(self).playlist_focus,
    {
        let ghost h = self.history@;
        let ghost p = not_id(track.video_id@);
        let mut kept: Vec<Track> = Vec::new();
        let n = self.history.len();
        let mut i: usize = 0;
        while i < n
            invariant
                0 <= i <= n,
                n == h.len(),
                self.history@ == h,
                p == not_id(track.video_id@),
                kept@ == h.take(i as int).filter(p),
            decreases n - i,
        {
            proof {
                reveal_with_fuel(Seq::<_>::filter, 1);
                assert(h.take(i as int + 1).drop_last() =~= h.take(i as int));
            }
            if self.history[i].video_id != track.video_id {
                kept.push(self.history[i].clone());
            }
            i = i + 1;
        }
        assert(h.take(n as int) =~= h);
        kept.insert(0, track);
        assert(kept@ =~= seq![track] + h.filter(p));
        kept.truncate(HISTORY_CAP);
        self.history = kept;
        let r = self.history.clone();
        assert(r@ =~= self.history@);
        r
    }

    /// Number of tracks in the selected playlist, or 0 when none is
    /// selected.
    pub fn focused_playlist_track_len(&self) -> (r: usize)
        ensures
            r == self.spec_focused_len(),
    {
        if self.playlist_selected < self.playlists.len() {
            self.playlists[self.playlist_selected].tracks.len()
        } else {
            0
        }
    }
}

proof fn lemma_filter_all(s: Seq<Track>, p: spec_fn(Track) -> bool)
    requires
        forall|i: int| 0 <= i < s.len() ==> p(#[trigger] s[i]),
    ensures
        s.filter(p) == s,
    decreases s.len(),
{
    reveal_with_fuel(Seq::<_>::filter, 1);
    if s.len() > 0 {
        lemma_filter_all(s.drop_last(), p);
        assert(s.drop_last().push(s.last()) =~= s);
    }
}

proof fn lemma_filter_props(s: Seq<Track>, p: spec_fn(Track) -> bool)
    ensures
        forall|i: int| 0 <= i < s.filter(p).len() ==> p(#[trigger] s.filter(p)[i]),
        s.filter(p).len() <= s.len(),
        forall|i: int| 0 <= i < s.filter(p).len() ==> s.contains(#[trigger] s.filter(p)[i]),
        distinct_ids(s) ==> distinct_ids(s.filter(p)),
    decreases s.len(),
{
    reveal_with_fuel(Seq::<_>::filter, 1);
    if s.len() > 0 {
        let d = s.drop_last();
        lemma_filter_props(d, p);
        let f = d.filter(p);
        assert forall|i: int| 0 <= i < f.len() implies s.contains(#[trigger] f[i]) by {
            let w = choose|w: int| 0 <= w < d.len() && d[w] == f[i];
            assert(s[w] == f[i]);
        }
        assert(s[s.len() - 1] == s.last());
        if distinct_ids(s) {
            assert(distinct_ids(d));
            if p(s.last()) {
                let g = f.push(s.last());
                assert forall|i: int, j: int| 0 <= i < g.len() && 0 <= j < g.len() && i != j implies #[trigger] g[i].video_id@ != #[trigger] g[j].video_id@ by {
                    if i < f.len() && j < f.len() {
                        assert(g[i] == f[i] && g[j] == f[j]);
                    } else if i < f.len() {
                        assert(g[i] == f[i]);
                        let w = choose|w: int| 0 <= w < d.len() && d[w] == f[i];
                        assert(s[w] == d[w]);
                    } else {
                        assert(g[j] == f[j]);
                        let w = choose|w: int| 0 <= w < d.len() && d[w] == f[j];
                        assert(s[w] == d[w]);
                    }
                }
            }
        }
    }
}

/// After `t` is played it heads the history, it is there only once, and the
/// history holds at most `HISTORY_CAP` tracks, all of which were there
/// before or are `t`.
pub proof fn law_record_play_front(history: Seq<Track>, t: Track)
    ensures
        recorded(history, t).len() >= 1,
        recorded(history, t).len() <= HISTORY_CAP,
        recorded(history, t)[0] == t,
        forall|i: int| 1 <= i < recorded(history, t).len() ==> #[trigger] recorded(history, t)[i].video_id@ != t.video_id@,
        forall|i: int| 1 <= i < recorded(history, t).len() ==> history.contains(#[trigger] recorded(history, t)[i]),
{
    let p = not_id(t.video_id@);
    lemma_filter_props(history, p);
    let f = history.filter(p);
    let s = seq![t] + f;
    let r = recorded(history, t);
    assert forall|i: int| 1 <= i < r.len() implies #[trigger] r[i].video_id@ != t.video_id@ && history.contains(r[i]) by {
        assert(r[i] == s[i]);
        assert(s[i] == f[i - 1]);
        assert(p(f[i - 1]));
    }
}

/// Playing the same track twice in a row leaves the history as after the
/// first time.
pub proof fn law_record_play_idempotent(history: Seq<Track>, t: Track)
    ensures
        recorded(recorded(history, t), t) == recorded(history, t),
{
    let p = not_id(t.video_id@);
    let r = recorded(history, t);
    law_record_play_front(history, t);
    let tail = r.drop_first();
    assert forall|i: int| 0 <= i < tail.len() implies p(#[trigger] tail[i]) by {
        assert(tail[i] == r[i + 1]);
    }
    lemma_filter_all(tail, p);
    assert(r =~= seq![t] + tail);
    reveal_with_fuel(Seq::<_>::filter, 2);
    assert(seq![t].filter(p) =~= Seq::<Track>::empty()) by {
        assert(seq![t].drop_last() =~= Seq::<Track>::empty());
    }
    Seq::filter_distributes_over_add(seq![t], tail, p);
    assert(r.filter(p) =~= tail);
    assert(seq![t] + r.filter(p) =~= r);
}

/// A history without repeated video ids keeps that property when a track is
/// played.
pub proof fn law_record_play_keeps_ids_distinct(history: Seq<Track>, t: Track)
    requires
        distinct_ids(history),
    ensures
        distinct_ids(recorded(history, t)),
{
    let p = not_id(t.video_id@);
    lemma_filter_props(history, p);
    let f = history.filter(p);
    let s = seq![t] + f;
    assert(distinct_ids(s)) by {
        assert forall|i: int, j: int| 0 <= i < s.len() && 0 <= j < s.len() && i != j implies #[trigger] s[i].video_id@ != #[trigger] s[j].video_id@ by {
            if i == 0 {
                assert(p(f[j - 1]));
            } else if j == 0 {
                assert(p(f[i - 1]));
            } else {
                assert(s[i] == f[i - 1] && s[j] == f[j - 1]);
            }
        }
    }
    let r = recorded(history, t);
    assert forall|i: int, j: int| 0 <= i < r.len() && 0 <= j < r.len() && i != j implies #[trigger] r[i].video_id@ != #[trigger] r[j].video_id@ by {
        assert(r[i] == s[i] && r[j] == s[j]);
    }
}

} // verus!
