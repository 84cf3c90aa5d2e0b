//! The play queue, the track now playing and the tracks played before it.
//!
//! Pure state transitions live here; whatever needs a service (fetching
//! recommendations, saving history, driving the player) stays outside and
//! calls these primitives, so the fixups of `queue_index` stand in one place.

use std::collections::VecDeque;
use vstd::prelude::*;
use vstd::hash_set::StringHashSet;
use crate::app::{QueueSource, MIN_QUEUE_LEN};
use crate::types::track::Track;

verus! {

/// The queue as a mathematical value.
pub struct QueueModel {
    pub queue: Seq<Track>,
    pub selected: int,
    pub index: Option<int>,
    pub source: QueueSource,
    pub ids: Set<Seq<char>>,
    pub active_playlist: Option<usize>,
    pub now_playing: Option<Track>,
    pub previous: Seq<Track>,
}

/// The non-empty video ids of `tracks`.
pub open spec fn id_set(tracks: Seq<Track>) -> Set<Seq<char>> {
    Set::new(|id: Seq<char>| id.len() > 0 && exists|i: int| 0 <= i < tracks.len() && #[trigger] tracks[i].video_id@ == id)
}

/// Some track of `tracks` has the video id `id`.
pub open spec fn seq_has_id(tracks: Seq<Track>, id: Seq<char>) -> bool {
    exists|i: int| 0 <= i < tracks.len() && #[trigger] tracks[i].video_id@ == id
}

impl QueueModel {
    /// Well-formed: the playing index points into the queue, and the cursor
    /// does too unless the queue is empty and it rests at 0.
    pub open spec fn wf(self) -> bool {
        &&& (self.index matches Some(i) ==> 0 <= i < self.queue.len())
        &&& 0 <= self.selected
        &&& (self.selected < self.queue.len() || self.selected == 0)
    }

    /// How many tracks follow the current one; the whole queue when nothing
    /// plays from it.
    pub open spec fn remaining(self) -> int {
        match self.index {
            Some(i) => if self.queue.len() - (i + 1) < 0 { 0 } else { self.queue.len() - (i + 1) },
            None => self.queue.len() as int,
        }
    }

    pub open spec fn should_refill(self) -> bool {
        self.source == QueueSource::Auto && self.remaining() < MIN_QUEUE_LEN
    }

    /// The video id of `t` is remembered, unless it is empty.
    pub open spec fn remember(self, t: Track) -> QueueModel {
        if t.video_id@.len() > 0 {
            QueueModel { ids: self.ids.insert(t.video_id@), ..self }
        } else {
            self
        }
    }

    /// The track `id` is known anywhere: remembered, playing, queued or
    /// played before. An empty id counts as known.
    pub open spec fn has_track(self, id: Seq<char>) -> bool {
        ||| id.len() == 0
        ||| self.ids.contains(id)
        ||| (self.now_playing matches Some(t) && t.video_id@ == id)
        ||| seq_has_id(self.queue, id)
        ||| seq_has_id(self.previous, id)
    }

    /// The track now playing is given up; it goes on the `previous` stack
    /// unless it has the video id of `new_track`.
    pub open spec fn push_previous(self, new_track: Track) -> QueueModel {
        match self.now_playing {
            None => self,
            Some(c) => QueueModel {
                now_playing: None,
                previous: if c.video_id@ != new_track.video_id@ {
                    self.previous.push(c)
                } else {
                    self.previous
                },
                ..self
            },
        }
    }

    /// The queue is `tracks`, with their ids remembered afresh and the
    /// playing index and the cursor both back at 0.
    pub open spec fn replaced(self, tracks: Seq<Track>) -> QueueModel {
        QueueModel { queue: tracks, ids: id_set(tracks), index: Some(0), selected: 0, ..self }
    }

    /// Where the playing index goes when the track at `sel` is removed and
    /// `n` tracks are left.
    pub open spec fn index_after_remove(index: Option<int>, sel: int, n: int) -> Option<int> {
        match index {
            None => None,
            Some(i) => if n == 0 {
                None
            } else if sel < i {
                Some(i - 1)
            } else if sel == i {
                Some(if i < n - 1 { i } else { n - 1 })
            } else {
                Some(i)
            },
        }
    }

    /// The track under the cursor is removed (the cursor must be on one).
    pub open spec fn removed_selected(self) -> QueueModel {
        let q = self.queue.remove(self.selected);
        let n = q.len() as int;
        QueueModel {
            queue: q,
            index: Self::index_after_remove(self.index, self.selected, n),
            selected: if n == 0 { 0 } else if self.selected < n - 1 { self.selected } else { n - 1 },
            ..self
        }
    }

    /// The elements at `a` and `b` trade places.
    pub open spec fn swapped(s: Seq<Track>, a: int, b: int) -> Seq<Track> {
        s.update(a, s[b]).update(b, s[a])
    }

    pub open spec fn can_move_up(self) -> bool {
        self.selected != 0 && self.queue.len() >= 2
    }

    /// The track under the cursor trades places with the one above it, and
    /// the cursor and the playing index follow the tracks they were on.
    pub open spec fn moved_up(self) -> QueueModel {
        let s = self.selected;
        QueueModel {
            queue: Self::swapped(self.queue, s, s - 1),
            index: match self.index {
                Some(i) => if i == s { Some(i - 1) } else if i + 1 == s { Some(i + 1) } else { Some(i) },
                None => None,
            },
            selected: s - 1,
            ..self
        }
    }

    pub open spec fn can_move_down(self) -> bool {
        self.selected + 1 < self.queue.len()
    }

    /// The track under the cursor trades places with the one below it.
    pub open spec fn moved_down(self) -> QueueModel {
        let s = self.selected;
        QueueModel {
            queue: Self::swapped(self.queue, s, s + 1),
            index: match self.index {
                Some(i) => if i == s { Some(i + 1) } else if i == s + 1 { Some(i - 1) } else { Some(i) },
                None => None,
            },
            selected: s + 1,
            ..self
        }
    }

    /// `t` is remembered and appended.
    pub open spec fn enqueued(self, t: Track) -> QueueModel {
        let m = self.remember(t);
        QueueModel { queue: m.queue.push(t), ..m }
    }

    /// Where `insert_after_current` puts a track: right after the playing
    /// one, or at the end when nothing plays.
    pub open spec fn insert_position(self) -> int {
        let k = match self.index {
            Some(i) => i + 1,
            None => self.queue.len() as int,
        };
        if k < self.queue.len() { k } else { self.queue.len() as int }
    }

    pub open spec fn inserted_after_current(self, t: Track) -> QueueModel {
        let m = self.remember(t);
        QueueModel { queue: m.queue.insert(self.insert_position(), t), ..m }
    }
}

/// State for the queue and the current and previous tracks.
pub struct QueueState {
    pub queue: VecDeque<Track>,
    pub queue_selected: usize,
    pub queue_index: Option<usize>,
    pub queue_source: QueueSource,
    pub queued_video_ids: StringHashSet,
    pub active_playlist: Option<usize>,
    pub now_playing: Option<Track>,
    pub previous: Vec<Track>,
}

impl View for QueueState {
    type V = QueueModel;

    open spec fn view(&self) -> QueueModel {
        QueueModel {
            queue: self.queue@,
            selected: self.queue_selected as int,
            index: match self.queue_index {
                Some(i) => Some(i as int),
                None => None,
            },
            source: self.queue_source,
            ids: self.queued_video_ids@,
            active_playlist: self.active_playlist,
            now_playing: self.now_playing,
            previous: self.previous@,
        }
    }
}

/// Swaps the elements at `i` and `i + 1`, by taking the second out and
/// putting it back in front of the first.
fn swap_with_next(q: &mut VecDeque<Track>, i: usize)
    requires
        i + 1 < old(q)@.len(),
    ensures
        final(q)@ == QueueModel::swapped(old(q)@, i as int, i as int + 1),
{
    let ghost o = q@;
    let n = q.len();
    assert(i + 1 < n);
    let x = q.remove(i + 1);
    match x {
        Some(t) => {
            q.insert(i, t);
        },
        None => {},
    }
    assert(q@ =~= QueueModel::swapped(o, i as int, i as int + 1));
}

impl QueueState {
    pub fn new() -> (r: Self)
        ensures
            r@.queue.len() == 0,
            r@.selected == 0,
            r@.index is None,
            r@.source == QueueSource::Auto,
            r@.ids == Set::<Seq<char>>::empty(),
            r@.active_playlist is None,
            r@.now_playing is None,
            r@.previous.len() == 0,
            r@.wf(),
    {
        QueueState {
            queue: VecDeque::new(),
            queue_selected: 0,
            queue_index: None,
            queue_source: QueueSource::Auto,
            queued_video_ids: StringHashSet::new(),
            active_playlist: None,
            now_playing: None,
            previous: Vec::new(),
        }
    }

    /// Number of tracks after the one playing; when nothing plays from the
    /// queue, the whole queue is upcoming.
    pub fn remaining_after_current(&self) -> (r: usize)
        requires
            self.queue_index != Some(usize::MAX),
        ensures
            r == self@.remaining(),
    {
        match self.queue_index {
            Some(index) => self.queue.len().saturating_sub(index + 1),
            None => self.queue.len(),
        }
    }

    pub fn should_refill_queue(&self) -> (r: bool)
        requires
            self.queue_source == QueueSource::Auto ==> self.queue_index != Some(usize::MAX),
        ensures
            r == self@.should_refill(),
    {
        self.queue_source == QueueSource::Auto && self.remaining_after_current() < MIN_QUEUE_LEN
    }

    /// Remembers a track by its video id, so that later `has_track_anywhere`
    /// checks reject it as a duplicate.
    pub fn remember_track(&mut self, track: &Track)
        ensures
            final(self)@ == old(self)@.remember(*track),
    {
        if !track.video_id.as_str().is_empty() {
            self.queued_video_ids.insert(track.video_id.clone());
        }
    }

    /// Whether `video_id` is remembered, playing, queued or in the previous
    /// stack; an empty id always counts as present.
    pub fn has_track_anywhere(&self, video_id: &str) -> (r: bool)
        ensures
            r == self@.has_track(video_id@),
    {
        if video_id.is_empty() {
            return true;
        }
        if self.queued_video_ids.contains(video_id) {
            return true;
        }
        let target = String::from_str(video_id);
        match &self.now_playing {
            Some(t) => {
                if t.video_id == target {
                    return true;
                }
            },
            None => {},
        }
        let n = self.queue.len();
        let mut i: usize = 0;
        while i < n
            invariant
                n == self.queue@.len(),
                0 <= i <= n,
                target@ == video_id@,
                forall|j: int| 0 <= j < i ==> #[trigger] self.queue@[j].video_id@ != video_id@,
            decreases n - i,
        {
            if self.queue[i].video_id == target {
                return true;
            }
            i = i + 1;
        }
        let m = self.previous.len();
        let mut k: usize = 0;
        while k < m
            invariant
                m == self.previous@.len(),
                0 <= k <= m,
                target@ == video_id@,
                forall|j: int| 0 <= j < k ==> #[trigger] self.previous@[j].video_id@ != video_id@,
            decreases m - k,
        {
            if self.previous[k].video_id == target {
                return true;
            }
            k = k + 1;
        }
        false
    }

    /// Moves the track now playing onto the `previous` stack when it differs
    /// from `new_track`; either way nothing is playing afterwards.
    pub fn push_previous_if_different(&mut self, new_track: &Track)
        ensures
            final(self)@ == old(self)@.push_previous(*new_track),
    {
        if let Some(current) = self.now_playing.take() {
            if current.video_id != new_track.video_id {
                self.previous.push(current);
            }
        }
    }

    /// Replaces the whole queue: `queue_index` and `queue_selected` are
    /// reset to 0 and the remembered ids are rebuilt from the new contents.
    pub fn replace_with(&mut self, tracks: Vec<Track>)
        ensures
            final(self)@ == old(self)@.replaced(tracks@),
    {
        let ghost t = tracks@;
        let mut queue: VecDeque<Track> = VecDeque::new();
        let mut tracks = tracks;
        let n = tracks.len();
        let mut i: usize = 0;
        while i < n
            invariant
                0 <= i <= n,
                n == t.len(),
                tracks@ == t,
                queue@ == t.take(i as int),
            decreases n - i,
        {
            queue.push_back(tracks[i].clone());
            i = i + 1;
            assert(queue@ =~= t.take(i as int));
        }
        assert(queue@ =~= t);
        let mut ids = StringHashSet::new();
        let mut j: usize = 0;
        while j < n
            invariant
                0 <= j <= n,
                n == queue@.len(),
                queue@ == t,
                ids@ == id_set(t.take(j as int)),
            decreases n - j,
        {
            let ghost before = ids@;
            if !queue[j].video_id.as_str().is_empty() {
                ids.insert(queue[j].video_id.clone());
            }
            proof {
                let tj = t.take(j as int);
                let tj1 = t.take(j as int + 1);
                assert(tj1 =~= tj.push(t[j as int]));
                assert forall|id: Seq<char>| #[trigger] id_set(tj1).contains(id) implies ids@.contains(id) by {
                    let w = choose|w: int| 0 <= w < tj1.len() && tj1[w].video_id@ == id;
                    if w < j {
                        assert(tj[w] == tj1[w]);
                        assert(id_set(tj).contains(id));
                    }
                }
                assert forall|id: Seq<char>| ids@.contains(id) implies #[trigger] id_set(tj1).contains(id) by {
                    if before.contains(id) {
                        let w = choose|w: int| 0 <= w < tj.len() && tj[w].video_id@ == id;
                        assert(tj1[w] == tj[w]);
                    } else {
                        assert(tj1[j as int].video_id@ == id);
                    }
                }
                assert(ids@ =~= id_set(tj1));
            }
            j = j + 1;
        }
        assert(t.take(n as int) =~= t);
        self.queue = queue;
        self.queued_video_ids = ids;
        self.queue_index = Some(0);
        self.queue_selected = 0;
        assert(self@ =~= old(self)@.replaced(t));
    }

    /// Removes the track under `queue_selected` and fixes `queue_index` so
    /// that it stays on the same track where it can. Returns whether
    /// something was removed. The remembered ids are left as they are.
    pub fn remove_at_selected(&mut self) -> (r: bool)
        ensures
            r == (old(self).queue_selected < old(self)@.queue.len()),
            r ==> final(self)@ == old(self)@.removed_selected(),
            !r ==> final(self)@ == old(self)@,
    {
        if self.queue_selected >= self.queue.len() {
            return false;
        }
        self.queue.remove(self.queue_selected);
        if let Some(index) = self.queue_index {
            self.queue_index = if self.queue.len() == 0 {
                None
            } else if self.queue_selected < index {
                Some(index.saturating_sub(1))
            } else if self.queue_selected == index {
                Some(if index < self.queue.len() - 1 { index } else { self.queue.len() - 1 })
            } else {
                Some(index)
            };
        }
        let last = self.queue.len().saturating_sub(1);
        self.queue_selected = if self.queue_selected < last { self.queue_selected } else { last };
        true
    }

    /// Swaps the track under the cursor with the one above it. `queue_index`
    /// moves only when it sits on one of the two swapped positions.
    pub fn move_selected_up(&mut self) -> (r: bool)
        requires
            old(self)@.can_move_up() ==> old(self).queue_selected < old(self)@.queue.len()
                && old(self).queue_index != Some(usize::MAX),
        ensures
            r == old(self)@.can_move_up(),
            r ==> final(self)@ == old(self)@.moved_up(),
            !r ==> final(self)@ == old(self)@,
    {
        if self.queue_selected == 0 || self.queue.len() < 2 {
            return false;
        }
        let ghost o = self.queue@;
        swap_with_next(&mut self.queue, self.queue_selected - 1);
        assert(QueueModel::swapped(o, self.queue_selected - 1, self.queue_selected as int)
            =~= QueueModel::swapped(o, self.queue_selected as int, self.queue_selected - 1));
        if let Some(index) = self.queue_index {
            if index == self.queue_selected {
                self.queue_index = Some(index - 1);
            } else if index + 1 == self.queue_selected {
                self.queue_index = Some(index + 1);
            }
        }
        self.queue_selected = self.queue_selected - 1;
        true
    }

    /// Swaps the track under the cursor with the one below it.
    pub fn move_selected_down(&mut self) -> (r: bool)
        requires
            old(self).queue_selected < usize::MAX,
        ensures
            r == old(self)@.can_move_down(),
            r ==> final(self)@ == old(self)@.moved_down(),
            !r ==> final(self)@ == old(self)@,
    {
        if self.queue_selected + 1 >= self.queue.len() {
            return false;
        }
        swap_with_next(&mut self.queue, self.queue_selected);
        if let Some(index) = self.queue_index {
            if index == self.queue_selected {
                self.queue_index = Some(index + 1);
            } else if index == self.queue_selected + 1 {
                self.queue_index = Some(index - 1);
            }
        }
        self.queue_selected = self.queue_selected + 1;
        true
    }

    /// Appends `track` to the queue and remembers it; the duplicate check is
    /// the caller's.
    pub fn enqueue(&mut self, track: Track)
        ensures
            final(self)@ == old(self)@.enqueued(track),
    {
        self.remember_track(&track);
        self.queue.push_back(track);
    }

    /// Inserts `track` right after the playing track, or at the end when
    /// nothing plays, and returns where it went.
    pub fn insert_after_current(&mut self, track: Track) -> (r: usize)
        requires
            old(self).queue_index != Some(usize::MAX),
        ensures
            r == old(self)@.insert_position(),
            final(self)@ == old(self)@.inserted_after_current(track),
    {
        let insert_index = match self.queue_index {
            Some(index) => index + 1,
            None => self.queue.len(),
        };
        let insert_index = if insert_index < self.queue.len() { insert_index } else { self.queue.len() };
        self.remember_track(&track);
        self.queue.insert(insert_index, track);
        insert_index
    }
}

/// Moving a track up and then down again restores the queue, the cursor and
/// the playing index.
pub proof fn law_move_up_then_down(m: QueueModel)
    requires
        m.wf(),
        m.can_move_up(),
    ensures
        m.moved_up().wf(),
        m.moved_up().can_move_down(),
        m.moved_up().moved_down() == m,
{
    let u = m.moved_up();
    assert(u.moved_down().queue =~= m.queue);
}

/// Moving a track down and then up again restores the queue, the cursor and
/// the playing index.
pub proof fn law_move_down_then_up(m: QueueModel)
    requires
        m.wf(),
        m.can_move_down(),
    ensures
        m.moved_down().wf(),
        m.moved_down().can_move_up(),
        m.moved_down().moved_up() == m,
{
    let d = m.moved_down();
    assert(d.moved_up().queue =~= m.queue);
}

/// Moving a track keeps the queue well-formed, and the playing index keeps
/// pointing at the track that was playing; it changes only when it sits on
/// one of the two swapped positions.
pub proof fn law_moves_follow_playing_track(m: QueueModel)
    requires
        m.wf(),
    ensures
        m.can_move_up() ==> m.moved_up().wf() && (m.index matches Some(i) ==> (m.moved_up().index
            matches Some(j) && m.moved_up().queue[j] == m.queue[i])),
        m.can_move_down() ==> m.moved_down().wf() && (m.index matches Some(i) ==> (
        m.moved_down().index matches Some(j) && m.moved_down().queue[j] == m.queue[i])),
        m.can_move_up() && m.index is Some && m.index->0 != m.selected && m.index->0 != m.selected - 1
            ==> m.moved_up().index == m.index,
        m.can_move_down() && m.index is Some && m.index->0 != m.selected && m.index->0 != m.selected + 1
            ==> m.moved_down().index == m.index,
{
}

/// Removing the track under the cursor keeps the queue well-formed; when a
/// different track was playing, the playing index still points at it. The
/// remembered ids stay as they were.
pub proof fn law_remove_follows_playing_track(m: QueueModel)
    requires
        m.wf(),
        0 <= m.selected < m.queue.len(),
    ensures
        m.removed_selected().wf(),
        m.removed_selected().queue.len() == m.queue.len() - 1,
        m.removed_selected().ids == m.ids,
        m.index matches Some(i) ==> i != m.selected ==> (m.removed_selected().index matches Some(j)
            && m.removed_selected().queue[j] == m.queue[i]),
{
}

/// Removing the entry under the cursor takes exactly that entry out: the
/// entries before it stay where they were and those after it move up by one.
/// When the entry removed is the one playing, the playing index stays on its
/// slot, which now holds the track that followed it; when it was the last
/// entry, the index steps back to the new last one, and an emptied queue
/// plays nothing. The cursor stays on its slot, within the shorter queue.
pub proof fn law_remove_playing_keeps_slot(m: QueueModel)
    requires
        m.wf(),
        0 <= m.selected < m.queue.len(),
    ensures
        ({
            let r = m.removed_selected();
            let s = m.selected;
            let n = m.queue.len() - 1;
            &&& r.queue.len() == n
            &&& forall|k: int| 0 <= k < s ==> #[trigger] r.queue[k] == m.queue[k]
            &&& forall|k: int| s <= k < n ==> #[trigger] r.queue[k] == m.queue[k + 1]
            &&& m.index == Some(s) && s < n ==> r.index == Some(s) && r.queue[s] == m.queue[s + 1]
            &&& m.index == Some(s) && s == n && n > 0 ==> r.index == Some(n - 1)
            &&& n == 0 ==> r.index is None
            &&& (s < n ==> r.selected == s) && (s == n && n > 0 ==> r.selected == n - 1)
        }),
{
}

/// A track inserted after the current one lands right behind it: the
/// playing track stays where it was, and pointing the queue at the new track
/// keeps it well-formed.
pub proof fn law_insert_after_current(m: QueueModel, t: Track)
    requires
        m.wf(),
    ensures
        ({
            let k = m.insert_position();
            let n = m.inserted_after_current(t);
            &&& n.queue.len() == m.queue.len() + 1
            &&& n.queue[k] == t
            &&& (m.index matches Some(i) ==> k == i + 1 && n.queue[i] == m.queue[i])
            &&& QueueModel { index: Some(k), selected: k, ..n }.wf()
            &&& n.has_track(t.video_id@)
        }),
{
    let k = m.insert_position();
    let n = m.inserted_after_current(t);
    assert(n.queue[k] == t);
}

/// Once remembered or enqueued, a track counts as present anywhere, so it
/// is rejected as a duplicate.
pub proof fn law_remembered_tracks_are_known(m: QueueModel, t: Track)
    ensures
        m.remember(t).has_track(t.video_id@),
        m.enqueued(t).has_track(t.video_id@),
        m.enqueued(t).queue.last() == t,
{
}

/// After the queue is replaced, every track in it counts as present, and
/// the queue is well-formed, pointed at its first track.
pub proof fn law_replaced_tracks_are_known(m: QueueModel, tracks: Seq<Track>, i: int)
    requires
        0 <= i < tracks.len(),
    ensures
        m.replaced(tracks).has_track(tracks[i].video_id@),
        m.replaced(tracks).wf(),
        m.replaced(tracks).remaining() == tracks.len() - 1,
{
    assert(seq_has_id(tracks, tracks[i].video_id@));
}

/// The tracks after the playing one are exactly those past its index, and
/// enqueueing adds one more.
pub proof fn law_remaining(m: QueueModel, t: Track)
    requires
        m.wf(),
    ensures
        m.index matches Some(i) ==> m.remaining() == m.queue.len() - i - 1,
        m.index is None ==> m.remaining() == m.queue.len(),
        m.enqueued(t).remaining() == m.remaining() + 1,
{
}

/// Changing tracks leaves nothing playing and keeps the old track on the
/// `previous` stack, unless the new track has the same video id.
pub proof fn law_push_previous(m: QueueModel, new_track: Track)
    ensures
        m.push_previous(new_track).now_playing is None,
        m.push_previous(new_track).queue == m.queue,
        m.now_playing matches Some(c) ==> (c.video_id@ != new_track.video_id@ ==> m.push_previous(
            new_track,
        ).previous == m.previous.push(c)),
{
}

} // verus!
