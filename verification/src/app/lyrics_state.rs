//! What the lyrics view holds: the lyrics fetched, the manual scroll offset
//! and the track whose lyrics are being fetched. The task that fetches them
//! is held by the caller.

use vstd::prelude::*;

verus! {

/// Fetched lyrics: the video id they belong to, where they came from (the
/// name of their source), the track and artist they were found for, whether
/// the track is marked instrumental, whether the lines are time-synced, the
/// start time in milliseconds of each synced line (in line order; empty for
/// plain lyrics), and the lines shown.
#[derive(Debug, PartialEq, Eq)]
pub struct LoadedLyrics {
    pub video_id: String,
    pub source: String,
    pub track_name: String,
    pub artist_name: String,
    pub instrumental: bool,
    pub synced: bool,
    pub line_times_ms: Vec<u64>,
    pub lines: Vec<String>,
}

/// `instrumental`, `synced` or `plain`, in that order of precedence.
pub open spec fn kind_label(l: LoadedLyrics) -> Seq<char> {
    if l.instrumental {
        "instrumental"@
    } else if l.synced {
        "synced"@
    } else {
        "plain"@
    }
}

/// `source: S | kind: K | track: T - A`, the line above the lyrics.
pub open spec fn header_of(l: LoadedLyrics) -> Seq<char> {
    "source: "@ + l.source@ + " | kind: "@ + kind_label(l) + " | track: "@ + l.track_name@ + " - "@
        + l.artist_name@
}

impl LoadedLyrics {
    /// The line shown above the lyrics: source, kind and track.
    pub fn header(&self) -> (r: String)
        ensures
            r@ == header_of(*self),
    {
        let mut r = String::from_str("source: ");
        r.append(self.source.as_str());
        r.append(" | kind: ");
        if self.instrumental {
            r.append("instrumental");
        } else if self.synced {
            r.append("synced");
        } else {
            r.append("plain");
        }
        r.append(" | track: ");
        r.append(self.track_name.as_str());
        r.append(" - ");
        r.append(self.artist_name.as_str());
        r
    }

    /// Line `i` is synced, has started by `position_ms`, and no later line
    /// has.
    pub open spec fn last_started(self, position_ms: u64, i: usize) -> bool {
        &&& self.synced
        &&& i < self.line_times_ms@.len()
        &&& self.line_times_ms@[i as int] <= position_ms
        &&& forall|j: int| i < j < self.line_times_ms@.len() ==> #[trigger] self.line_times_ms@[j] > position_ms
    }

    /// The synced line sung at `position_ms`, if any.
    pub open spec fn active_line_at(self, position_ms: u64) -> Option<usize> {
        if exists|i: usize| self.last_started(position_ms, i) {
            Some(choose|i: usize| self.last_started(position_ms, i))
        } else {
            None
        }
    }

    /// The synced line sung at `position_ms`: the last one that has started
    /// by then. None for lyrics that are not synced, or before the first
    /// line starts.
    pub fn active_line(&self, position_ms: u64) -> (r: Option<usize>)
        ensures
            r == self.active_line_at(position_ms),
            r is None <==> !(self.synced && exists|i: int|
                0 <= i < self.line_times_ms@.len() && #[trigger] self.line_times_ms@[i] <= position_ms),
            r matches Some(i) ==> self.last_started(position_ms, i),
    {
        if !self.synced {
            return None;
        }
        let mut k = self.line_times_ms.len();
        while k > 0
            invariant
                self.synced,
                k <= self.line_times_ms@.len(),
                forall|j: int| k <= j < self.line_times_ms@.len() ==> #[trigger] self.line_times_ms@[j] > position_ms,
            decreases k,
        {
            if self.line_times_ms[k - 1] <= position_ms {
                proof {
                    let i = (k - 1) as usize;
                    assert(self.last_started(position_ms, i));
                    let c = choose|c: usize| self.last_started(position_ms, c);
                    assert(c == i) by {
                        if c < i {
                            assert(self.line_times_ms@[i as int] > position_ms);
                        } else if c > i {
                            assert(self.line_times_ms@[c as int] > position_ms);
                        }
                    }
                }
                return Some(k - 1);
            }
            k = k - 1;
        }
        proof {
            assert forall|i: usize| !self.last_started(position_ms, i) by {
                if self.last_started(position_ms, i) {
                    assert(self.line_times_ms@[i as int] > position_ms);
                }
            }
        }
        None
    }
}

/// The lyrics held, the scroll offset, and the id of the track whose lyrics
/// are loading.
pub struct LyricsState {
    pub lyrics: Option<LoadedLyrics>,
    pub lyrics_scroll: usize,
    pub loading_for: Option<String>,
}

impl LyricsState {
    /// The video id whose lyrics are being fetched, if any.
    pub open spec fn loading(self) -> Option<Seq<char>> {
        match self.loading_for {
            Some(id) => Some(id@),
            None => None,
        }
    }

    /// The video id of the lyrics held, if any.
    pub open spec fn loaded(self) -> Option<Seq<char>> {
        match self.lyrics {
            Some(l) => Some(l.video_id@),
            None => None,
        }
    }

    /// The number of lyric lines held, 0 when none are.
    pub open spec fn line_count(self) -> int {
        match self.lyrics {
            Some(l) => l.lines@.len() as int,
            None => 0,
        }
    }

    /// Nothing held, nothing loading, scrolled to the top.
    pub open spec fn is_fresh(self) -> bool {
        self.lyrics is None && self.lyrics_scroll == 0 && self.loading_for is None
    }

    pub fn new() -> (r: Self)
        ensures
            r.is_fresh(),
    {
        LyricsState { lyrics: None, lyrics_scroll: 0, loading_for: None }
    }

    pub fn is_loading(&self) -> (r: bool)
        ensures
            r == self.loading() is Some,
    {
        self.loading_for.is_some()
    }

    /// True iff a fetch for `video_id` is already in flight.
    pub fn is_loading_for(&self, video_id: &str) -> (r: bool)
        ensures
            r == (self.loading() == Some(video_id@)),
    {
        match &self.loading_for {
            Some(id) => *id == String::from_str(video_id),
            None => false,
        }
    }

    /// Drops the lyrics held and marks `video_id` as loading. A fetch
    /// already running is not aborted here; the caller does that.
    pub fn begin_loading(&mut self, video_id: String)
        ensures
            final(self).lyrics is None,
            final(self).loading() == Some(video_id@),
            final(self).lyrics_scroll == old(self).lyrics_scroll,
    {
        self.lyrics = None;
        self.loading_for = Some(video_id);
    }

    /// Forgets that anything was loading; the lyrics held stay.
    pub fn clear_loading(&mut self)
        ensures
            *final(self) == (LyricsState { loading_for: None, ..*old(self) }),
    {
        self.loading_for = None;
    }

    /// Back to a freshly constructed state, for a new track: no lyrics,
    /// nothing loading, scrolled to the top. The caller aborts the task.
    pub fn reset_for_new_track(&mut self)
        ensures
            final(self).is_fresh(),
    {
        self.lyrics = None;
        self.lyrics_scroll = 0;
        self.loading_for = None;
    }
}

} // verus!
