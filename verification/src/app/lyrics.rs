//! The lyrics screen and the labels of the now-playing pane.

use vstd::prelude::*;
use crate::app::{App, QueueSource, Screen};
use crate::app::lyrics_state::{LoadedLyrics, LyricsState};
use crate::text::{decimal, decimal_pad2, decimal_string, decimal_pad2_string, push_char};
use crate::types::track::{Track, label_of};

verus! {

/// `m:ss` for a number of seconds.
pub open spec fn clock(secs: u64) -> Seq<char> {
    decimal((secs / 60) as nat) + seq![':'] + decimal_pad2((secs % 60) as nat)
}

fn clock_string(secs: u64) -> (r: String)
    ensures
        r@ == clock(secs),
{
    let mut r = decimal_string(secs / 60);
    push_char(&mut r, ':');
    r.append(decimal_pad2_string(secs % 60).as_str());
    r
}

impl App {
    /// The length shown for the track playing: what the player reports, or
    /// else the track's own length, or else 0.
    pub open spec fn shown_duration(self, player_duration: Option<u64>) -> u64 {
        match player_duration {
            Some(d) => d,
            None => match self.queue_state.now_playing {
                Some(t) => match t.duration {
                    Some(d) => d,
                    None => 0,
                },
                None => 0,
            },
        }
    }

    /// `position/length` as `m:ss/m:ss`. `position` and `player_duration`
    /// are the player's position and length in whole seconds, when it
    /// reports them; the length falls back to that of the track playing.
    pub fn player_position_label(&self, position: Option<u64>, player_duration: Option<u64>) -> (r: String)
        ensures
            r@ == clock(match position {
                Some(p) => p,
                None => 0,
            }) + seq!['/'] + clock(self.shown_duration(player_duration)),
    {
        let pos = match position {
            Some(p) => p,
            None => 0,
        };
        let dur = match player_duration {
            Some(d) => d,
            None => match &self.queue_state.now_playing {
                Some(t) => match t.duration {
                    Some(d) => d,
                    None => 0,
                },
                None => 0,
            },
        };
        let mut r = clock_string(pos);
        push_char(&mut r, '/');
        r.append(clock_string(dur).as_str());
        r
    }

    /// `auto` or `playlist`, after the source of the queue.
    pub fn queue_source_label(&self) -> (r: &'static str)
        ensures
            r@ == (match self.queue_state.queue_source {
                QueueSource::Auto => "auto"@,
                QueueSource::Playlist => "playlist"@,
            }),
    {
        match self.queue_state.queue_source {
            QueueSource::Auto => "auto",
            QueueSource::Playlist => "playlist",
        }
    }

    /// The synced lyric line sung at `position_ms`, the player's position
    /// in milliseconds: the last line of the lyrics held that has started by
    /// then. None when no lyrics are held, when they are not synced, or
    /// before their first line.
    pub fn active_lyrics_index(&self, position_ms: u64) -> (r: Option<usize>)
        ensures
            r == (match self.lyrics_state.lyrics {
                Some(l) => l.active_line_at(position_ms),
                None => None,
            }),
    {
        match &self.lyrics_state.lyrics {
            Some(l) => l.active_line(position_ms),
            None => None,
        }
    }

    /// The effect of `open_lyrics`.
    pub open spec fn lyrics_opened(pre: App, post: App, r: Option<Track>) -> bool {
        let ls = pre.lyrics_state;
        &&& post == (App { screen: Screen::Lyrics, lyrics_state: post.lyrics_state, status: post.status, ..pre })
        &&& match pre.queue_state.now_playing {
            None => {
                &&& r is None
                &&& post.lyrics_state == (LyricsState { lyrics_scroll: 0, ..ls })
                &&& post.status@ == "no track playing"@
            },
            Some(t) => if ls.loaded() == Some(t.video_id@) {
                &&& r is None
                &&& post.lyrics_state == (LyricsState { lyrics_scroll: 0, ..ls })
                &&& post.status@ == "lyrics already loaded"@
            } else if ls.loading() == Some(t.video_id@) {
                &&& r is None
                &&& post.lyrics_state == (LyricsState { lyrics_scroll: 0, ..ls })
                &&& post.status@ == "lyrics still loading"@
            } else {
                &&& r == Some(t)
                &&& post.lyrics_state.lyrics is None
                &&& post.lyrics_state.lyrics_scroll == 0
                &&& post.lyrics_state.loading() == Some(t.video_id@)
                &&& post.status@ == "loading lyrics: "@ + label_of(t.title@, t.artist@)
            },
        }
    }

    /// Shows the lyrics screen, scrolled to the top, and decides whether the
    /// lyrics of the track playing must be fetched: not when nothing plays,
    /// when the lyrics held are already its own, or when they are being
    /// fetched. When they must, the lyrics held are dropped, the track is
    /// marked as loading and returned; the caller starts the fetch.
    pub fn open_lyrics(&mut self) -> (r: Option<Track>)
        ensures
            App::lyrics_opened(*old(self), *final(self), r),
    {
        self.screen = Screen::Lyrics;
        self.lyrics_state.lyrics_scroll = 0;
        let track = match &self.queue_state.now_playing {
            Some(t) => t.clone(),
            None => {
                self.status = String::from_str("no track playing");
                return None;
            },
        };
        if let Some(l) = &self.lyrics_state.lyrics {
            if l.video_id == track.video_id {
                self.status = String::from_str("lyrics already loaded");
                return None;
            }
        }
        if self.lyrics_state.is_loading_for(track.video_id.as_str()) {
            self.status = String::from_str("lyrics still loading");
            return None;
        }
        self.lyrics_state.begin_loading(track.video_id.clone());
        let mut status = String::from_str("loading lyrics: ");
        status.append(track.label().as_str());
        self.status = status;
        Some(track)
    }
}

/// How a lyrics fetch ended.
#[derive(Debug, PartialEq, Eq)]
pub enum LyricsOutcome {
    /// These lyrics were found.
    Loaded(LoadedLyrics),
    /// No lyrics exist for the track.
    Missing,
    /// The fetch failed with this message.
    Failed(String),
    /// The task running the fetch failed with this message.
    TaskFailed(String),
}

/// The status message for a finished lyrics fetch.
pub open spec fn lyrics_status(o: LyricsOutcome) -> Seq<char> {
    match o {
        LyricsOutcome::Loaded(l) => if l.instrumental {
            "instrumental track from LRCLIB"@
        } else if l.synced {
            "synced lyrics loaded from cache/LRCLIB"@
        } else if l.source@ == "YoutubeFallback"@ {
            "plain lyrics loaded from YouTube fallback"@
        } else {
            "plain lyrics loaded"@
        },
        LyricsOutcome::Missing => "lyrics not available"@,
        LyricsOutcome::Failed(e) => "lyrics failed: "@ + e@,
        LyricsOutcome::TaskFailed(e) => "lyrics task failed: "@ + e@,
    }
}

impl App {
    /// Takes in the end of a lyrics fetch: nothing is loading any more, the
    /// lyrics found are held (none when the fetch found none or failed), and
    /// the status says how it ended.
    pub fn lyrics_arrived(&mut self, outcome: LyricsOutcome)
        ensures
            *final(self) == (App { lyrics_state: final(self).lyrics_state, status: final(self).status, ..*old(self) }),
            final(self).lyrics_state == (LyricsState {
                lyrics: match outcome {
                    LyricsOutcome::Loaded(l) => Some(l),
                    _ => None,
                },
                loading_for: None,
                ..old(self).lyrics_state
            }),
            final(self).status@ == lyrics_status(outcome),
    {
        self.lyrics_state.clear_loading();
        match outcome {
            LyricsOutcome::Loaded(l) => {
                self.status = if l.instrumental {
                    String::from_str("instrumental track from LRCLIB")
                } else if l.synced {
                    String::from_str("synced lyrics loaded from cache/LRCLIB")
                } else if l.source == String::from_str("YoutubeFallback") {
                    String::from_str("plain lyrics loaded from YouTube fallback")
                } else {
                    String::from_str("plain lyrics loaded")
                };
                self.lyrics_state.lyrics = Some(l);
            },
            LyricsOutcome::Missing => {
                self.lyrics_state.lyrics = None;
                self.status = String::from_str("lyrics not available");
            },
            LyricsOutcome::Failed(e) => {
                self.lyrics_state.lyrics = None;
                let mut s = String::from_str("lyrics failed: ");
                s.append(e.as_str());
                self.status = s;
            },
            LyricsOutcome::TaskFailed(e) => {
                self.lyrics_state.lyrics = None;
                let mut s = String::from_str("lyrics task failed: ");
                s.append(e.as_str());
                self.status = s;
            },
        }
    }
}

} // verus!
