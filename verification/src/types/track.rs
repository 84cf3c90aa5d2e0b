//! A playable track and its display helpers.

use vstd::prelude::*;
use crate::text::{decimal, decimal_pad2, decimal_string, decimal_pad2_string, push_char};

verus! {

/// A song as the player knows it.
#[derive(Debug, PartialEq, Eq)]
pub struct Track {
    pub video_id: String,
    pub title: String,
    pub artist: String,
    /// Length in whole seconds, when known.
    pub duration: Option<u64>,
    pub thumbnail_url: Option<String>,
    /// Where the audio is cached on disk, when it is.
    pub cached_path: Option<String>,
}

fn clone_opt_string(s: &Option<String>) -> (r: Option<String>)
    ensures
        r == *s,
{
    match s {
        Some(v) => Some(v.clone()),
        None => None,
    }
}

impl Clone for Track {
    fn clone(&self) -> (r: Self)
        ensures
            r == *self,
    {
        Track {
            video_id: self.video_id.clone(),
            title: self.title.clone(),
            artist: self.artist.clone(),
            duration: self.duration,
            thumbnail_url: clone_opt_string(&self.thumbnail_url),
            cached_path: clone_opt_string(&self.cached_path),
        }
    }
}

/// The address of a track on YouTube Music.
pub open spec fn url_of(video_id: Seq<char>) -> Seq<char> {
    "https://music.youtube.com/watch?v="@ + video_id
}

/// `title - artist`.
pub open spec fn label_of(title: Seq<char>, artist: Seq<char>) -> Seq<char> {
    title + " - "@ + artist
}

/// `m:ss` for a known length, `--:--` otherwise.
pub open spec fn duration_text(duration: Option<u64>) -> Seq<char> {
    match duration {
        None => "--:--"@,
        Some(total) => decimal((total / 60) as nat) + seq![':'] + decimal_pad2((total % 60) as nat),
    }
}

impl Track {
    /// Builds a track from the fields of a search result or an up-next
    /// entry: the thumbnail is the last (largest) one offered, and nothing is
    /// cached yet.
    pub fn from_parts(
        video_id: String,
        title: String,
        artist: String,
        duration: Option<u64>,
        thumbnail_urls: Vec<String>,
    ) -> (t: Track)
        ensures
            t.video_id == video_id,
            t.title == title,
            t.artist == artist,
            t.duration == duration,
            t.thumbnail_url == (if thumbnail_urls@.len() == 0 {
                None
            } else {
                Some(thumbnail_urls@.last())
            }),
            t.cached_path is None,
    {
        let thumbnail_url = if thumbnail_urls.len() == 0 {
            None
        } else {
            Some(thumbnail_urls[thumbnail_urls.len() - 1].clone())
        };
        Track { video_id, title, artist, duration, thumbnail_url, cached_path: None }
    }

    pub fn url(&self) -> (r: String)
        ensures
            r@ == url_of(self.video_id@),
    {
        let mut r = String::from_str("https://music.youtube.com/watch?v=");
        r.append(self.video_id.as_str());
        r
    }

    pub fn label(&self) -> (r: String)
        ensures
            r@ == label_of(self.title@, self.artist@),
    {
        let mut r = self.title.clone();
        r.append(" - ");
        r.append(self.artist.as_str());
        r
    }
}

/// Renders a length in seconds as `m:ss`, or `--:--` when it is unknown.
pub fn format_duration(duration: Option<u64>) -> (r: String)
    ensures
        r@ == duration_text(duration),
{
    match duration {
        None => String::from_str("--:--"),
        Some(total) => {
            let mut r = decimal_string(total / 60);
            push_char(&mut r, ':');
            r.append(decimal_pad2_string(total % 60).as_str());
            r
        },
    }
}

} // verus!
