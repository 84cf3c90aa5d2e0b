# ytmusic_cli

The state and decisions of a terminal YouTube Music player, verified with
Verus.

- `src/types/` — tracks and playlists, and how a track is shown (`m:ss`
  lengths, labels, addresses).
- `src/app/queue_state.rs` — the play queue with its cursor, playing index,
  remembered ids and previous-track stack, modelled as `QueueModel`; the laws
  at the end of the file state what moving, removing, inserting and
  remembering keep.
- `src/app/library_state.rs`, `src/app/library.rs` — history, favorites and
  playlists, and the edits made on them from the interface.
- `src/app/input.rs` — cursors, the selection, and the effect of every key.
- `src/app/playback.rs` — the decisions of searching, playing and topping up
  the queue; the caller performs the network and player work in between.
- `src/app/flow.rs` — the playback flows (Enter, next, previous, end of a
  track) as a state machine: each step decides and asks for one piece of
  outside work.
- `src/app/lyrics.rs`, `src/app/lyrics_state.rs` — the lyrics screen and the
  lyrics held.
- `src/tui.rs` — the text of the screen.
- `src/text.rs` — decimal rendering, trimming and the string operations used.

`app/` holds the terminal program around the library: the YouTube Music
client, key events, drawing with ratatui, and the event loop that performs
the outside work the library asks for.
