# rustmusic

The logic of a desktop music player, verified with Verus.

- `src/theme.rs`: the five colour themes, their names (and how a stored name is
  read back), dark mode, and the palette of every theme.
- `src/playlist.rs`: songs and the playlist cursor: adding files, taking songs
  out, next (with shuffle and repeat), previous, play-at, clear, total length.
- `src/audio.rs`: the playback worker as a state machine from events (a look at
  the sink, a command, the outcome of opening a file) to the next state and the
  actions to carry out on the audio device.
- `src/control.rs`: the player's decisions: play/pause, reports from the worker,
  auto-advance after a song, the search filter, and status-line texts.
- `src/text.rs`: text equality and search, truncation with an ellipsis, and
  clock-style durations.
- `src/paths.rs`: the calls into `std::path` and `str::to_lowercase`.

`app/` is the program around the library: the egui window, the audio thread
with rodio, file dialogs, the folder walk and the preferences file.
