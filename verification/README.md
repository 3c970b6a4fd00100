# msc_player

The core of a terminal music player, verified with Verus.

- `src/library.rs`: which files of a folder are music (read with `lofty`),
  their duration and tags, and the numbered playlist of their titles.
- `src/editor.rs`: the one-line text field where the folder is typed, with a
  cursor counted in characters over UTF-8 text.
- `src/player.rs`: the player's state, its reaction to each key, the next and
  previous track, play/pause, loading a folder and a track, and the playback
  clock (read with `chrono`).
- `src/screen.rs`: the text of the panels: times, the progress line, the
  playlist, the track information and the status.
- `src/text.rs`: decimal numerals.
- `app/`: the terminal (`ratatui`, `crossterm`), the sound device (`rodio`),
  the files, and the volume, which is a floating-point value.
