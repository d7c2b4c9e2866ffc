# mux_media

The decision logic of a command-line utility that groups media files by a
common file-name prefix and muxes each group into one Matroska file, written
as a Verus library with its contracts proved, and a thin command around it.

- `src/` — the verified library. Each module states its behaviour over
  mathematical models (`Seq`, `Set`, `Map`, association lists, views):
  language codes (`lang_table`, `lang`), numbers in file names
  (`media_number`), grouping of media files (`grouping`), font order
  (`fonts`), the first pass over the command line (`raw_config`), stream
  metadata settings (`metadata`), per-target settings (`mux_target`), track
  names, languages and signs detection (`track_info`), kept tracks
  (`saved_tracks`), caches (`cache`, `media_cache`, `mkvinfo`), logging
  (`logger`), errors (`error`), file extensions (`extensions`), skip
  patterns (`globs`), the settings and the arguments that save them
  (`mux_config`) and the saved JSON configuration (`json_args`).
  Calls into `regex`, `globset`, `serde_json` and `supports-color` stand
  behind small trusted wrappers whose contracts say what those crates
  document.
- `tests/` — tests on concrete values of every public function.
- `app/` — the `mux-media` command: command line, environment, file system
  walking and printing of the muxing plan.
