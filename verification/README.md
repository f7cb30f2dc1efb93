# yoursfm

The logic of YoursFM, a procedurally generated radio station, as a library
verified with Verus, and the station program around it.

- `src/schedule.rs` plans the broadcast: song blocks, callouts, news and
  weather, shows. Its planner is proved to keep the schedule's shape (no
  report twice in a row, a last-song callout always followed by a next-song
  callout, every show introduced and closed), to take tracks from the backs of
  the pools, and to give every callout a context that matches what plays
  around it.
- `src/audio/` holds the cache queue, the language-model prompts, metadata
  requests and their cleanup, speech and download naming, and stream pacing.
- `src/spotify.rs` turns playlist pages into station tracks.
- `src/text.rs` trims, splits, prints and parses text as `std` does.
- `src/control.rs` holds the decisions of the station's main loop.
- `app/` is the program: configuration, database, HTTP clients, processes,
  files and the HTTP server, calling into the library.
