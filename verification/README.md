# spotatui (verified core)

The decision-making core of the spotatui terminal music client, written in
Verus: every function in `src/` carries a contract that Verus proves.

Layout:

- `src/domain/` — the application state (navigation stack, outboxes for
  network requests and runtime operations), the user configuration and its
  color syntax, pagination, and the plugin-facing data model with the
  snapshot readers.
- `src/infra/scripting/` — the plugin API's argument rules (each Lua
  function's checks and the effect it queues), how queued effects change the
  app, the playback/engine event differ, and the plugin key/value store
  (values as JSON text, keys kept in `str` order).
- `src/infra/network/` — storing finished searches, and the listening-party
  protocol (messages, reader decisions, relay URL).
- `src/infra/youtube/` — YouTube URIs, video-id validation, the `yt-dlp`
  argument lists and failure messages, and search rows as tracks.
- `src/tui/` — key events, the screen key handlers, and what the plugin and
  stats screens show.
- `app/` — the program around the library: the Lua host (mlua), the `yt-dlp`
  process, the relay WebSocket, the clock and the terminal drawing.
- `tests/` — tests of the library through its public API.

Work that leaves the process is never done in `src/`: handlers and effects
record it in `App::dispatched` (network) and `App::requests` (runtime), in
order, and the runtime drains both.
