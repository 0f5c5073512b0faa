# wayle

The logic of the Wayle desktop-shell services, written in Verus and verified:

- `hyprland` — the event socket protocol (`EVENT>>DATA` lines, the table of handlers,
  the handlers for fullscreen, layout, submap, screencast, group-lock, bell and layer
  events), the socket path, which discovered objects the service keeps at start-up,
  and the plain data types of the service.
- `systray` — the StatusNotifierWatcher registry (items and hosts, no duplicates) and
  the `com.wayle.SystemTray1` listing.
- `wallpaper` — color extractors (wallust, matugen, pywal) as step functions from
  "what happened so far" to "what to do next", tool failure reporting, the wallust
  configuration text, the cycling timer, and the service's error type.
- `weather` — Open-Meteo timestamps (through chrono) and the index of the current hour.
- `notification` — the service builder, the id counter that continues after restored
  notifications, capabilities and server information.
- `network` — which device carries NetworkManager's primary connection, and removal.
- `media`, `cava`, `audio` — the media builder, libcava's status codes, error types.
- `text` — character-level string helpers (`split_once`, `trim`, equality) with specs.

`app/` holds the I/O around it: the event-socket reader, running the extraction tools
and writing their files, waiting on the timer, and serde/thiserror forms of the types.
