# jarvis_ui

The verified core of the JARVIS desktop client (a Tauri shell and a Qt
desktop widget that talk to the JARVIS daemon), written in Verus.

- `src/` is the library. Everything in it is verified except the seven
  wrappers in `json.rs` around `serde_json` (and `format!`), whose
  contracts only name their results (seven uninterpreted spec functions):
  - `protocol`: the daemon's line protocol — the JSON line for each command,
    and the event for each line received (JSON access goes through
    `serde_json`, in `json`).
  - `session`: the connection thread's decisions (reading, forwarding,
    writing, ending a session, reconnecting).
  - `ui`: the shell's state machine over daemon events (tray tooltip,
    frontend events, the one-time wake chime bootstrap), and the smaller
    decisions of the shell (listening toggle, tray, main window).
  - `paths`: the data directory and socket paths per platform and
    environment, and port files.
  - `control`: the desktop widget's control channel.
  - `widgets`: widget discovery over directory listings.
  - `text`: trimming, comparison and ordering of strings.
- `app/` holds the threads, sockets, files, the Tauri and Qt code, and the
  serde forms of the widget descriptor.
- `tests/` runs the library on concrete values.
