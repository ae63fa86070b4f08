# hirai

Hirai watches folders and broadcasts their changes as JSON datagrams over UDP
multicast, or listens for such datagrams; either side can serve a small web UI
that shows the events live over a WebSocket.

## Layout

- `src/` — the verified library (Verus):
  - `config.rs`: the command-line, file and final configuration types, how the
    layers that were read (defaults, file, environment) are laid over each
    other, and how the command line is applied last.
  - `event.rs`: the `Event` type and its compact JSON form (the string literals
    come from `serde_json`; their escaping is stated in the contract).
  - `network.rs`: which addresses the listener accepts and joins, and each step
    of the broadcaster and listener loops.
  - `watcher.rs`: which folders are watched and which event a change becomes.
  - `web.rs`: the web hub's and each WebSocket connection's decisions.
  - `supervisor.rs`: which tasks run for a configuration and where the
    watcher's events go.
- `app/` — the program around the library: argument parsing (clap),
  configuration files and environment (figment), the notify watcher thread,
  tokio sockets and channels, and the axum web server.
- `tests/` — tests of the library.
