# ws_chat

A real-time terminal chat over WebSockets. The server (axum, tokio) takes each
connection through a handshake (username, confirmation, room selection) and then
relays chat messages within rooms; the client (ratatui) is a terminal UI that
reconnects with exponential backoff.

The library in `src/` is verified with Verus:

- `text` — control and whitespace classes, trimming, lower-casing, UTF-8 lengths,
  decimal rendering and joining.
- `protocol` — the wire messages, the outcome of receiving a frame, the limits.
- `validation` — the rules for usernames, room names and chat messages.
- `server` — the per-connection session as a state machine: from a phase and an
  event to the next phase and the actions to perform.
- `shared` — the state all connections share (reserved usernames, rooms and their
  broadcast channels) and how a session's actions are performed on it.
- `theme`, `app`, `events`, `run`, `ui` — the client's state, key handling,
  connection lifecycle and backoff, and screen bookkeeping.

`app/` holds the programs: `server` and `client` roles of one binary, doing the
socket, terminal and shared-state work that the library's decisions call for.
