# github_copilot

A client library for the Copilot CLI server, verified with Verus.

## Layout

- `src/` — the verified library. Every function states what it computes in
  its `requires` / `ensures`, and Verus proves it.
  - `json.rs` — the JSON value model (`JsonValue` and its view `Json`).
  - `text.rs` — character-level helpers: trimming, prefixes, decimal numbers.
  - `jsonrpc.rs` — `Content-Length` framing, the reading of incoming
    messages (response, request, notification), request ids and replies.
  - `client.rs` — CLI URLs, the command that starts the server, the
    parameters of `ping`, `session.create` and `session.resume`, the protocol
    version check, and `ClientCore`, the client's connection state machine.
  - `session.rs` — `Registry` (named handlers), `HandlerList` (event
    subscriptions), session requests, and the answers to the server's tool
    calls and permission requests.
  - `types.rs`, `error.rs`, `session_events.rs`, `tools.rs` — the data types,
    their JSON forms and the texts of errors.
- `app/` — the asynchronous client around the library: the server process,
  pipes and sockets, the Tokio tasks, and JSON text through `serde_json`.
  The decisions it acts on (what to send, how to read a message, what to
  answer, when to start, stop or restart) are made by library functions.
- `tests/` — tests of the library on concrete values.

## Laws

Besides the contracts of the functions, the library proves public lemmas
about how its parts fit together, among them: a frame reads back as the
body it carries; a reply the client writes reads back as a response with
the same id and result or error; a request or notification in the form the
client writes reaches its handler; a registry gives back what was inserted
and forgets what was removed; each subscription handle unsubscribes exactly
its own handler; a registered tool's name leads to its handler, the last of
that name winning; resuming without options sends only the session id;
members built from maps keep their keys distinct; every event kind's wire
name reads back as that kind. `ClientState` states what `stop` and
`force_stop` leave (no session, no connection, disconnected) and which
errors `stop` reports.
