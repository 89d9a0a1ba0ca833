# copilot-sdk

A Rust SDK core for talking to the GitHub Copilot CLI over JSON-RPC, written
in Verus: the parts that decide and compute are proved against their
contracts.

## Layout

- `src/` — the verified library.
  - `frame.rs`: the `Content-Length` framing grammar as spec functions, the
    header classifier and the frame encoder, with the laws that a frame
    parses back to its body and that a decided parse does not change when
    more bytes arrive.
  - `transport.rs`: the `Transport` trait (with an optional stream model),
    `MessageFramer`, `MessageReader`, `MessageWriter` and `MemoryTransport`;
    reading a message is specified by `read_outcome` over the bytes fetched.
  - `events.rs`: the session event payloads without floats or raw JSON, the
    event kinds and how a type string selects one.
  - `session.rs`: the decisions of a session (tool, command and hook
    dispatch, permission and user-input defaults, event handler ids, waiting
    for idle, collecting a reply).
  - `table.rs`: `KeyedTable`, an insertion-ordered map viewed as a `Map`.
  - `debug_log.rs`, `error.rs`, `text.rs`, `types.rs`: log line text, errors,
    standard-library string specifications, shared enums.
- `tests/` — runtime tests of the library.
- `app/` — the asynchronous session, the serde forms of events and requests,
  the stdio transport of a child process and the debug log file, built on
  the library.
