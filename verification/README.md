# api

The HTTP and WebSocket service of a chat application (guilds, channels,
categories, members, direct messages, voice rooms), split in two:

- `src/` — the library, verified with Verus: error codes and response
  envelopes, message buckets, permission computation and checks, key and topic
  naming, session tokens, password hashing, presence lookups, cache filling,
  the voice-room registry, and for each request the decision it leads to (which
  rows to write, which error to answer, which events to publish). Calls into
  `uuid`, `chrono` and `argon2` stand behind small trusted wrappers whose
  contracts state what those crates document.
- `app/` — the running service: `main`, configuration, the Postgres, Scylla and
  Redis connections, the axum routes and handlers, and the WebRTC media
  forwarding. It reads and writes what the library decides.
- `tests/` — tests of the library on concrete values.
