# uog

UDP over gRPC. A client listens on a local UDP port and carries each datagram
over a gRPC stream to a server, which checks the request's secret and relays the
payload to a UDP destination; answers come back the same way.

## Layout

- `src/` — the verified library (Verus): the decisions of client and server.
  - `split.rs` — splitting a comma-separated list, with its round-trip law.
  - `endpoints.rs` — the server and secret lists, and which pair each attempt uses.
  - `restart.rs` — the restart window that throttles bursts of reconnects.
  - `supervisor.rs` — the reconnect loop's state: next target, restart decision.
  - `session.rs` — one client session's receive loop and its relay task.
  - `connect.rs` — parsing the server endpoint and choosing how to connect.
  - `server.rs` — the server's key check and its relay of answers.
  - `message.rs`, `peer.rs` — the messages and peer addresses the logic reads.
- `app/` — the program around it: sockets, gRPC transport, TLS, the async loops
  and the command line.
- `tests/` — tests of the library on concrete values.
