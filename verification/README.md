# relay

`relay <input> <output>...` reads messages from one input and forwards each
of them to every output.

Inputs: `stdin`, `https://host:port` (HTTPS posts), `ws://host:port`
(a WebSocket server to read from), anything else (a UDP address to bind).
Outputs: `stdout`, `http://host:port` (an HTTP stream), `ws://host:port`
(a WebSocket endpoint to serve), `ws-client://host:port` (a WebSocket server
to connect to), anything else (a UDP destination).

- `src/` is the verified library: option selection (`relay.rs`), inputs
  (`receiver.rs`), outputs and their deliveries (`broker.rs`), the per-peer
  WebSocket broadcast steps (`socket.rs`), the HTTP stream's poll step
  (`stream.rs`), address reading (`address.rs`) and text helpers (`text.rs`).
- `app/main.rs` opens the sockets, servers and streams and carries out the
  deliveries.
- `tests/` runs the library on concrete values.
