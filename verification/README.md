# web_transport

WebTransport sessions and streams as state machines, verified with Verus.

WebTransport is layered on HTTP/3, which is layered on QUIC. The library decides and performs no
I/O: each machine takes an event, updates its state, and says which call to make next on the QUIC
connection. What it promises is stated in contracts and proved.

## Layout

- `src/ez/`: QUIC connections and streams. `send.rs` and `recv.rs` are the two sides of a stream,
  `driver.rs` serves all streams of a connection, `connection.rs`, `opening.rs` and
  `wakeup.rs` hold what they share. `delivery.rs` and `schedule.rs` state what holds over whole
  runs: bytes leave and arrive in order, the end comes after the last of them, nothing is sent on a
  connection that is draining.
- `src/`: WebTransport on top of it. `proto.rs` is the wire format, `state.rs`, `session.rs` and
  `driver.rs` are a session (the first is what the other two and the streams share), `send.rs` and
  `recv.rs` its streams, `connect.rs` the CONNECT request, `client.rs` and `server.rs` the builders.
- `src/tauri/`: the sessions and streams of a desktop plugin, behind numbers.
- `src/wasm/`, `src/quinn.rs`: what the browser and Quinn add.
- `src/buffer.rs`, `src/text.rs`, `src/task.rs`, `src/address.rs`, and the encoders in
  `src/proto.rs`: what is used of other crates, with the contracts that are assumed of it.
- `tests/`: tests of the library.
- `app/`: sockets, tasks and locks around the library.
