# toy_rpc

An RPC library in the style of golang's `net/rpc`, written in Verus.

- `src/` is the verified library: the frame format of the byte-stream
  transport, the message protocol, the cancellation token, the error
  messages exchanged between peers, the registries of services and methods,
  and the decisions that the client and the server take on every event
  (brokers, readers, writers, publish/subscribe bookkeeping, calls and their
  cancellation, request timeouts). Each public function states what it
  returns or changes, and the properties that span several functions are
  stated and proved as public proof functions next to them.
- `app/` is ordinary Rust around the library: serde encoding of headers and
  bodies (bincode), reading and writing frames and WebSocket messages
  (tokio, tungstenite), and the async loops of the client and the server that
  feed events to the library and carry out what it decides.
- `tests/` runs the library on concrete values.
