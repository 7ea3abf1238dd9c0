# socketeer

A WebSocket client that answers pings, sends keepalives, applies backpressure and reports why a
connection ended, with everything that it decides proved in Verus.

`src/` is the verified library. It does no I/O and never waits:

- `socket_loop` is the loop that owns a connection, as a state machine from events to actions;
  `loop_laws` proves what holds of every run of it: nothing is lost or reordered, every confirmed
  send that it takes is answered once, only data reaches the consumer, and a graceful close has no cause.
- `handle` is the other end of the loop's channels: what to queue and what to make of what came
  back.
- `client` sets up connections and is the handle to one; `split` is its two halves.
- `handler` is the handshake phase of a connection.
- `codec` turns values into messages and back; `message` and `error` are the types of both.
- `config` holds the connection options and builds the upgrade request; `headers` states what is
  relied on of `http` and `tungstenite` for that, and `outside` what is relied on otherwise.
- `mock_server` holds servers to test clients with, and `server_laws` what holds of them.

`app/` drives the library with tokio: sockets, channels, tasks and serde. `tests/` runs the library
with client and server connected by queues.
