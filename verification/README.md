# wamp

A client for the Web Application Messaging Protocol (WAMP): it opens a session
with a router over a WebSocket, subscribes to topics, publishes to them, and
shuts the session down.

- `src/` is the library, verified with Verus. It holds the state of a session
  and decides: which frame to send, which payload to decode, whom to call, which
  promise to keep. It does no input or output.
  - `address` says which addresses are certain to be parsed,
  - `connection` opens sessions and reads the router's messages,
  - `client` holds the session and what the client does with it,
  - `transport` frames messages for the WebSocket,
  - `messages`, `error` and `decimal` hold the data,
  - `outside` lists what is taken on trust from other crates,
  - `laws` states and proves what holds of a session as a whole, and `runs` what
    holds of the reading of its messages from beginning to end.
- `app/` is the client that a program uses: the library with the sockets, the
  threads and the encodings around it.
- `tests/` runs the library.
