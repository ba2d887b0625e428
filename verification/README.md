# utp

Verified decision logic of a uTP (Micro Transport Protocol) socket library.

- `src/error.rs`: the socket and packet-parse error types, their texts and the I/O error
  kind under which each reaches I/O callers.
- `src/pending.rs`: the slots in which a stream keeps its read, write, flush and shutdown
  operations between polls, and how each poll moves them.
- `src/stream.rs`: how much one read asks for and what it hands to the caller's buffer.
- `src/listener.rs`: the choices made while accepting a connection (which datagrams open one, address of
  the connection's socket, handshake reply) and the iterator over incoming connections.
- `app/`: the standard error traits on copies of the error types, and the listener's UDP
  socket, on tokio. It holds no uTP socket, so neither the accept loop, the iterator over
  incoming connections nor the stream type stands there: the steps above are what they
  decide.

Run Verus on `src/` to check the contracts; `tests/` exercises them on concrete values.
