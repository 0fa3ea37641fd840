# msquic_async

Asynchronous QUIC on top of MsQuic, with its logic proved in Verus.

MsQuic reports what happens to connections, streams and listeners through callbacks; the
application polls futures. What stands between the two is a set of state machines: which answer a
poll gets in which state, which waiting tasks an event wakes, which data is acknowledged, and which
native call is due. Those state machines are the library, and each of their functions states and
proves what it does.

- `src/` is the library. A function that takes an event returns the wakers to wake; a function that
  decides on a native call returns what to call. No function of it blocks, panics or does I/O.
  - `stream`, `connection`, `listener`, `registration`: the state machines.
  - `buffer`: received and sent data.
  - `http3`: what an HTTP/3 stack is told of these connections and streams.
  - `keylog`: the lines of an SSL key log.
  - `minimal`: the small interface, without datagrams and events.
  - `status`, `sync`: MsQuic's status values, and lists of waiting tasks.
- `tests/` runs the library.
- `app/` holds the handles, callbacks, locks, futures and the `tokio`, `futures-io`, `h3` and
  `h3-datagram` traits.
