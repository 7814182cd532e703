# FogWS

A WebSocket client for Python's asyncio, driven by a reading and a writing task
on one shared tokio runtime.

- `src/` is the verified core: the limits of a connection, the check of its URI,
  the state and the signal that its tasks share, what each task does next, and
  what a Python caller is shown. The reading task, the writing task, the transfer
  of a received message and a caller of `close` are state machines, each a
  function from a phase and an event to the next phase and an action.
- `src/channel.rs`, `parse_request_target` in `src/client.rs` and
  `configure_websocket` in `src/config.rs` hold the calls into tokio, tungstenite
  and std's atomic flags. Their contracts are trusted.
- `app/` is the extension module: it performs the actions on sockets, timers and
  the Python interpreter, and hands the events back.
- `tests/` runs the core on concrete values.

What the tasks of a connection find in the values they share depends on how they
interleave. Every act on such a value is therefore entered in a journal
(`src/journal.rs`), a ghost that costs nothing at run time, with what the act
found; the contracts say exactly which acts a function adds. `src/world.rs` says
what acts make of a connection and follows single operations through it; those laws
take the acts of one operation without others in between. `src/delivery.rs` follows
a message from the socket to a receive and from a send to its answer. The laws in
`src/state.rs` and `src/shutdown.rs`, and in `src/world.rs` the one that no signal
outruns the state, hold of every sequence of steps, also where the acts of several
tasks fall between each other.
