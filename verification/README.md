# single_instance_app

Single-instance enforcement with several IPC transports (Unix domain
sockets, shared memory, files, in-memory channels).

- `src/` is the verified library. It holds the decisions: configuration and
  its defaults, protocol selection, messages and their identifiers, the
  shared-memory frame layout, PID text, file and endpoint names, the state
  of the file-based and shared-memory clients, request/response correlation,
  what servers answer and whether a handshake was answered, the timing of
  waits and write retries, and the two state machines that decide whether a
  process becomes the primary instance (`single_instance.rs`) and which
  stale files it may remove (`cleanup.rs`).
- `app/` is the program around it: the asynchronous transports (Tokio,
  memory maps, sockets, files), the serde wire format, and the loops that
  carry out the actions the state machines return.
- `tests/` holds the unit and scenario tests.
