# psup

A process supervisor whose decision logic is verified with Verus.

- `src/` — the verified library: task definitions (`task`), environment
  variable sets (`vars`), worker identifiers (`ident`), the environment a
  worker is started with (`launch`), the restart policy (`restart`), the
  table of running workers and what happens when one dies (`state`), the
  supervisor builder and control messages (`supervisor`), the worker start
  decision (`worker`) and line framing of messages (`protocol`).
- `app/` — the asynchronous runtime around it (tokio processes, Unix
  sockets, the JSON-RPC line server) and the `psup` binary that reads a
  TOML configuration.
- `tests/` — tests of the library on concrete values.
