# infinitum

The infinitum inference engine's logic, stated and proved with Verus.

## Layout

- `src/round` — the speculative round: fragments, the graph builder and its
  rules, the DFlash2 components, the planning contract and the round preview.
- `src/ninfer` — planning the round on ninfer, the Engine's options, and the
  decisions of its chat and session bridges.
- `src/chat` — the chat contract: requests, outcomes, runtime counters and
  startup events.
- `src/serve` — the chat surface: request parsing and refusal rules, the
  prompt-cache policy, response and stream rendering, the operational log's
  lines, and the server's key check and answers.
- `src/facade.rs` — the C facade's status words, messages and sizing protocol.
- `src/driver` — the driver's arguments and its planning gate.
- `src/changelog.rs` — the squash-aware changelog decisions.
- `app/` — the `infinitum` binary: argument parsing, the HTTP server, the
  facade's foreign calls, process I/O and the floating-point figures.
- `tests/` — tests of the library on concrete values.
