# taiko_rpc

Rules of Taiko's RPC extensions, written in Verus and proved.

- `src/engine`: execution payloads become sealed and recovered blocks, and Engine API messages are
  checked for the fork fields of their version.
- `src/trace`: `trace_debankBlock`. A request and the replay of a block are sequences of decisions:
  each says what has to be done next and is told what came of it. Stored commitments, the
  `BLOCKHASH` window, formatted events and Genesis are checked here, and block-file transactions are
  built here. `src/trace/runs.rs` states what holds of whole replays, and
  `src/trace/outputs.rs` what an answer says of the replay behind it. `src/trace/holdings.rs` says
  what is held in which stage.
- `src/geth_error.rs`: Geth's opcode errors, captured beside a tracing inspector.
- `src/transport.rs`: registration of the endpoint on HTTP alone.
- `src/commitments.rs`, `src/evm.rs`, `src/trace/config.rs` and `src/transport.rs` hold every call
  into an outside crate, each behind a contract that is believed rather than proved.
- `tests/` runs the library with the outside crates linked.
- `app/` is ordinary Rust around the library: the endpoint, the replay worker and the EVM inspector.
  A node plugs in through the two traits in `app/node.rs`.
