//! Taiko RPC rules: engine payload validation, `trace_debankBlock` replay control and
//! Geth-compatible opcode errors, stated as contracts and proved.
//!
//! Nothing in this crate performs I/O. What a node reads from disk, from its peers or from the
//! EVM comes in as plain values; what it has to do next goes out as plain values.
pub mod block;
pub mod chain;
pub mod commitments;
pub mod engine;
pub mod error;
pub mod evm;
pub mod fixed;
pub mod geth_error;
pub mod text;
pub mod trace;
pub mod transport;
