//! `trace_debankBlock`: the rules by which one canonical block is replayed and its payload is
//! checked before it is returned.
pub mod canonical;
pub mod config;
pub mod consensus;
pub mod events;
pub mod execution;
pub mod genesis;
pub mod handler;
pub mod holdings;
pub mod order;
pub mod outputs;
pub mod probe;
pub mod replay;
pub mod replay_model;
pub mod replay_state;
pub mod runs;
pub mod tracer;
pub mod transactions;
