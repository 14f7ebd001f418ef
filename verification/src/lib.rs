//! Decoding of on-chain instructions and program logs into typed trade events.
//!
//! A table of rules names, for each program, the discriminators of the
//! operations that are recognised and the decoder that reads each payload.
//! The engine finds the rule for an instruction or a log record, the fan-out
//! applies the engine to a whole transaction, and the batcher decides when the
//! collected events are handed on.

pub mod batch;
pub mod engine;
pub mod event;
pub mod fanout;
pub mod metadata;
pub mod protocols;
pub mod pubkey;
pub mod stream;
pub mod subscription;
pub mod text;
pub mod transaction;
pub mod wire;
