//! A worker library for producing zero-knowledge succinct proofs that a
//! Poseidon-hash circuit instance was evaluated correctly.
//!
//! The pipeline takes one proving task at a time: it decodes the task's
//! circuit payload, validates that the declared public input reduces into
//! the scalar field, derives keys, runs the proving protocol, self-verifies
//! the transcript, and encodes the proof bytes into a transport-safe
//! response envelope. Failures at any stage are carried as diagnostics in
//! the response, never as a crash.

pub mod decimal;
pub mod envelope;
pub mod errors;
pub mod field;
pub mod payload;
pub mod pipeline;
pub mod proof_type;
pub mod stage;

pub use envelope::ProofDetail;
pub use envelope::Task;
pub use errors::Error;
pub use proof_type::ProofType;
