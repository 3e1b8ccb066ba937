//! A harness that prepares a trained model and a data set for a proving run
//! inside a zero-knowledge virtual machine and reads the prediction back.
//!
//! The run goes through five stages: the model type is resolved to its
//! registry entry, the payloads are decoded, the guest's input is built, the
//! prover runs, and the journal is decoded into the prediction. Every stage
//! that computes is a verified function here; the prover itself is an outside
//! service whose outcome the caller hands to [`pipeline::conclude`].

pub mod dataset;
pub mod environment;
pub mod error;
pub mod journal;
pub mod payload;
pub mod pipeline;
pub mod registry;
pub mod words;
