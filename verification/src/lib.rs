//! A fixed-membership, weighted multisig governance engine.
//!
//! A group of known voters, each with a static weight, jointly authorizes
//! execution of batches of opaque downstream actions. A proposal bundles one
//! or more actions; voters cast weighted ballots; once a configured threshold
//! of support is reached within a bounded voting window, any caller may
//! trigger execution, which hands the bundled actions to an external
//! dispatcher exactly once.
//!
//! The engine itself is pure state-machine logic: identity, storage, and the
//! action-execution substrate are external collaborators. Every public
//! operation carries a contract that pins down its result and its effect on
//! the engine's state; the crate's laws (see [`laws`]) state the governance
//! guarantees — at-most-once execution, threshold soundness, re-vote
//! overwrite, and the fate of expired proposals — as proved theorems.
#![verifier::loop_isolation(false)]

pub mod error;
pub mod expiration;
pub mod threshold;
pub mod proposal;
pub mod engine;
pub mod laws;
