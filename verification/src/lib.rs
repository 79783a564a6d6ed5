//! Client-side orchestration for a commit-reveal governance protocol.
//!
//! The library contains the verified core of a long-running agent that
//! watches a smart contract for governance-request events and, depending
//! on its configured role, drives each request through the protocol's
//! commit-reveal phases: stage interpretation, the polling state machine,
//! nonce sequencing for a shared signing identity, transaction and query
//! construction, and log extraction from execution outcomes.

pub mod args;
pub mod cli;
pub mod constants;
pub mod event;
pub mod nonce;
pub mod orchestrator;
pub mod outcome;
pub mod processors;
pub mod stage;
pub mod tx;
