//! A commit-reveal guessing game whose payout is gated by a zero-knowledge
//! proof, together with the single-key proof verification service it uses.
//!
//! The durable state of both services is held here as plain values; the
//! hashing primitives come from the Soroban host and are reached through the
//! small wrappers of [`host`].

pub mod encoding;
pub mod game;
pub mod host;
pub mod proof_service;
