//! Off-chain operator core for a Tendermint light-client bridge.
//!
//! The operator keeps a destination-chain contract in sync with a source
//! chain's headers by requesting proofs ("step" for one block, "skip" for a
//! jump) from a proving network.  This crate holds the operator's decision
//! core — header-consistency checking, target-block selection, proof-request
//! building and the polling state machine — with contracts verified by Verus.
//! Transports (chain RPC, contract reads, proof-network submission) stay
//! outside and hand the core plain values.

pub mod builder;
pub mod bytes32;
pub mod checker;
pub mod codec;
pub mod hex;
pub mod operator;
pub mod selector;
