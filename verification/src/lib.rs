//! Control plane of a Grin peer-to-peer node: configuration resolution,
//! deterministic wallet key derivation, a typed endpoint registry with
//! request dispatch, and the process lifecycle state machine.
pub mod amount;
pub mod chain;
pub mod config;
pub mod endpoints;
pub mod hexutil;
pub mod keys;
pub mod lifecycle;
