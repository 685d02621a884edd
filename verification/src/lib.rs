//! Administrative and accounting core of a cross-chain gas station.
//!
//! The crate keeps the configuration of supported foreign chains, the
//! paymaster pools and their round-robin cursors, the two admission
//! whitelists, the fee ledger, the index of pending transaction sequences and
//! the cached public key of the remote signer. Every operation is stated as a
//! contract over the mathematical view of the state.

pub mod account;
pub mod address;
pub mod asset;
pub mod chain;
pub mod context;
pub mod contract;
pub mod error;
pub mod idmap;
pub mod laws;
pub mod ledger;
pub mod member;
pub mod oracle;
pub mod paymaster;
pub mod sequence;
pub mod signer;
pub mod transaction;
pub mod uint;
pub mod whitelist;
