//! Decision engine of an x402 payment facilitator: the network registry, the
//! wire formats of addresses and transaction identifiers, signature checks,
//! and the rules that accept or reject a payment.

pub mod address;
pub mod amount;
pub mod base58;
pub mod chain;
pub mod eip712;
pub mod erc3009;
pub mod error;
pub mod facilitator;
pub mod hex;
pub mod laws;
pub mod network;
pub mod payment;
pub mod provider_cache;
pub mod rate_limit;
pub mod settlement;
pub mod transaction;
