//! Verified core of an automated-market-maker swap pipeline: quote
//! computation with slippage protection, transaction-plan assembly,
//! call-data encoding, the public broadcast-and-poll path, the private
//! bundle path, and the round orchestrator.

pub mod abi;
pub mod addr;
pub mod amounts;
pub mod backoff;
pub mod bundle;
pub mod orchestrate;
pub mod plan;
pub mod public_path;
pub mod signing;
