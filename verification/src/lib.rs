//! Verified core of the Meridian insurance contract suite: input validation,
//! the shared circuit breaker, ABI versioning, proof-payload gates, state
//! roots and the plain-state models of the escrow, risk-pool, policy and
//! governance contracts.

pub mod validation;
pub mod circuit_breaker;
pub mod breaker_store;
pub mod bridge_validation;
pub mod zk;
pub mod abi;
pub mod invariants;
pub mod batch;
pub mod state_root;
pub mod multisig;
pub mod errors;
pub mod access_control;
pub mod keyed_map;
pub mod risk_pool;
pub mod escrow;
pub mod insurance_types;
pub mod policy;
pub mod governance;
pub mod hashing;
pub mod events;
pub mod verification_keys;
pub mod zk_compliance;
pub mod proof_artifacts;
pub mod contract_validation;
pub mod property_token;
