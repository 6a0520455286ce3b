//! Records of the property-token contract: ownership history, compliance,
//! documents, bridging, error telemetry, governance and the share market.
use vstd::prelude::*;
use crate::validation::AccountId;

verus! {

/// A token id.
pub type TokenId = u64;

/// A chain id.
pub type ChainId = u64;

/// A 32-byte hash.
pub type Hash = [u8; 32];

/// One change of ownership.
#[derive(Clone, Copy, Debug)]
pub struct OwnershipTransfer {
    pub from: AccountId,
    pub to: AccountId,
    pub timestamp: u64,
    pub transaction_hash: Hash,
}

/// A compliance attestation.
#[derive(Clone, Debug)]
pub struct ComplianceInfo {
    pub verified: bool,
    pub verification_date: u64,
    pub verifier: AccountId,
    pub compliance_type: String,
}

/// An attached legal document.
#[derive(Clone, Debug)]
pub struct DocumentInfo {
    pub document_hash: Hash,
    pub document_type: String,
    pub upload_date: u64,
    pub uploader: AccountId,
}

/// Where a bridged token stands.
#[derive(Clone, Copy, Debug, PartialEq, Eq, Structural)]
pub enum BridgingStatus {
    Locked,
    Pending,
    InTransit,
    Completed,
    Failed,
    Recovering,
    Expired,
}

/// A token bridged to another chain.
#[derive(Clone, Copy, Debug)]
pub struct BridgedTokenInfo {
    pub original_chain: ChainId,
    pub original_token_id: TokenId,
    pub destination_chain: ChainId,
    pub destination_token_id: TokenId,
    pub bridged_at: u64,
    pub status: BridgingStatus,
}

/// One entry of the hash-chained error log.
#[derive(Clone, Debug)]
pub struct ErrorLogEntry {
    pub log_id: u64,
    pub error_code: String,
    pub message: String,
    pub account: AccountId,
    pub timestamp: u64,
    pub context: Vec<(String, String)>,
    pub prev_error_hash: Hash,
    pub entry_hash: Hash,
}

/// A caller's sliding error window.
#[derive(Clone, Copy, Debug, PartialEq, Eq, Structural)]
pub struct ErrorRateState {
    pub count: u64,
    pub window_start: u64,
}

/// Error telemetry of one account.
#[derive(Clone, Copy, Debug)]
pub struct ErrorStats {
    pub account: AccountId,
    pub total_errors: u64,
    pub window_error_count: u64,
    pub window_start: u64,
    pub error_limit: u64,
    pub window_duration_ms: u64,
    pub remaining_before_block: u64,
    pub is_rate_limited: bool,
}

/// Where a token-holder proposal stands.
#[derive(Clone, Copy, Debug, PartialEq, Eq, Structural)]
pub enum ProposalStatus {
    Open,
    Executed,
    Rejected,
    Closed,
}

/// A token-holder proposal.
#[derive(Clone, Copy, Debug)]
pub struct Proposal {
    pub id: u64,
    pub token_id: TokenId,
    pub description_hash: Hash,
    pub quorum: u128,
    pub for_votes: u128,
    pub against_votes: u128,
    pub status: ProposalStatus,
    pub created_at: u64,
}

/// A sell order for shares of a token.
#[derive(Clone, Copy, Debug)]
pub struct Ask {
    pub token_id: TokenId,
    pub seller: AccountId,
    pub price_per_share: u128,
    pub amount: u128,
    pub created_at: u64,
}

/// An account's tax figures.
#[derive(Clone, Copy, Debug, PartialEq, Eq, Structural)]
pub struct TaxRecord {
    pub dividends_received: u128,
    pub shares_sold: u128,
    pub proceeds: u128,
}

} // verus!
