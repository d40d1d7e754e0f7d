//! Notification payloads. Each operation of the protocol announces its
//! outcome with one of these records; the host appends them to its event
//! stream, fire-and-forget. They carry plain values only and have no logic of
//! their own.
use vstd::prelude::*;

use crate::nullifier::ProofType;

verus! {

/// The configuration was created.
#[derive(Debug, Clone)]
pub struct ConfigInitialized {
    pub admin: Vec<u8>,
    pub max_proofs_per_day: u32,
    pub cooldown_seconds: i64,
    pub timestamp: i64,
}

/// The protocol was paused.
#[derive(Debug, Clone)]
pub struct ProtocolPaused {
    pub admin: Vec<u8>,
    pub timestamp: i64,
}

/// The protocol was unpaused.
#[derive(Debug, Clone)]
pub struct ProtocolUnpaused {
    pub admin: Vec<u8>,
    pub timestamp: i64,
}

/// The rate-limit parameters were updated.
#[derive(Debug, Clone)]
pub struct RateLimitsUpdated {
    pub admin: Vec<u8>,
    pub old_max_proofs_per_day: u32,
    pub new_max_proofs_per_day: u32,
    pub old_cooldown_seconds: i64,
    pub new_cooldown_seconds: i64,
    pub timestamp: i64,
}

/// The admin role was transferred.
#[derive(Debug, Clone)]
pub struct AdminTransferred {
    pub old_admin: Vec<u8>,
    pub new_admin: Vec<u8>,
    pub timestamp: i64,
}

/// Rate-limit tracking was created for a wallet.
#[derive(Debug, Clone)]
pub struct RateLimitInitialized {
    pub wallet: Vec<u8>,
    pub timestamp: i64,
}

/// A verifier was added.
#[derive(Debug, Clone)]
pub struct VerifierAdded {
    pub verifier: Vec<u8>,
    pub admin: Vec<u8>,
    pub timestamp: i64,
}

/// A verifier was deactivated.
#[derive(Debug, Clone)]
pub struct VerifierRemoved {
    pub verifier: Vec<u8>,
    pub admin: Vec<u8>,
    pub timestamp: i64,
}

/// An attestation was recorded and its nullifier consumed.
#[derive(Debug, Clone)]
pub struct AttestationRecorded {
    pub nullifier: Vec<u8>,
    pub attestation_hash: Vec<u8>,
    pub verifier: Vec<u8>,
    pub proof_type: ProofType,
    pub recipient: Vec<u8>,
    pub timestamp: i64,
    pub signature: Vec<u8>,
}

/// A commitment was published.
#[derive(Debug, Clone)]
pub struct CommitmentCreated {
    pub owner: Vec<u8>,
    pub commitment: Vec<u8>,
    pub timestamp: i64,
}

/// A campaign was created.
#[derive(Debug, Clone)]
pub struct AirdropCampaignCreated {
    pub campaign_id: Vec<u8>,
    pub creator: Vec<u8>,
    pub name: String,
    pub token_mint: Vec<u8>,
    pub base_amount: u64,
    pub dev_bonus: u64,
    pub whale_bonus: u64,
    pub registration_deadline: i64,
    pub timestamp: i64,
}

/// An identity registered with a campaign.
#[derive(Debug, Clone)]
pub struct AirdropRegistration {
    pub campaign_id: Vec<u8>,
    pub nullifier: Vec<u8>,
    pub shadow_wire_address: String,
    pub proof_type: ProofType,
    pub timestamp: i64,
}

/// A campaign's registration was closed, with the final tallies.
#[derive(Debug, Clone)]
pub struct AirdropRegistrationClosed {
    pub campaign_id: Vec<u8>,
    pub total_registrations: u32,
    pub dev_registrations: u32,
    pub whale_registrations: u32,
    pub timestamp: i64,
}

/// A registration was marked distributed out of band.
#[derive(Debug, Clone)]
pub struct AirdropDistributed {
    pub campaign_id: Vec<u8>,
    pub nullifier: Vec<u8>,
    pub shadow_wire_address: String,
    pub tx_signature: String,
    pub timestamp: i64,
}

/// A campaign was completed.
#[derive(Debug, Clone)]
pub struct AirdropCampaignCompleted {
    pub campaign_id: Vec<u8>,
    pub total_distributed: u32,
    pub timestamp: i64,
}

/// A campaign's vault was funded.
#[derive(Debug, Clone)]
pub struct AirdropCampaignFunded {
    pub campaign_id: Vec<u8>,
    pub funder: Vec<u8>,
    pub amount: u64,
    pub total_funded: u64,
    pub timestamp: i64,
}

/// A claim was paid.
#[derive(Debug, Clone)]
pub struct AirdropClaimed {
    pub campaign_id: Vec<u8>,
    pub claimer: Vec<u8>,
    pub nullifier: Vec<u8>,
    pub amount: u64,
    pub proof_type: ProofType,
    pub timestamp: i64,
}

} // verus!
