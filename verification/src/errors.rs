//! The error taxonomy of the protocol. Every operation that can fail returns
//! one of these codes; each contract in this crate says exactly which code
//! comes back on which input.
use vstd::prelude::*;

verus! {

/// Structured error codes of the protocol.
#[derive(Clone, Copy, Debug, PartialEq, Eq)]
pub enum VouchError {
    /// The proof-type code is not one of the known codes.
    InvalidProofType,
    /// The nullifier record has already been consumed.
    NullifierAlreadyUsed,
    /// No commitment record exists for the given value.
    CommitmentNotFound,
    /// The commitment value is malformed.
    InvalidCommitment,
    /// The caller is not the authority the operation demands.
    Unauthorized,
    /// The verifier record is inactive.
    VerifierNotAuthorized,
    /// The companion signature proof is absent or does not bind the expected
    /// message, public key and signature.
    InvalidSignature,
    /// The protocol is paused.
    ProtocolPaused,
    /// The protocol is not paused.
    NotPaused,
    /// The protocol is already paused.
    AlreadyPaused,
    /// The cooldown between two proofs of one wallet has not elapsed.
    RateLimitCooldown,
    /// The wallet has exhausted its daily proof quota.
    DailyRateLimitExceeded,
    /// The rate-limit parameters are rejected.
    InvalidRateLimit,
    /// A checked counter would wrap.
    Overflow,
    /// The campaign name is longer than 64 characters.
    NameTooLong,
    /// The registration deadline is not in the future.
    InvalidDeadline,
    /// The amount must be greater than zero.
    InvalidAmount,
    /// The campaign is not open for the attempted action.
    CampaignNotOpen,
    /// The campaign's registration period has closed.
    RegistrationClosed,
    /// The nullifier record has not been consumed, so no credential exists.
    NullifierNotVerified,
    /// The payout address length is outside the accepted range.
    InvalidShadowWireAddress,
    /// The registration has already been marked distributed.
    AlreadyDistributed,
    /// The campaign must close registration before completing.
    CampaignNotClosed,
    /// The registration does not belong to the given campaign.
    InvalidCampaign,
    /// The campaign vault does not hold enough tokens for the claim.
    InsufficientFunds,
    /// The registration has already been claimed.
    AlreadyClaimed,
    /// The token mint does not match the campaign.
    InvalidMint,
}

} // verus!
