//! Core logic of a reputation-credential protocol: nullifier lifecycle,
//! per-wallet rate limiting, verifier registry and admin control, attestation
//! signature binding, and tiered airdrop campaigns.
//!
//! Every record that the host environment persists is modelled as a plain
//! struct, and every operation is a function that takes the records it touches
//! by reference. The host is responsible for looking records up by their
//! natural key, for the clock, and for moving tokens; this crate decides and
//! does the bookkeeping, and its contracts say exactly when an operation
//! succeeds and what it changes.
use vstd::prelude::*;

pub mod attestation;
pub mod bytes;
pub mod campaign;
pub mod config;
pub mod errors;
pub mod events;
pub mod nullifier;
pub mod rate_limit;
pub mod verifier_registry;

verus! {

/// Byte length of an Ed25519 public key.
pub const ED25519_PUBKEY_SIZE: usize = 32;

/// Byte length of an Ed25519 signature.
pub const ED25519_SIGNATURE_SIZE: usize = 64;

/// Default rate limit: proofs allowed per wallet per day.
pub const DEFAULT_MAX_PROOFS_PER_DAY: u32 = 10;

/// Default cooldown between two proofs of one wallet, in seconds.
pub const DEFAULT_COOLDOWN_SECONDS: i64 = 60;

/// Length of the rolling daily window, in seconds.
pub const SECONDS_PER_DAY: i64 = 86400;

} // verus!
