//! Nullifier and commitment records. A nullifier record is allocated unused
//! and can be consumed exactly once — that consumption is what prevents the
//! same underlying proof from being used twice. A commitment record is a
//! write-once binding of an opaque value to its owner.
use vstd::prelude::*;

verus! {

/// The kind of credential a consumed nullifier carries.
#[derive(Clone, Copy, Debug, PartialEq, Eq, Structural)]
pub enum ProofType {
    /// No credential: the nullifier is unconsumed, or the registration was
    /// open (unverified).
    Unset,
    /// Verified developer activity.
    DeveloperReputation,
    /// Verified trading volume.
    WhaleTrading,
}

/// One nullifier record.
#[derive(Debug, Clone)]
pub struct NullifierAccount {
    /// The opaque 32-byte nullifier value.
    pub nullifier: Vec<u8>,
    /// Whether the nullifier has been consumed.
    pub is_used: bool,
    /// Time of consumption, zero while unconsumed.
    pub used_at: i64,
    /// The credential kind set at consumption, `Unset` before.
    pub proof_type: ProofType,
}

/// The mathematical value of a [`NullifierAccount`].
#[verifier::ext_equal]
pub struct NullifierView {
    pub nullifier: Seq<u8>,
    pub is_used: bool,
    pub used_at: i64,
    pub proof_type: ProofType,
}

impl View for NullifierAccount {
    type V = NullifierView;

    open spec fn view(&self) -> NullifierView {
        NullifierView {
            nullifier: self.nullifier@,
            is_used: self.is_used,
            used_at: self.used_at,
            proof_type: self.proof_type,
        }
    }
}

/// One commitment record: immutable once created.
#[derive(Debug, Clone)]
pub struct CommitmentAccount {
    /// The opaque 32-byte commitment value.
    pub commitment: Vec<u8>,
    /// The identity that published the commitment.
    pub owner: Vec<u8>,
    /// Time of creation.
    pub created_at: i64,
}

/// The mathematical value of a [`CommitmentAccount`].
#[verifier::ext_equal]
pub struct CommitmentView {
    pub commitment: Seq<u8>,
    pub owner: Seq<u8>,
    pub created_at: i64,
}

impl View for CommitmentAccount {
    type V = CommitmentView;

    open spec fn view(&self) -> CommitmentView {
        CommitmentView {
            commitment: self.commitment@,
            owner: self.owner@,
            created_at: self.created_at,
        }
    }
}

/// Allocates a fresh, unconsumed nullifier record. Allocation is deliberately
/// separate from consumption, so creating the record grants nothing.
pub fn init_nullifier(nullifier: Vec<u8>) -> (nullifier_account: NullifierAccount)
    requires
        nullifier@.len() == 32,
    ensures
        nullifier_account@ == (NullifierView {
            nullifier: nullifier@,
            is_used: false,
            used_at: 0,
            proof_type: ProofType::Unset,
        }),
{
    NullifierAccount { nullifier, is_used: false, used_at: 0, proof_type: ProofType::Unset }
}

/// Binds an opaque commitment value to its owner at time `now`. The record is
/// never mutated afterwards.
pub fn create_commitment(commitment: Vec<u8>, owner: Vec<u8>, now: i64) -> (commitment_account:
    CommitmentAccount)
    requires
        commitment@.len() == 32,
        owner@.len() == 32,
    ensures
        commitment_account@ == (CommitmentView {
            commitment: commitment@,
            owner: owner@,
            created_at: now,
        }),
{
    CommitmentAccount { commitment, owner, created_at: now }
}

} // verus!
