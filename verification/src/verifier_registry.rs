//! The registry of authorized off-chain verifiers. Adding a verifier creates
//! an active record and counts it; removing one is a soft revoke that keeps
//! the record for audit and lowers the count with a floor at zero.
use vstd::prelude::*;

use crate::bytes::bytes_eq;
use crate::config::{ConfigAccount, ConfigView};
use crate::errors::VouchError;

verus! {

/// One authorized verifier.
#[derive(Debug, Clone)]
pub struct VerifierAccount {
    /// The verifier's public identity (its Ed25519 public key).
    pub verifier: Vec<u8>,
    /// Whether the verifier is currently authorized.
    pub is_active: bool,
    /// Time the verifier was added.
    pub added_at: i64,
    /// Attestations this verifier has had recorded.
    pub attestation_count: u64,
}

/// The mathematical value of a [`VerifierAccount`].
#[verifier::ext_equal]
pub struct VerifierView {
    pub verifier: Seq<u8>,
    pub is_active: bool,
    pub added_at: i64,
    pub attestation_count: u64,
}

impl View for VerifierAccount {
    type V = VerifierView;

    open spec fn view(&self) -> VerifierView {
        VerifierView {
            verifier: self.verifier@,
            is_active: self.is_active,
            added_at: self.added_at,
            attestation_count: self.attestation_count,
        }
    }
}

/// Adds (or re-adds) an authorized verifier. Only the admin may add one, and
/// only while the protocol is running; the configuration's verifier count
/// advances with a checked add.
pub fn add_verifier(
    config: &mut ConfigAccount,
    caller: &Vec<u8>,
    verifier_pubkey: Vec<u8>,
    now: i64,
) -> (r: Result<VerifierAccount, VouchError>)
    requires
        verifier_pubkey@.len() == 32,
    ensures
        r is Ok <==> (caller@ == old(config)@.admin && !old(config)@.is_paused && old(
            config,
        )@.verifier_count < u32::MAX),
        r is Ok ==> final(config)@ == (ConfigView {
            verifier_count: (old(config)@.verifier_count + 1) as u32,
            ..old(config)@
        }),
        r is Ok ==> r->Ok_0@ == (VerifierView {
            verifier: verifier_pubkey@,
            is_active: true,
            added_at: now,
            attestation_count: 0,
        }),
        r is Err ==> final(config)@ == old(config)@,
        caller@ != old(config)@.admin ==> r == Err::<VerifierAccount, VouchError>(
            VouchError::Unauthorized,
        ),
        caller@ == old(config)@.admin && old(config)@.is_paused ==> r == Err::<
            VerifierAccount,
            VouchError,
        >(VouchError::ProtocolPaused),
        caller@ == old(config)@.admin && !old(config)@.is_paused && old(config)@.verifier_count
            == u32::MAX ==> r == Err::<VerifierAccount, VouchError>(VouchError::Overflow),
{
    if !bytes_eq(caller, &config.admin) {
        return Err(VouchError::Unauthorized);
    }
    if config.is_paused {
        return Err(VouchError::ProtocolPaused);
    }
    let new_count = match config.verifier_count.checked_add(1) {
        Some(c) => c,
        None => {
            return Err(VouchError::Overflow);
        },
    };
    config.verifier_count = new_count;
    Ok(VerifierAccount { verifier: verifier_pubkey, is_active: true, added_at: now, attestation_count: 0 })
}

/// Deactivates a verifier. Only the admin may remove one, and only while the
/// protocol is running. The record stays for audit; the configuration's
/// verifier count falls with a floor at zero.
pub fn remove_verifier(
    config: &mut ConfigAccount,
    verifier_account: &mut VerifierAccount,
    caller: &Vec<u8>,
) -> (r: Result<(), VouchError>)
    ensures
        r is Ok <==> (caller@ == old(config)@.admin && !old(config)@.is_paused),
        r is Ok ==> final(config)@ == (ConfigView {
            verifier_count: if old(config)@.verifier_count > 0 {
                (old(config)@.verifier_count - 1) as u32
            } else {
                0
            },
            ..old(config)@
        }),
        r is Ok ==> final(verifier_account)@ == (VerifierView {
            is_active: false,
            ..old(verifier_account)@
        }),
        r is Err ==> final(config)@ == old(config)@ && final(verifier_account)@ == old(
            verifier_account,
        )@,
        caller@ != old(config)@.admin ==> r == Err::<(), VouchError>(VouchError::Unauthorized),
        caller@ == old(config)@.admin && old(config)@.is_paused ==> r == Err::<(), VouchError>(
            VouchError::ProtocolPaused,
        ),
{
    if !bytes_eq(caller, &config.admin) {
        return Err(VouchError::Unauthorized);
    }
    if config.is_paused {
        return Err(VouchError::ProtocolPaused);
    }
    verifier_account.is_active = false;
    config.verifier_count = config.verifier_count.saturating_sub(1);
    Ok(())
}

} // verus!
