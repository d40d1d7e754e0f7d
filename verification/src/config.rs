//! The protocol's singleton configuration record and the admin operations on
//! it: initialization, pause and unpause, rate-limit updates, and admin
//! transfer. The host guarantees there is exactly one configuration record;
//! this module guarantees what each operation does to it.
use vstd::prelude::*;

use crate::bytes::{bytes_eq, copy_bytes};
use crate::errors::VouchError;
use crate::DEFAULT_COOLDOWN_SECONDS;
use crate::DEFAULT_MAX_PROOFS_PER_DAY;

verus! {

/// The singleton protocol configuration.
#[derive(Debug, Clone)]
pub struct ConfigAccount {
    /// Protocol admin with full control.
    pub admin: Vec<u8>,
    /// Authority that can pause and unpause; initially the admin.
    pub pause_authority: Vec<u8>,
    /// Number of verifiers counted as active.
    pub verifier_count: u32,
    /// Whether the protocol is paused.
    pub is_paused: bool,
    /// Maximum proofs per wallet per rolling day.
    pub max_proofs_per_day: u32,
    /// Cooldown between two proofs of one wallet, in seconds.
    pub cooldown_seconds: i64,
    /// Total proofs verified across all wallets.
    pub total_proofs_verified: u64,
}

/// The mathematical value of a [`ConfigAccount`].
#[verifier::ext_equal]
pub struct ConfigView {
    pub admin: Seq<u8>,
    pub pause_authority: Seq<u8>,
    pub verifier_count: u32,
    pub is_paused: bool,
    pub max_proofs_per_day: u32,
    pub cooldown_seconds: i64,
    pub total_proofs_verified: u64,
}

impl View for ConfigAccount {
    type V = ConfigView;

    open spec fn view(&self) -> ConfigView {
        ConfigView {
            admin: self.admin@,
            pause_authority: self.pause_authority@,
            verifier_count: self.verifier_count,
            is_paused: self.is_paused,
            max_proofs_per_day: self.max_proofs_per_day,
            cooldown_seconds: self.cooldown_seconds,
            total_proofs_verified: self.total_proofs_verified,
        }
    }
}

impl ConfigView {
    /// The configuration's invariant: identities are 32 bytes, the daily
    /// quota is positive and the cooldown non-negative.
    pub open spec fn wf(self) -> bool {
        &&& self.admin.len() == 32
        &&& self.pause_authority.len() == 32
        &&& self.max_proofs_per_day > 0
        &&& self.cooldown_seconds >= 0
    }
}

/// Creates the protocol configuration: the caller becomes both admin and
/// pause authority, the protocol starts unpaused with the default limits.
pub fn initialize_config(admin: Vec<u8>) -> (config: ConfigAccount)
    requires
        admin@.len() == 32,
    ensures
        config@ == (ConfigView {
            admin: admin@,
            pause_authority: admin@,
            verifier_count: 0,
            is_paused: false,
            max_proofs_per_day: DEFAULT_MAX_PROOFS_PER_DAY,
            cooldown_seconds: DEFAULT_COOLDOWN_SECONDS,
            total_proofs_verified: 0,
        }),
        config@.wf(),
{
    let pause_authority = copy_bytes(&admin);
    ConfigAccount {
        admin,
        pause_authority,
        verifier_count: 0,
        is_paused: false,
        max_proofs_per_day: DEFAULT_MAX_PROOFS_PER_DAY,
        cooldown_seconds: DEFAULT_COOLDOWN_SECONDS,
        total_proofs_verified: 0,
    }
}

/// Pauses the protocol. Only the pause authority may pause, and only while
/// the protocol is running.
pub fn pause_protocol(config: &mut ConfigAccount, caller: &Vec<u8>) -> (r: Result<
    (),
    VouchError,
>)
    ensures
        r is Ok <==> (caller@ == old(config)@.pause_authority && !old(config)@.is_paused),
        r is Ok ==> final(config)@ == (ConfigView { is_paused: true, ..old(config)@ }),
        r is Err ==> final(config)@ == old(config)@,
        caller@ != old(config)@.pause_authority ==> r == Err::<(), VouchError>(
            VouchError::Unauthorized,
        ),
        caller@ == old(config)@.pause_authority && old(config)@.is_paused ==> r == Err::<
            (),
            VouchError,
        >(VouchError::AlreadyPaused),
{
    if !bytes_eq(caller, &config.pause_authority) {
        return Err(VouchError::Unauthorized);
    }
    if config.is_paused {
        return Err(VouchError::AlreadyPaused);
    }
    config.is_paused = true;
    Ok(())
}

/// Unpauses the protocol. Only the pause authority may unpause, and only
/// while the protocol is paused.
pub fn unpause_protocol(config: &mut ConfigAccount, caller: &Vec<u8>) -> (r: Result<
    (),
    VouchError,
>)
    ensures
        r is Ok <==> (caller@ == old(config)@.pause_authority && old(config)@.is_paused),
        r is Ok ==> final(config)@ == (ConfigView { is_paused: false, ..old(config)@ }),
        r is Err ==> final(config)@ == old(config)@,
        caller@ != old(config)@.pause_authority ==> r == Err::<(), VouchError>(
            VouchError::Unauthorized,
        ),
        caller@ == old(config)@.pause_authority && !old(config)@.is_paused ==> r == Err::<
            (),
            VouchError,
        >(VouchError::NotPaused),
{
    if !bytes_eq(caller, &config.pause_authority) {
        return Err(VouchError::Unauthorized);
    }
    if !config.is_paused {
        return Err(VouchError::NotPaused);
    }
    config.is_paused = false;
    Ok(())
}

/// Updates the rate-limit parameters. Only the admin may update them; a zero
/// daily quota or a negative cooldown is rejected.
pub fn update_rate_limits(
    config: &mut ConfigAccount,
    caller: &Vec<u8>,
    max_proofs_per_day: u32,
    cooldown_seconds: i64,
) -> (r: Result<(), VouchError>)
    ensures
        r is Ok <==> (caller@ == old(config)@.admin && max_proofs_per_day > 0
            && cooldown_seconds >= 0),
        r is Ok ==> final(config)@ == (ConfigView {
            max_proofs_per_day,
            cooldown_seconds,
            ..old(config)@
        }),
        r is Err ==> final(config)@ == old(config)@,
        caller@ != old(config)@.admin ==> r == Err::<(), VouchError>(VouchError::Unauthorized),
        caller@ == old(config)@.admin && !(max_proofs_per_day > 0 && cooldown_seconds >= 0)
            ==> r == Err::<(), VouchError>(VouchError::InvalidRateLimit),
{
    if !bytes_eq(caller, &config.admin) {
        return Err(VouchError::Unauthorized);
    }
    if max_proofs_per_day == 0 {
        return Err(VouchError::InvalidRateLimit);
    }
    if cooldown_seconds < 0 {
        return Err(VouchError::InvalidRateLimit);
    }
    config.max_proofs_per_day = max_proofs_per_day;
    config.cooldown_seconds = cooldown_seconds;
    Ok(())
}

/// Transfers the admin role. Only the current admin may transfer it; the
/// pause authority is reassigned to the new admin at the same time.
pub fn transfer_admin(config: &mut ConfigAccount, caller: &Vec<u8>, new_admin: Vec<u8>) -> (r:
    Result<(), VouchError>)
    requires
        new_admin@.len() == 32,
    ensures
        r is Ok <==> caller@ == old(config)@.admin,
        r is Ok ==> final(config)@ == (ConfigView {
            admin: new_admin@,
            pause_authority: new_admin@,
            ..old(config)@
        }),
        r is Err ==> final(config)@ == old(config)@ && r == Err::<(), VouchError>(
            VouchError::Unauthorized,
        ),
{
    if !bytes_eq(caller, &config.admin) {
        return Err(VouchError::Unauthorized);
    }
    config.pause_authority = copy_bytes(&new_admin);
    config.admin = new_admin;
    Ok(())
}

} // verus!
