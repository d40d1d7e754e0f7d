//! Tiered airdrop campaigns: creation, verified and open registration,
//! closing, funding, completion, distribution marks, and claims. A campaign
//! moves forward-only through `Open -> RegistrationClosed -> Completed`; the
//! claim amount is a pure function of the registration's credential kind and
//! the campaign's tier amounts. Moving the tokens themselves is the host's
//! asset ledger's work; this module decides and keeps the books.
use vstd::prelude::*;
use vstd::string::StrSliceExecFns;

use crate::bytes::{bytes_eq, copy_bytes};
use crate::errors::VouchError;
use crate::nullifier::{NullifierAccount, NullifierView, ProofType};

verus! {

/// The phase of a campaign; transitions are forward-only.
#[derive(Clone, Copy, Debug, PartialEq, Eq, Structural)]
pub enum CampaignStatus {
    /// Registration is open.
    Open,
    /// Registration has been closed by the creator.
    RegistrationClosed,
    /// The campaign has been completed by the creator.
    Completed,
}

/// One airdrop campaign.
#[derive(Debug, Clone)]
pub struct AirdropCampaign {
    /// Unique 32-byte campaign identifier.
    pub campaign_id: Vec<u8>,
    /// The identity that created, and alone administers, the campaign.
    pub creator: Vec<u8>,
    /// Human-readable campaign name, at most 64 characters.
    pub name: String,
    /// The asset the campaign pays out.
    pub token_mint: Vec<u8>,
    /// Amount every registrant gets.
    pub base_amount: u64,
    /// Additional amount for verified developers.
    pub dev_bonus: u64,
    /// Additional amount for verified whales.
    pub whale_bonus: u64,
    /// Registration deadline.
    pub registration_deadline: i64,
    /// Current phase.
    pub status: CampaignStatus,
    /// Total registrations of any kind.
    pub total_registrations: u32,
    /// Unverified (open) registrations.
    pub open_registrations: u32,
    /// Verified developer registrations.
    pub dev_registrations: u32,
    /// Verified whale registrations.
    pub whale_registrations: u32,
    /// Time of creation.
    pub created_at: i64,
    /// Time of completion, zero before.
    pub completed_at: i64,
    /// Tokens the books count as available for claims.
    pub vault_balance: u64,
    /// Number of claims paid.
    pub total_claimed: u32,
}

/// The mathematical value of an [`AirdropCampaign`].
#[verifier::ext_equal]
pub struct CampaignView {
    pub campaign_id: Seq<u8>,
    pub creator: Seq<u8>,
    pub name: Seq<char>,
    pub token_mint: Seq<u8>,
    pub base_amount: u64,
    pub dev_bonus: u64,
    pub whale_bonus: u64,
    pub registration_deadline: i64,
    pub status: CampaignStatus,
    pub total_registrations: u32,
    pub open_registrations: u32,
    pub dev_registrations: u32,
    pub whale_registrations: u32,
    pub created_at: i64,
    pub completed_at: i64,
    pub vault_balance: u64,
    pub total_claimed: u32,
}

impl View for AirdropCampaign {
    type V = CampaignView;

    open spec fn view(&self) -> CampaignView {
        CampaignView {
            campaign_id: self.campaign_id@,
            creator: self.creator@,
            name: self.name@,
            token_mint: self.token_mint@,
            base_amount: self.base_amount,
            dev_bonus: self.dev_bonus,
            whale_bonus: self.whale_bonus,
            registration_deadline: self.registration_deadline,
            status: self.status,
            total_registrations: self.total_registrations,
            open_registrations: self.open_registrations,
            dev_registrations: self.dev_registrations,
            whale_registrations: self.whale_registrations,
            created_at: self.created_at,
            completed_at: self.completed_at,
            vault_balance: self.vault_balance,
            total_claimed: self.total_claimed,
        }
    }
}

/// One registration of an identity with a campaign.
#[derive(Debug, Clone)]
pub struct AirdropRegistrationAccount {
    /// The campaign this registration belongs to, by its identifier.
    pub campaign: Vec<u8>,
    /// The consumed nullifier, or the registrant's wallet identity for an
    /// open registration.
    pub nullifier: Vec<u8>,
    /// The registrant's external payout address.
    pub shadow_wire_address: String,
    /// The credential kind, `Unset` for an open registration.
    pub proof_type: ProofType,
    /// Time of registration.
    pub registered_at: i64,
    /// Whether an out-of-band distribution has been recorded.
    pub is_distributed: bool,
    /// Time of the distribution mark, zero before.
    pub distributed_at: i64,
    /// Reference of the out-of-band distribution transaction.
    pub distribution_tx: String,
    /// Whether the direct claim has been paid.
    pub is_claimed: bool,
    /// Time of the claim, zero before.
    pub claimed_at: i64,
    /// Amount the claim paid, zero before.
    pub claimed_amount: u64,
}

/// The mathematical value of an [`AirdropRegistrationAccount`].
#[verifier::ext_equal]
pub struct RegistrationView {
    pub campaign: Seq<u8>,
    pub nullifier: Seq<u8>,
    pub shadow_wire_address: Seq<char>,
    pub proof_type: ProofType,
    pub registered_at: i64,
    pub is_distributed: bool,
    pub distributed_at: i64,
    pub distribution_tx: Seq<char>,
    pub is_claimed: bool,
    pub claimed_at: i64,
    pub claimed_amount: u64,
}

impl View for AirdropRegistrationAccount {
    type V = RegistrationView;

    open spec fn view(&self) -> RegistrationView {
        RegistrationView {
            campaign: self.campaign@,
            nullifier: self.nullifier@,
            shadow_wire_address: self.shadow_wire_address@,
            proof_type: self.proof_type,
            registered_at: self.registered_at,
            is_distributed: self.is_distributed,
            distributed_at: self.distributed_at,
            distribution_tx: self.distribution_tx@,
            is_claimed: self.is_claimed,
            claimed_at: self.claimed_at,
            claimed_amount: self.claimed_amount,
        }
    }
}

/// Creates a campaign in phase `Open` with all counters at zero. The name is
/// at most 64 characters, the deadline must lie in the future, and the base
/// amount must be positive.
pub fn create_airdrop_campaign(
    campaign_id: Vec<u8>,
    name: String,
    token_mint: Vec<u8>,
    base_amount: u64,
    dev_bonus: u64,
    whale_bonus: u64,
    registration_deadline: i64,
    creator: Vec<u8>,
    now: i64,
) -> (r: Result<AirdropCampaign, VouchError>)
    requires
        campaign_id@.len() == 32,
        token_mint@.len() == 32,
        creator@.len() == 32,
    ensures
        r is Ok <==> (name@.len() <= 64 && registration_deadline > now && base_amount > 0),
        r is Ok ==> r->Ok_0@ == (CampaignView {
            campaign_id: campaign_id@,
            creator: creator@,
            name: name@,
            token_mint: token_mint@,
            base_amount,
            dev_bonus,
            whale_bonus,
            registration_deadline,
            status: CampaignStatus::Open,
            total_registrations: 0,
            open_registrations: 0,
            dev_registrations: 0,
            whale_registrations: 0,
            created_at: now,
            completed_at: 0,
            vault_balance: 0,
            total_claimed: 0,
        }),
        name@.len() > 64 ==> r == Err::<AirdropCampaign, VouchError>(VouchError::NameTooLong),
        name@.len() <= 64 && registration_deadline <= now ==> r == Err::<
            AirdropCampaign,
            VouchError,
        >(VouchError::InvalidDeadline),
        name@.len() <= 64 && registration_deadline > now && base_amount == 0 ==> r == Err::<
            AirdropCampaign,
            VouchError,
        >(VouchError::InvalidAmount),
{
    if name.as_str().unicode_len() > 64 {
        return Err(VouchError::NameTooLong);
    }
    if registration_deadline <= now {
        return Err(VouchError::InvalidDeadline);
    }
    if base_amount == 0 {
        return Err(VouchError::InvalidAmount);
    }
    Ok(
        AirdropCampaign {
            campaign_id,
            creator,
            name,
            token_mint,
            base_amount,
            dev_bonus,
            whale_bonus,
            registration_deadline,
            status: CampaignStatus::Open,
            total_registrations: 0,
            open_registrations: 0,
            dev_registrations: 0,
            whale_registrations: 0,
            created_at: now,
            completed_at: 0,
            vault_balance: 0,
            total_claimed: 0,
        },
    )
}

/// A verified registration is accepted: the campaign is open and before its
/// deadline, the nullifier record is consumed (a credential exists), the
/// payout address has an accepted length, and the touched counters can
/// advance. An unconsumed credential kind never registers here.
pub open spec fn register_verified_accepts(
    c: CampaignView,
    n: NullifierView,
    addr_len: int,
    now: i64,
) -> bool {
    &&& c.status == CampaignStatus::Open
    &&& now < c.registration_deadline
    &&& n.is_used
    &&& 32 <= addr_len <= 44
    &&& c.total_registrations < u32::MAX
    &&& match n.proof_type {
        ProofType::DeveloperReputation => c.dev_registrations < u32::MAX,
        ProofType::WhaleTrading => c.whale_registrations < u32::MAX,
        ProofType::Unset => false,
    }
}

/// The error a rejected verified registration reports, in check order.
pub open spec fn register_verified_error(
    c: CampaignView,
    n: NullifierView,
    addr_len: int,
    now: i64,
) -> VouchError {
    if c.status != CampaignStatus::Open {
        VouchError::CampaignNotOpen
    } else if now >= c.registration_deadline {
        VouchError::RegistrationClosed
    } else if !n.is_used {
        VouchError::NullifierNotVerified
    } else if !(32 <= addr_len <= 44) {
        VouchError::InvalidShadowWireAddress
    } else if c.total_registrations == u32::MAX {
        VouchError::Overflow
    } else if n.proof_type is Unset {
        VouchError::InvalidProofType
    } else {
        VouchError::Overflow
    }
}

/// Registers a credential holder for a campaign: the consumed nullifier is
/// the registration's identity, its credential kind picks the bonus tier.
/// The campaign's total and the matching tier bucket advance by one.
pub fn register_for_airdrop(
    campaign: &mut AirdropCampaign,
    nullifier_account: &NullifierAccount,
    shadow_wire_address: String,
    now: i64,
) -> (r: Result<AirdropRegistrationAccount, VouchError>)
    ensures
        r is Ok <==> register_verified_accepts(
            old(campaign)@,
            nullifier_account@,
            shadow_wire_address@.len() as int,
            now,
        ),
        r is Ok ==> final(campaign)@ == (CampaignView {
            total_registrations: (old(campaign)@.total_registrations + 1) as u32,
            dev_registrations: if nullifier_account@.proof_type is DeveloperReputation {
                (old(campaign)@.dev_registrations + 1) as u32
            } else {
                old(campaign)@.dev_registrations
            },
            whale_registrations: if nullifier_account@.proof_type is WhaleTrading {
                (old(campaign)@.whale_registrations + 1) as u32
            } else {
                old(campaign)@.whale_registrations
            },
            ..old(campaign)@
        }),
        r is Ok ==> r->Ok_0@ == (RegistrationView {
            campaign: old(campaign)@.campaign_id,
            nullifier: nullifier_account@.nullifier,
            shadow_wire_address: shadow_wire_address@,
            proof_type: nullifier_account@.proof_type,
            registered_at: now,
            is_distributed: false,
            distributed_at: 0,
            distribution_tx: Seq::<char>::empty(),
            is_claimed: false,
            claimed_at: 0,
            claimed_amount: 0,
        }),
        r is Err ==> final(campaign)@ == old(campaign)@,
        r is Err ==> r == Err::<AirdropRegistrationAccount, VouchError>(
            register_verified_error(
                old(campaign)@,
                nullifier_account@,
                shadow_wire_address@.len() as int,
                now,
            ),
        ),
{
    if !(campaign.status == CampaignStatus::Open) {
        return Err(VouchError::CampaignNotOpen);
    }
    if now >= campaign.registration_deadline {
        return Err(VouchError::RegistrationClosed);
    }
    if !nullifier_account.is_used {
        return Err(VouchError::NullifierNotVerified);
    }
    let addr_len = shadow_wire_address.as_str().unicode_len();
    if addr_len < 32 || addr_len > 44 {
        return Err(VouchError::InvalidShadowWireAddress);
    }
    let new_total = match campaign.total_registrations.checked_add(1) {
        Some(t) => t,
        None => {
            return Err(VouchError::Overflow);
        },
    };
    match nullifier_account.proof_type {
        ProofType::DeveloperReputation => {
            let new_dev = match campaign.dev_registrations.checked_add(1) {
                Some(d) => d,
                None => {
                    return Err(VouchError::Overflow);
                },
            };
            campaign.total_registrations = new_total;
            campaign.dev_registrations = new_dev;
        },
        ProofType::WhaleTrading => {
            let new_whale = match campaign.whale_registrations.checked_add(1) {
                Some(w) => w,
                None => {
                    return Err(VouchError::Overflow);
                },
            };
            campaign.total_registrations = new_total;
            campaign.whale_registrations = new_whale;
        },
        ProofType::Unset => {
            return Err(VouchError::InvalidProofType);
        },
    }
    Ok(
        AirdropRegistrationAccount {
            campaign: copy_bytes(&campaign.campaign_id),
            nullifier: copy_bytes(&nullifier_account.nullifier),
            shadow_wire_address,
            proof_type: nullifier_account.proof_type,
            registered_at: now,
            is_distributed: false,
            distributed_at: 0,
            distribution_tx: String::new(),
            is_claimed: false,
            claimed_at: 0,
            claimed_amount: 0,
        },
    )
}

/// An open registration is accepted: the campaign is open and before its
/// deadline, the payout address has an accepted length, and the touched
/// counters can advance.
pub open spec fn register_open_accepts(c: CampaignView, addr_len: int, now: i64) -> bool {
    &&& c.status == CampaignStatus::Open
    &&& now < c.registration_deadline
    &&& 32 <= addr_len <= 44
    &&& c.total_registrations < u32::MAX
    &&& c.open_registrations < u32::MAX
}

/// The error a rejected open registration reports, in check order.
pub open spec fn register_open_error(c: CampaignView, addr_len: int, now: i64) -> VouchError {
    if c.status != CampaignStatus::Open {
        VouchError::CampaignNotOpen
    } else if now >= c.registration_deadline {
        VouchError::RegistrationClosed
    } else if !(32 <= addr_len <= 44) {
        VouchError::InvalidShadowWireAddress
    } else {
        VouchError::Overflow
    }
}

/// Registers a wallet for a campaign without a credential: the wallet's own
/// identity keys the registration, the credential kind stays `Unset`, and
/// only the base amount will be owed. The campaign's total and open-bucket
/// counters advance by one.
pub fn register_for_airdrop_open(
    campaign: &mut AirdropCampaign,
    payer: &Vec<u8>,
    shadow_wire_address: String,
    now: i64,
) -> (r: Result<AirdropRegistrationAccount, VouchError>)
    requires
        payer@.len() == 32,
    ensures
        r is Ok <==> register_open_accepts(old(campaign)@, shadow_wire_address@.len() as int, now),
        r is Ok ==> final(campaign)@ == (CampaignView {
            total_registrations: (old(campaign)@.total_registrations + 1) as u32,
            open_registrations: (old(campaign)@.open_registrations + 1) as u32,
            ..old(campaign)@
        }),
        r is Ok ==> r->Ok_0@ == (RegistrationView {
            campaign: old(campaign)@.campaign_id,
            nullifier: payer@,
            shadow_wire_address: shadow_wire_address@,
            proof_type: ProofType::Unset,
            registered_at: now,
            is_distributed: false,
            distributed_at: 0,
            distribution_tx: Seq::<char>::empty(),
            is_claimed: false,
            claimed_at: 0,
            claimed_amount: 0,
        }),
        r is Err ==> final(campaign)@ == old(campaign)@,
        r is Err ==> r == Err::<AirdropRegistrationAccount, VouchError>(
            register_open_error(old(campaign)@, shadow_wire_address@.len() as int, now),
        ),
{
    if !(campaign.status == CampaignStatus::Open) {
        return Err(VouchError::CampaignNotOpen);
    }
    if now >= campaign.registration_deadline {
        return Err(VouchError::RegistrationClosed);
    }
    let addr_len = shadow_wire_address.as_str().unicode_len();
    if addr_len < 32 || addr_len > 44 {
        return Err(VouchError::InvalidShadowWireAddress);
    }
    let new_total = match campaign.total_registrations.checked_add(1) {
        Some(t) => t,
        None => {
            return Err(VouchError::Overflow);
        },
    };
    let new_open = match campaign.open_registrations.checked_add(1) {
        Some(o) => o,
        None => {
            return Err(VouchError::Overflow);
        },
    };
    campaign.total_registrations = new_total;
    campaign.open_registrations = new_open;
    Ok(
        AirdropRegistrationAccount {
            campaign: copy_bytes(&campaign.campaign_id),
            nullifier: copy_bytes(payer),
            shadow_wire_address,
            proof_type: ProofType::Unset,
            registered_at: now,
            is_distributed: false,
            distributed_at: 0,
            distribution_tx: String::new(),
            is_claimed: false,
            claimed_at: 0,
            claimed_amount: 0,
        },
    )
}

/// Closes registration. Only the creator may close, and only while the
/// campaign is open; the phase advances to `RegistrationClosed`.
pub fn close_airdrop_registration(campaign: &mut AirdropCampaign, caller: &Vec<u8>) -> (r: Result<
    (),
    VouchError,
>)
    ensures
        r is Ok <==> (caller@ == old(campaign)@.creator && old(campaign)@.status
            == CampaignStatus::Open),
        r is Ok ==> final(campaign)@ == (CampaignView {
            status: CampaignStatus::RegistrationClosed,
            ..old(campaign)@
        }),
        r is Err ==> final(campaign)@ == old(campaign)@,
        caller@ != old(campaign)@.creator ==> r == Err::<(), VouchError>(VouchError::Unauthorized),
        caller@ == old(campaign)@.creator && old(campaign)@.status != CampaignStatus::Open ==> r
            == Err::<(), VouchError>(VouchError::CampaignNotOpen),
{
    if !bytes_eq(caller, &campaign.creator) {
        return Err(VouchError::Unauthorized);
    }
    if !(campaign.status == CampaignStatus::Open) {
        return Err(VouchError::CampaignNotOpen);
    }
    campaign.status = CampaignStatus::RegistrationClosed;
    Ok(())
}

/// Records an out-of-band payout for a registration. Only the campaign's
/// creator may mark, the registration must belong to the campaign, and a
/// registration is marked at most once.
pub fn mark_airdrop_distributed(
    campaign: &AirdropCampaign,
    registration: &mut AirdropRegistrationAccount,
    caller: &Vec<u8>,
    tx_signature: String,
    now: i64,
) -> (r: Result<(), VouchError>)
    ensures
        r is Ok <==> (caller@ == campaign@.creator && old(registration)@.campaign
            == campaign@.campaign_id && !old(registration)@.is_distributed),
        r is Ok ==> final(registration)@ == (RegistrationView {
            is_distributed: true,
            distributed_at: now,
            distribution_tx: tx_signature@,
            ..old(registration)@
        }),
        r is Err ==> final(registration)@ == old(registration)@,
        caller@ != campaign@.creator ==> r == Err::<(), VouchError>(VouchError::Unauthorized),
        caller@ == campaign@.creator && old(registration)@.campaign != campaign@.campaign_id ==> r
            == Err::<(), VouchError>(VouchError::InvalidCampaign),
        caller@ == campaign@.creator && old(registration)@.campaign == campaign@.campaign_id && old(
            registration,
        )@.is_distributed ==> r == Err::<(), VouchError>(VouchError::AlreadyDistributed),
{
    if !bytes_eq(caller, &campaign.creator) {
        return Err(VouchError::Unauthorized);
    }
    if !bytes_eq(&registration.campaign, &campaign.campaign_id) {
        return Err(VouchError::InvalidCampaign);
    }
    if registration.is_distributed {
        return Err(VouchError::AlreadyDistributed);
    }
    registration.is_distributed = true;
    registration.distributed_at = now;
    registration.distribution_tx = tx_signature;
    Ok(())
}

/// Completes a campaign. Only the creator may complete, and only once
/// registration has been closed; the phase advances to `Completed`.
pub fn complete_airdrop_campaign(campaign: &mut AirdropCampaign, caller: &Vec<u8>, now: i64) -> (r:
    Result<(), VouchError>)
    ensures
        r is Ok <==> (caller@ == old(campaign)@.creator && old(campaign)@.status
            == CampaignStatus::RegistrationClosed),
        r is Ok ==> final(campaign)@ == (CampaignView {
            status: CampaignStatus::Completed,
            completed_at: now,
            ..old(campaign)@
        }),
        r is Err ==> final(campaign)@ == old(campaign)@,
        caller@ != old(campaign)@.creator ==> r == Err::<(), VouchError>(VouchError::Unauthorized),
        caller@ == old(campaign)@.creator && old(campaign)@.status
            != CampaignStatus::RegistrationClosed ==> r == Err::<(), VouchError>(
            VouchError::CampaignNotClosed,
        ),
{
    if !bytes_eq(caller, &campaign.creator) {
        return Err(VouchError::Unauthorized);
    }
    if !(campaign.status == CampaignStatus::RegistrationClosed) {
        return Err(VouchError::CampaignNotClosed);
    }
    campaign.status = CampaignStatus::Completed;
    campaign.completed_at = now;
    Ok(())
}

/// Books a funding of the campaign's vault. Only the creator may fund, the
/// amount must be positive, and the campaign must not be completed. The host
/// moves the tokens; on success the books count `amount` more as available.
pub fn fund_airdrop_campaign(campaign: &mut AirdropCampaign, caller: &Vec<u8>, amount: u64) -> (r:
    Result<(), VouchError>)
    ensures
        r is Ok <==> (caller@ == old(campaign)@.creator && amount > 0 && (old(campaign)@.status
            == CampaignStatus::Open || old(campaign)@.status == CampaignStatus::RegistrationClosed)
            && old(campaign)@.vault_balance + amount <= u64::MAX),
        r is Ok ==> final(campaign)@ == (CampaignView {
            vault_balance: (old(campaign)@.vault_balance + amount) as u64,
            ..old(campaign)@
        }),
        r is Err ==> final(campaign)@ == old(campaign)@,
        caller@ != old(campaign)@.creator ==> r == Err::<(), VouchError>(VouchError::Unauthorized),
        caller@ == old(campaign)@.creator && amount == 0 ==> r == Err::<(), VouchError>(
            VouchError::InvalidAmount,
        ),
        caller@ == old(campaign)@.creator && amount > 0 && old(campaign)@.status
            == CampaignStatus::Completed ==> r == Err::<(), VouchError>(VouchError::CampaignNotOpen),
        caller@ == old(campaign)@.creator && amount > 0 && (old(campaign)@.status
            == CampaignStatus::Open || old(campaign)@.status == CampaignStatus::RegistrationClosed)
            && old(campaign)@.vault_balance + amount > u64::MAX ==> r == Err::<(), VouchError>(
            VouchError::Overflow,
        ),
{
    if !bytes_eq(caller, &campaign.creator) {
        return Err(VouchError::Unauthorized);
    }
    if amount == 0 {
        return Err(VouchError::InvalidAmount);
    }
    if !(campaign.status == CampaignStatus::Open || campaign.status
        == CampaignStatus::RegistrationClosed) {
        return Err(VouchError::CampaignNotOpen);
    }
    let new_balance = match campaign.vault_balance.checked_add(amount) {
        Some(b) => b,
        None => {
            return Err(VouchError::Overflow);
        },
    };
    campaign.vault_balance = new_balance;
    Ok(())
}

/// The amount a claim pays: the campaign's base amount, plus the developer
/// bonus for a developer credential, plus the whale bonus for a whale
/// credential, and nothing more for an open registration. A pure function of
/// the credential kind and the campaign's three tier amounts.
pub open spec fn spec_claim_amount(
    proof_type: ProofType,
    base_amount: u64,
    dev_bonus: u64,
    whale_bonus: u64,
) -> int {
    base_amount + (match proof_type {
        ProofType::DeveloperReputation => dev_bonus as int,
        ProofType::WhaleTrading => whale_bonus as int,
        ProofType::Unset => 0,
    })
}

/// Computes the claim amount for a credential kind, with checked addition.
pub fn claim_amount(
    proof_type: ProofType,
    base_amount: u64,
    dev_bonus: u64,
    whale_bonus: u64,
) -> (r: Result<u64, VouchError>)
    ensures
        r is Ok <==> spec_claim_amount(proof_type, base_amount, dev_bonus, whale_bonus)
            <= u64::MAX,
        r is Ok ==> r->Ok_0 == spec_claim_amount(proof_type, base_amount, dev_bonus, whale_bonus),
        r is Err ==> r == Err::<u64, VouchError>(VouchError::Overflow),
{
    let bonus: u64 = match proof_type {
        ProofType::DeveloperReputation => dev_bonus,
        ProofType::WhaleTrading => whale_bonus,
        ProofType::Unset => 0,
    };
    match base_amount.checked_add(bonus) {
        Some(v) => Ok(v),
        None => Err(VouchError::Overflow),
    }
}

/// A claim is accepted: the registration belongs to the campaign and is
/// unclaimed, the claim amount does not wrap, the vault (as the host's asset
/// ledger reports it) holds at least that amount, and the claim counter can
/// advance.
pub open spec fn claim_accepts(c: CampaignView, g: RegistrationView, vault_amount: u64) -> bool {
    &&& g.campaign == c.campaign_id
    &&& !g.is_claimed
    &&& spec_claim_amount(g.proof_type, c.base_amount, c.dev_bonus, c.whale_bonus) <= u64::MAX
    &&& vault_amount >= spec_claim_amount(g.proof_type, c.base_amount, c.dev_bonus, c.whale_bonus)
    &&& c.total_claimed < u32::MAX
}

/// The error a rejected claim reports, in check order.
pub open spec fn claim_error(c: CampaignView, g: RegistrationView, vault_amount: u64) -> VouchError {
    if g.campaign != c.campaign_id {
        VouchError::InvalidCampaign
    } else if g.is_claimed {
        VouchError::AlreadyClaimed
    } else if spec_claim_amount(g.proof_type, c.base_amount, c.dev_bonus, c.whale_bonus)
        > u64::MAX {
        VouchError::Overflow
    } else if vault_amount < spec_claim_amount(
        g.proof_type,
        c.base_amount,
        c.dev_bonus,
        c.whale_bonus,
    ) {
        VouchError::InsufficientFunds
    } else {
        VouchError::Overflow
    }
}

/// Pays a claim. `vault_amount` is the balance the host's asset ledger
/// reports for the campaign vault; the host transfers the returned amount to
/// the claimer in the same atomic step. On success the registration is marked
/// claimed with the paid amount, the books release the amount (with a floor
/// at zero), and the claim counter advances. On failure nothing changes.
pub fn claim_airdrop(
    campaign: &mut AirdropCampaign,
    registration: &mut AirdropRegistrationAccount,
    vault_amount: u64,
    now: i64,
) -> (r: Result<u64, VouchError>)
    ensures
        r is Ok <==> claim_accepts(old(campaign)@, old(registration)@, vault_amount),
        r is Ok ==> r->Ok_0 == spec_claim_amount(
            old(registration)@.proof_type,
            old(campaign)@.base_amount,
            old(campaign)@.dev_bonus,
            old(campaign)@.whale_bonus,
        ),
        r is Ok ==> final(registration)@ == (RegistrationView {
            is_claimed: true,
            claimed_at: now,
            claimed_amount: spec_claim_amount(
                old(registration)@.proof_type,
                old(campaign)@.base_amount,
                old(campaign)@.dev_bonus,
                old(campaign)@.whale_bonus,
            ) as u64,
            ..old(registration)@
        }),
        r is Ok ==> final(campaign)@ == (CampaignView {
            vault_balance: if old(campaign)@.vault_balance >= spec_claim_amount(
                old(registration)@.proof_type,
                old(campaign)@.base_amount,
                old(campaign)@.dev_bonus,
                old(campaign)@.whale_bonus,
            ) {
                (old(campaign)@.vault_balance - spec_claim_amount(
                    old(registration)@.proof_type,
                    old(campaign)@.base_amount,
                    old(campaign)@.dev_bonus,
                    old(campaign)@.whale_bonus,
                )) as u64
            } else {
                0
            },
            total_claimed: (old(campaign)@.total_claimed + 1) as u32,
            ..old(campaign)@
        }),
        r is Err ==> final(campaign)@ == old(campaign)@ && final(registration)@ == old(
            registration,
        )@,
        r is Err ==> r == Err::<u64, VouchError>(
            claim_error(old(campaign)@, old(registration)@, vault_amount),
        ),
{
    if !bytes_eq(&registration.campaign, &campaign.campaign_id) {
        return Err(VouchError::InvalidCampaign);
    }
    if registration.is_claimed {
        return Err(VouchError::AlreadyClaimed);
    }
    let amount = match claim_amount(
        registration.proof_type,
        campaign.base_amount,
        campaign.dev_bonus,
        campaign.whale_bonus,
    ) {
        Ok(a) => a,
        Err(e) => {
            return Err(e);
        },
    };
    if vault_amount < amount {
        return Err(VouchError::InsufficientFunds);
    }
    let new_claimed = match campaign.total_claimed.checked_add(1) {
        Some(t) => t,
        None => {
            return Err(VouchError::Overflow);
        },
    };
    registration.is_claimed = true;
    registration.claimed_at = now;
    registration.claimed_amount = amount;
    campaign.vault_balance = campaign.vault_balance.saturating_sub(amount);
    campaign.total_claimed = new_claimed;
    Ok(amount)
}

/// Law: a claimed registration is never paid again. Whatever the vault
/// holds, a claim against a claimed registration is rejected, and when the
/// registration belongs to the campaign the reported error is exactly
/// `AlreadyClaimed` — so no registration is ever double-paid.
pub proof fn lemma_claim_single_payout(c: CampaignView, g: RegistrationView, vault_amount: u64)
    requires
        g.is_claimed,
    ensures
        !claim_accepts(c, g, vault_amount),
        g.campaign == c.campaign_id ==> claim_error(c, g, vault_amount)
            == VouchError::AlreadyClaimed,
{
}

} // verus!
