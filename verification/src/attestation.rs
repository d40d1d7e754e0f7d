//! Attestation recording: the canonical signed message, the binding of the
//! host's companion Ed25519 verification step to the expected verifier,
//! message and signature, and the orchestration that consumes a nullifier.
//!
//! The elliptic-curve mathematics itself is the host environment's: its
//! Ed25519 program verifies a signature in a companion step of the same
//! atomic batch, and this module checks — byte for byte — that what that step
//! verified is exactly the message, public key and signature this operation
//! expects. The companion step's raw instruction data is handed in as plain
//! bytes (`None` when no such step immediately precedes the request).
use vstd::prelude::*;

use crate::bytes::{append_bytes, range_matches};
use crate::config::{ConfigAccount, ConfigView};
use crate::errors::VouchError;
use crate::nullifier::{NullifierAccount, NullifierView, ProofType};
use crate::rate_limit::{
    check_and_update_rate_limit, rate_limit_accepts, rate_limit_after, rate_limit_check,
    rate_limit_error, RateLimitView, WalletRateLimit,
};
use crate::verifier_registry::{VerifierAccount, VerifierView};
use crate::ED25519_PUBKEY_SIZE;
use crate::ED25519_SIGNATURE_SIZE;

verus! {

/// The fixed ASCII domain-separation tag `vouch_attestation`.
pub open spec fn spec_domain_tag() -> Seq<u8> {
    seq![
        118u8, 111u8, 117u8, 99u8, 104u8, 95u8, 97u8, 116u8, 116u8, 101u8, 115u8, 116u8, 97u8,
        116u8, 105u8, 111u8, 110u8,
    ]
}

/// The canonical 82-byte attestation message: the domain tag, the proof-type
/// code, the 32-byte nullifier, and the 32-byte attestation hash.
pub open spec fn spec_attestation_message(
    proof_type_value: u8,
    nullifier: Seq<u8>,
    attestation_hash: Seq<u8>,
) -> Seq<u8> {
    spec_domain_tag() + seq![proof_type_value] + nullifier + attestation_hash
}

/// Builds the canonical attestation message that a verifier signs.
pub fn build_attestation_message(
    proof_type_value: u8,
    nullifier: &Vec<u8>,
    attestation_hash: &Vec<u8>,
) -> (message: Vec<u8>)
    requires
        nullifier@.len() == 32,
        attestation_hash@.len() == 32,
    ensures
        message@ == spec_attestation_message(proof_type_value, nullifier@, attestation_hash@),
        message@.len() == 82,
{
    let mut message: Vec<u8> = Vec::new();
    message.push(118);
    message.push(111);
    message.push(117);
    message.push(99);
    message.push(104);
    message.push(95);
    message.push(97);
    message.push(116);
    message.push(116);
    message.push(101);
    message.push(115);
    message.push(116);
    message.push(97);
    message.push(116);
    message.push(105);
    message.push(111);
    message.push(110);
    proof {
        assert(message@ =~= spec_domain_tag());
    }
    message.push(proof_type_value);
    append_bytes(&mut message, nullifier);
    append_bytes(&mut message, attestation_hash);
    proof {
        assert(message@ =~= spec_attestation_message(
            proof_type_value,
            nullifier@,
            attestation_hash@,
        ));
    }
    message
}

/// The little-endian 16-bit value stored at bytes `i` and `i + 1` of `d`.
pub open spec fn u16_le_at(d: Seq<u8>, i: int) -> int {
    d[i] + 256 * d[i + 1]
}

/// The companion instruction's data binds exactly this signature, public key
/// and message: it declares one signature, its offsets are in bounds, and the
/// bytes at those offsets equal the expected values.
///
/// The layout is the host's Ed25519 verification instruction: one count byte
/// and one padding byte, then little-endian 16-bit offsets of the signature
/// (at byte 2), the public key (at byte 6), the message (at byte 10) and the
/// message size (at byte 12), then the data itself.
pub open spec fn ed25519_instruction_binds(
    d: Seq<u8>,
    pubkey: Seq<u8>,
    signature: Seq<u8>,
    message: Seq<u8>,
) -> bool {
    &&& d.len() >= 16
    &&& d[0] == 1
    &&& d.len() >= u16_le_at(d, 2) + 64
    &&& d.len() >= u16_le_at(d, 6) + 32
    &&& d.len() >= u16_le_at(d, 10) + u16_le_at(d, 12)
    &&& d.subrange(u16_le_at(d, 2), u16_le_at(d, 2) + 64) == signature
    &&& d.subrange(u16_le_at(d, 6), u16_le_at(d, 6) + 32) == pubkey
    &&& d.subrange(u16_le_at(d, 10), u16_le_at(d, 10) + u16_le_at(d, 12)) == message
}

/// The companion proof, if present, binds exactly the expected values.
pub open spec fn signature_proof_ok(
    companion: Option<Seq<u8>>,
    pubkey: Seq<u8>,
    signature: Seq<u8>,
    message: Seq<u8>,
) -> bool {
    match companion {
        Some(d) => ed25519_instruction_binds(d, pubkey, signature, message),
        None => false,
    }
}

/// The data of an optional companion instruction, as a sequence of bytes.
pub open spec fn companion_view(companion: Option<&Vec<u8>>) -> Option<Seq<u8>> {
    match companion {
        Some(d) => Some(d@),
        None => None,
    }
}

/// Checks that the companion Ed25519 verification step binds exactly the
/// expected verifier public key, signature and message. `companion` is the
/// raw data of the host's Ed25519 program instruction immediately preceding
/// this request, or `None` when there is no such instruction. Any absence or
/// mismatch is an invalid signature.
pub fn verify_ed25519_signature(
    companion: Option<&Vec<u8>>,
    verifier_pubkey: &Vec<u8>,
    signature: &Vec<u8>,
    message: &Vec<u8>,
) -> (r: Result<(), VouchError>)
    requires
        verifier_pubkey@.len() == 32,
        signature@.len() == 64,
    ensures
        r is Ok <==> signature_proof_ok(
            companion_view(companion),
            verifier_pubkey@,
            signature@,
            message@,
        ),
        r is Err ==> r == Err::<(), VouchError>(VouchError::InvalidSignature),
{
    let d: &Vec<u8> = match companion {
        Some(d) => d,
        None => {
            return Err(VouchError::InvalidSignature);
        },
    };
    let d_len: usize = d.len();
    if d_len < 2 {
        return Err(VouchError::InvalidSignature);
    }
    let num_signatures = d[0];
    if num_signatures != 1 {
        return Err(VouchError::InvalidSignature);
    }
    if d_len < 16 {
        return Err(VouchError::InvalidSignature);
    }
    let sig_offset: usize = d[2] as usize + 256 * (d[3] as usize);
    let pubkey_offset: usize = d[6] as usize + 256 * (d[7] as usize);
    let msg_offset: usize = d[10] as usize + 256 * (d[11] as usize);
    let msg_size: usize = d[12] as usize + 256 * (d[13] as usize);
    if d_len < sig_offset + ED25519_SIGNATURE_SIZE {
        return Err(VouchError::InvalidSignature);
    }
    if d_len < pubkey_offset + ED25519_PUBKEY_SIZE {
        return Err(VouchError::InvalidSignature);
    }
    if d_len < msg_offset + msg_size {
        return Err(VouchError::InvalidSignature);
    }
    if !range_matches(d, sig_offset, signature) {
        return Err(VouchError::InvalidSignature);
    }
    if !range_matches(d, pubkey_offset, verifier_pubkey) {
        return Err(VouchError::InvalidSignature);
    }
    if msg_size != message.len() {
        return Err(VouchError::InvalidSignature);
    }
    if !range_matches(d, msg_offset, message) {
        return Err(VouchError::InvalidSignature);
    }
    Ok(())
}

/// The credential kind a proof-type code denotes; meaningful for the codes 1
/// and 2 only.
pub open spec fn proof_type_from_code(proof_type_value: u8) -> ProofType {
    if proof_type_value == 1 {
        ProofType::DeveloperReputation
    } else if proof_type_value == 2 {
        ProofType::WhaleTrading
    } else {
        ProofType::Unset
    }
}

/// Every condition an attestation must meet to be recorded: the protocol is
/// running, the verifier is active, the wallet's rate limit accepts, the
/// companion proof binds the canonical message to the verifier's key and the
/// supplied signature, the nullifier is unconsumed, the proof-type code is
/// known, and both audit counters can advance.
pub open spec fn attestation_accepts(
    cfg: ConfigView,
    ver: VerifierView,
    rl: RateLimitView,
    nul: NullifierView,
    attestation_hash: Seq<u8>,
    proof_type_value: u8,
    nullifier: Seq<u8>,
    signature: Seq<u8>,
    companion: Option<Seq<u8>>,
    now: i64,
) -> bool {
    &&& !cfg.is_paused
    &&& ver.is_active
    &&& rate_limit_accepts(rl, cfg, now)
    &&& signature_proof_ok(
        companion,
        ver.verifier,
        signature,
        spec_attestation_message(proof_type_value, nullifier, attestation_hash),
    )
    &&& !nul.is_used
    &&& (proof_type_value == 1 || proof_type_value == 2)
    &&& ver.attestation_count < u64::MAX
    &&& cfg.total_proofs_verified < u64::MAX
}

/// The error reported when an attestation is not recorded, following the
/// order in which the conditions are checked.
pub open spec fn attestation_error(
    cfg: ConfigView,
    ver: VerifierView,
    rl: RateLimitView,
    nul: NullifierView,
    attestation_hash: Seq<u8>,
    proof_type_value: u8,
    nullifier: Seq<u8>,
    signature: Seq<u8>,
    companion: Option<Seq<u8>>,
    now: i64,
) -> VouchError {
    if cfg.is_paused {
        VouchError::ProtocolPaused
    } else if !ver.is_active {
        VouchError::VerifierNotAuthorized
    } else if !rate_limit_accepts(rl, cfg, now) {
        rate_limit_error(rl, cfg, now)
    } else if !signature_proof_ok(
        companion,
        ver.verifier,
        signature,
        spec_attestation_message(proof_type_value, nullifier, attestation_hash),
    ) {
        VouchError::InvalidSignature
    } else if nul.is_used {
        VouchError::NullifierAlreadyUsed
    } else if !(proof_type_value == 1 || proof_type_value == 2) {
        VouchError::InvalidProofType
    } else {
        VouchError::Overflow
    }
}

/// Records one verified attestation: validates pause state, verifier
/// authorization, the wallet's rate limit, the companion signature proof, and
/// nullifier freshness, then consumes the nullifier and advances the audit
/// counters. On any failure nothing changes.
pub fn record_attestation(
    config: &mut ConfigAccount,
    verifier_account: &mut VerifierAccount,
    rate_limit: &mut WalletRateLimit,
    nullifier_account: &mut NullifierAccount,
    attestation_hash: &Vec<u8>,
    proof_type_value: u8,
    nullifier: &Vec<u8>,
    signature: &Vec<u8>,
    companion: Option<&Vec<u8>>,
    now: i64,
) -> (r: Result<(), VouchError>)
    requires
        attestation_hash@.len() == 32,
        nullifier@.len() == 32,
        signature@.len() == 64,
        old(verifier_account)@.verifier.len() == 32,
        old(nullifier_account)@.nullifier == nullifier@,
    ensures
        r is Ok <==> attestation_accepts(
            old(config)@,
            old(verifier_account)@,
            old(rate_limit)@,
            old(nullifier_account)@,
            attestation_hash@,
            proof_type_value,
            nullifier@,
            signature@,
            companion_view(companion),
            now,
        ),
        r is Ok ==> final(config)@ == (ConfigView {
            total_proofs_verified: (old(config)@.total_proofs_verified + 1) as u64,
            ..old(config)@
        }),
        r is Ok ==> final(verifier_account)@ == (VerifierView {
            attestation_count: (old(verifier_account)@.attestation_count + 1) as u64,
            ..old(verifier_account)@
        }),
        r is Ok ==> final(rate_limit)@ == rate_limit_after(old(rate_limit)@, now),
        r is Ok ==> final(rate_limit)@.proofs_today <= old(config)@.max_proofs_per_day,
        r is Ok ==> final(nullifier_account)@ == (NullifierView {
            is_used: true,
            used_at: now,
            proof_type: proof_type_from_code(proof_type_value),
            ..old(nullifier_account)@
        }),
        r is Err ==> final(config)@ == old(config)@ && final(verifier_account)@ == old(
            verifier_account,
        )@ && final(rate_limit)@ == old(rate_limit)@ && final(nullifier_account)@ == old(
            nullifier_account,
        )@,
        r is Err ==> r == Err::<(), VouchError>(
            attestation_error(
                old(config)@,
                old(verifier_account)@,
                old(rate_limit)@,
                old(nullifier_account)@,
                attestation_hash@,
                proof_type_value,
                nullifier@,
                signature@,
                companion_view(companion),
                now,
            ),
        ),
{
    if config.is_paused {
        return Err(VouchError::ProtocolPaused);
    }
    if !verifier_account.is_active {
        return Err(VouchError::VerifierNotAuthorized);
    }
    match rate_limit_check(rate_limit, config, now) {
        Ok(()) => (),
        Err(e) => {
            return Err(e);
        },
    }
    let message = build_attestation_message(proof_type_value, nullifier, attestation_hash);
    match verify_ed25519_signature(companion, &verifier_account.verifier, signature, &message) {
        Ok(()) => (),
        Err(e) => {
            return Err(e);
        },
    }
    if nullifier_account.is_used {
        return Err(VouchError::NullifierAlreadyUsed);
    }
    let proof_type = match proof_type_value {
        1u8 => ProofType::DeveloperReputation,
        2u8 => ProofType::WhaleTrading,
        _ => {
            return Err(VouchError::InvalidProofType);
        },
    };
    let new_attestation_count = match verifier_account.attestation_count.checked_add(1) {
        Some(c) => c,
        None => {
            return Err(VouchError::Overflow);
        },
    };
    let new_total_verified = match config.total_proofs_verified.checked_add(1) {
        Some(t) => t,
        None => {
            return Err(VouchError::Overflow);
        },
    };
    match check_and_update_rate_limit(rate_limit, config, now) {
        Ok(()) => (),
        Err(e) => {
            return Err(e);
        },
    }
    nullifier_account.is_used = true;
    nullifier_account.used_at = now;
    nullifier_account.proof_type = proof_type;
    verifier_account.attestation_count = new_attestation_count;
    config.total_proofs_verified = new_total_verified;
    Ok(())
}

/// Law: a consumed nullifier is never accepted again. Whatever the other
/// inputs, an attestation against a used nullifier record is rejected, and
/// when every check before the nullifier check passes, the reported error is
/// exactly `NullifierAlreadyUsed`.
pub proof fn lemma_nullifier_single_use(
    cfg: ConfigView,
    ver: VerifierView,
    rl: RateLimitView,
    nul: NullifierView,
    attestation_hash: Seq<u8>,
    proof_type_value: u8,
    nullifier: Seq<u8>,
    signature: Seq<u8>,
    companion: Option<Seq<u8>>,
    now: i64,
)
    requires
        nul.is_used,
    ensures
        !attestation_accepts(
            cfg,
            ver,
            rl,
            nul,
            attestation_hash,
            proof_type_value,
            nullifier,
            signature,
            companion,
            now,
        ),
        !cfg.is_paused && ver.is_active && rate_limit_accepts(rl, cfg, now) && signature_proof_ok(
            companion,
            ver.verifier,
            signature,
            spec_attestation_message(proof_type_value, nullifier, attestation_hash),
        ) ==> attestation_error(
            cfg,
            ver,
            rl,
            nul,
            attestation_hash,
            proof_type_value,
            nullifier,
            signature,
            companion,
            now,
        ) == VouchError::NullifierAlreadyUsed,
{
}

/// Law: the companion proof binds its three values exactly. One companion
/// instruction accepts at most one (public key, signature, message) triple,
/// so changing any byte of any of the three makes the same companion data
/// rejected.
pub proof fn lemma_signature_binding_exact(
    d: Seq<u8>,
    pk1: Seq<u8>,
    sig1: Seq<u8>,
    msg1: Seq<u8>,
    pk2: Seq<u8>,
    sig2: Seq<u8>,
    msg2: Seq<u8>,
)
    requires
        ed25519_instruction_binds(d, pk1, sig1, msg1),
        ed25519_instruction_binds(d, pk2, sig2, msg2),
    ensures
        pk1 == pk2,
        sig1 == sig2,
        msg1 == msg2,
{
}

/// Law: the canonical message determines its parts. Two equal attestation
/// messages built from 32-byte nullifiers and hashes agree on the proof-type
/// code, the nullifier and the attestation hash — so tampering with any of
/// the three changes the message.
pub proof fn lemma_attestation_message_injective(
    pt1: u8,
    n1: Seq<u8>,
    h1: Seq<u8>,
    pt2: u8,
    n2: Seq<u8>,
    h2: Seq<u8>,
)
    requires
        n1.len() == 32,
        h1.len() == 32,
        n2.len() == 32,
        h2.len() == 32,
        spec_attestation_message(pt1, n1, h1) == spec_attestation_message(pt2, n2, h2),
    ensures
        pt1 == pt2,
        n1 == n2,
        h1 == h2,
{
    let m1 = spec_attestation_message(pt1, n1, h1);
    let m2 = spec_attestation_message(pt2, n2, h2);
    assert(m1[17] == pt1);
    assert(m2[17] == pt2);
    assert forall|i: int| 0 <= i < 32 implies n1[i] == n2[i] by {
        assert(m1[18 + i] == n1[i]);
        assert(m2[18 + i] == n2[i]);
    }
    assert(n1 =~= n2);
    assert forall|i: int| 0 <= i < 32 implies h1[i] == h2[i] by {
        assert(m1[50 + i] == h1[i]);
        assert(m2[50 + i] == h2[i]);
    }
    assert(h1 =~= h2);
}

} // verus!
