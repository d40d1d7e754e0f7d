use vouch_verifier::attestation::{
    build_attestation_message, record_attestation, verify_ed25519_signature,
};
use vouch_verifier::config::initialize_config;
use vouch_verifier::errors::VouchError;
use vouch_verifier::nullifier::{init_nullifier, ProofType};
use vouch_verifier::rate_limit::init_rate_limit;
use vouch_verifier::verifier_registry::add_verifier;

fn key(tag: u8) -> Vec<u8> {
    vec![tag; 32]
}

fn sig(tag: u8) -> Vec<u8> {
    vec![tag; 64]
}

/// The host's Ed25519 verification instruction data for one signature: a
/// 16-byte header of count, padding and little-endian offsets, then the
/// signature, the public key and the message.
fn companion_data(signature: &[u8], pubkey: &[u8], message: &[u8]) -> Vec<u8> {
    let sig_offset: u16 = 16;
    let pubkey_offset: u16 = 16 + 64;
    let msg_offset: u16 = 16 + 64 + 32;
    let mut d = vec![1u8, 0u8];
    d.extend_from_slice(&sig_offset.to_le_bytes());
    d.extend_from_slice(&0u16.to_le_bytes());
    d.extend_from_slice(&pubkey_offset.to_le_bytes());
    d.extend_from_slice(&0u16.to_le_bytes());
    d.extend_from_slice(&msg_offset.to_le_bytes());
    d.extend_from_slice(&(message.len() as u16).to_le_bytes());
    d.extend_from_slice(&0u16.to_le_bytes());
    d.extend_from_slice(signature);
    d.extend_from_slice(pubkey);
    d.extend_from_slice(message);
    d
}

#[test]
fn message_layout_is_exact() {
    let message = build_attestation_message(1, &key(5), &key(6));
    assert_eq!(message.len(), 82);
    assert_eq!(&message[0..17], b"vouch_attestation");
    assert_eq!(message[17], 1);
    assert_eq!(&message[18..50], key(5).as_slice());
    assert_eq!(&message[50..82], key(6).as_slice());
}

#[test]
fn signature_check_accepts_exact_binding() {
    let message = build_attestation_message(1, &key(5), &key(6));
    let d = companion_data(&sig(3), &key(9), &message);
    assert_eq!(
        verify_ed25519_signature(Some(&d), &key(9), &sig(3), &message),
        Ok(())
    );
}

#[test]
fn signature_check_rejects_missing_companion() {
    let message = build_attestation_message(1, &key(5), &key(6));
    assert_eq!(
        verify_ed25519_signature(None, &key(9), &sig(3), &message),
        Err(VouchError::InvalidSignature)
    );
}

// Tamper test: flipping any single byte of the signed message, the public
// key, or the signature inside the companion data must cause rejection.
#[test]
fn signature_check_rejects_any_flipped_byte() {
    let message = build_attestation_message(1, &key(5), &key(6));
    let d = companion_data(&sig(3), &key(9), &message);
    for i in 16..d.len() {
        let mut tampered = d.clone();
        tampered[i] ^= 1;
        assert_eq!(
            verify_ed25519_signature(Some(&tampered), &key(9), &sig(3), &message),
            Err(VouchError::InvalidSignature),
            "flipping byte {} must be rejected",
            i
        );
    }
}

#[test]
fn signature_check_rejects_wrong_count_and_short_data() {
    let message = build_attestation_message(1, &key(5), &key(6));
    let d = companion_data(&sig(3), &key(9), &message);
    let mut two_sigs = d.clone();
    two_sigs[0] = 2;
    assert_eq!(
        verify_ed25519_signature(Some(&two_sigs), &key(9), &sig(3), &message),
        Err(VouchError::InvalidSignature)
    );
    let short = vec![1u8];
    assert_eq!(
        verify_ed25519_signature(Some(&short), &key(9), &sig(3), &message),
        Err(VouchError::InvalidSignature)
    );
}

// Scenario: an attestation inside the cooldown fails, one after it succeeds.
#[test]
fn attestation_cooldown_then_retry() {
    let t0: i64 = 1_000_000;
    let mut config = initialize_config(key(1));
    let mut verifier = add_verifier(&mut config, &key(1), key(9), t0).unwrap();
    let mut rl = init_rate_limit(key(7), t0);
    let mut nul_a = init_nullifier(key(5));
    let hash = key(6);
    let message = build_attestation_message(1, &key(5), &hash);
    let d = companion_data(&sig(3), &key(9), &message);
    assert_eq!(
        record_attestation(
            &mut config,
            &mut verifier,
            &mut rl,
            &mut nul_a,
            &hash,
            1,
            &key(5),
            &sig(3),
            Some(&d),
            t0,
        ),
        Ok(())
    );
    assert!(nul_a.is_used);
    assert_eq!(nul_a.used_at, t0);
    assert_eq!(nul_a.proof_type, ProofType::DeveloperReputation);
    assert_eq!(rl.proofs_today, 1);
    assert_eq!(verifier.attestation_count, 1);
    assert_eq!(config.total_proofs_verified, 1);

    // An immediate retry with a fresh nullifier fails the cooldown.
    let mut nul_b = init_nullifier(key(15));
    let message_b = build_attestation_message(1, &key(15), &hash);
    let d_b = companion_data(&sig(3), &key(9), &message_b);
    assert_eq!(
        record_attestation(
            &mut config,
            &mut verifier,
            &mut rl,
            &mut nul_b,
            &hash,
            1,
            &key(15),
            &sig(3),
            Some(&d_b),
            t0 + 30,
        ),
        Err(VouchError::RateLimitCooldown)
    );
    assert!(!nul_b.is_used);
    assert_eq!(rl.proofs_today, 1);
    assert_eq!(verifier.attestation_count, 1);
    assert_eq!(config.total_proofs_verified, 1);

    // After the cooldown the same attestation goes through.
    assert_eq!(
        record_attestation(
            &mut config,
            &mut verifier,
            &mut rl,
            &mut nul_b,
            &hash,
            1,
            &key(15),
            &sig(3),
            Some(&d_b),
            t0 + 61,
        ),
        Ok(())
    );
    assert_eq!(rl.proofs_today, 2);
    assert!(nul_b.is_used);
}

// Scenario: a signature that does not match the verifier's identity is
// rejected and the nullifier record stays unconsumed.
#[test]
fn attestation_wrong_verifier_identity_rejected() {
    let t0: i64 = 1_000_000;
    let mut config = initialize_config(key(1));
    let mut verifier = add_verifier(&mut config, &key(1), key(9), t0).unwrap();
    let mut rl = init_rate_limit(key(7), t0);
    let mut nul = init_nullifier(key(5));
    let hash = key(6);
    let message = build_attestation_message(1, &key(5), &hash);
    // The companion step verified a different public key than the verifier's.
    let d = companion_data(&sig(3), &key(10), &message);
    assert_eq!(
        record_attestation(
            &mut config,
            &mut verifier,
            &mut rl,
            &mut nul,
            &hash,
            1,
            &key(5),
            &sig(3),
            Some(&d),
            t0,
        ),
        Err(VouchError::InvalidSignature)
    );
    assert!(!nul.is_used);
    assert_eq!(nul.proof_type, ProofType::Unset);
    assert_eq!(rl.proofs_today, 0);
    assert_eq!(rl.total_proofs, 0);
    assert_eq!(verifier.attestation_count, 0);
    assert_eq!(config.total_proofs_verified, 0);
}

// A consumed nullifier is never consumed again; the second call fails with
// the already-used error and changes no counter.
#[test]
fn attestation_nullifier_used_once() {
    let t0: i64 = 1_000_000;
    let mut config = initialize_config(key(1));
    let mut verifier = add_verifier(&mut config, &key(1), key(9), t0).unwrap();
    let mut rl = init_rate_limit(key(7), t0);
    let mut nul = init_nullifier(key(5));
    let hash = key(6);
    let message = build_attestation_message(2, &key(5), &hash);
    let d = companion_data(&sig(3), &key(9), &message);
    assert_eq!(
        record_attestation(
            &mut config,
            &mut verifier,
            &mut rl,
            &mut nul,
            &hash,
            2,
            &key(5),
            &sig(3),
            Some(&d),
            t0,
        ),
        Ok(())
    );
    assert_eq!(nul.proof_type, ProofType::WhaleTrading);
    assert_eq!(
        record_attestation(
            &mut config,
            &mut verifier,
            &mut rl,
            &mut nul,
            &hash,
            2,
            &key(5),
            &sig(3),
            Some(&d),
            t0 + 100,
        ),
        Err(VouchError::NullifierAlreadyUsed)
    );
    assert_eq!(nul.used_at, t0);
    assert_eq!(rl.proofs_today, 1);
    assert_eq!(rl.total_proofs, 1);
    assert_eq!(verifier.attestation_count, 1);
    assert_eq!(config.total_proofs_verified, 1);
}

#[test]
fn attestation_rejects_unknown_proof_type_code() {
    let t0: i64 = 1_000_000;
    let mut config = initialize_config(key(1));
    let mut verifier = add_verifier(&mut config, &key(1), key(9), t0).unwrap();
    let mut rl = init_rate_limit(key(7), t0);
    let mut nul = init_nullifier(key(5));
    let hash = key(6);
    let message = build_attestation_message(3, &key(5), &hash);
    let d = companion_data(&sig(3), &key(9), &message);
    assert_eq!(
        record_attestation(
            &mut config,
            &mut verifier,
            &mut rl,
            &mut nul,
            &hash,
            3,
            &key(5),
            &sig(3),
            Some(&d),
            t0,
        ),
        Err(VouchError::InvalidProofType)
    );
    assert!(!nul.is_used);
    assert_eq!(rl.proofs_today, 0);
    assert_eq!(config.total_proofs_verified, 0);
}

#[test]
fn attestation_rejects_paused_and_inactive() {
    let t0: i64 = 1_000_000;
    let mut config = initialize_config(key(1));
    let mut verifier = add_verifier(&mut config, &key(1), key(9), t0).unwrap();
    let mut rl = init_rate_limit(key(7), t0);
    let mut nul = init_nullifier(key(5));
    let hash = key(6);
    let message = build_attestation_message(1, &key(5), &hash);
    let d = companion_data(&sig(3), &key(9), &message);
    verifier.is_active = false;
    assert_eq!(
        record_attestation(
            &mut config,
            &mut verifier,
            &mut rl,
            &mut nul,
            &hash,
            1,
            &key(5),
            &sig(3),
            Some(&d),
            t0,
        ),
        Err(VouchError::VerifierNotAuthorized)
    );
    verifier.is_active = true;
    config.is_paused = true;
    assert_eq!(
        record_attestation(
            &mut config,
            &mut verifier,
            &mut rl,
            &mut nul,
            &hash,
            1,
            &key(5),
            &sig(3),
            Some(&d),
            t0,
        ),
        Err(VouchError::ProtocolPaused)
    );
    assert!(!nul.is_used);
}
