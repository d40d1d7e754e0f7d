use vouch_verifier::config::{
    initialize_config, pause_protocol, transfer_admin, unpause_protocol, update_rate_limits,
};
use vouch_verifier::errors::VouchError;
use vouch_verifier::verifier_registry::{add_verifier, remove_verifier};

fn key(tag: u8) -> Vec<u8> {
    vec![tag; 32]
}

#[test]
fn initialize_sets_defaults() {
    let config = initialize_config(key(1));
    assert_eq!(config.admin, key(1));
    assert_eq!(config.pause_authority, key(1));
    assert_eq!(config.verifier_count, 0);
    assert!(!config.is_paused);
    assert_eq!(config.max_proofs_per_day, 10);
    assert_eq!(config.cooldown_seconds, 60);
    assert_eq!(config.total_proofs_verified, 0);
}

#[test]
fn pause_requires_pause_authority() {
    let mut config = initialize_config(key(1));
    assert_eq!(
        pause_protocol(&mut config, &key(2)),
        Err(VouchError::Unauthorized)
    );
    assert!(!config.is_paused);
    assert_eq!(pause_protocol(&mut config, &key(1)), Ok(()));
    assert!(config.is_paused);
}

#[test]
fn pause_twice_is_already_paused() {
    let mut config = initialize_config(key(1));
    assert_eq!(pause_protocol(&mut config, &key(1)), Ok(()));
    assert_eq!(
        pause_protocol(&mut config, &key(1)),
        Err(VouchError::AlreadyPaused)
    );
    assert!(config.is_paused);
}

#[test]
fn unpause_when_running_is_not_paused() {
    let mut config = initialize_config(key(1));
    assert_eq!(
        unpause_protocol(&mut config, &key(1)),
        Err(VouchError::NotPaused)
    );
    assert_eq!(pause_protocol(&mut config, &key(1)), Ok(()));
    assert_eq!(unpause_protocol(&mut config, &key(1)), Ok(()));
    assert!(!config.is_paused);
}

// Scenario: pausing blocks verifier management, unpausing restores it.
#[test]
fn paused_protocol_blocks_add_verifier() {
    let mut config = initialize_config(key(1));
    assert_eq!(pause_protocol(&mut config, &key(1)), Ok(()));
    assert_eq!(
        add_verifier(&mut config, &key(1), key(9), 100).unwrap_err(),
        VouchError::ProtocolPaused
    );
    assert_eq!(config.verifier_count, 0);
    assert_eq!(unpause_protocol(&mut config, &key(1)), Ok(()));
    let verifier = add_verifier(&mut config, &key(1), key(9), 100).unwrap();
    assert!(verifier.is_active);
    assert_eq!(verifier.verifier, key(9));
    assert_eq!(verifier.added_at, 100);
    assert_eq!(verifier.attestation_count, 0);
    assert_eq!(config.verifier_count, 1);
}

#[test]
fn add_verifier_requires_admin() {
    let mut config = initialize_config(key(1));
    assert_eq!(
        add_verifier(&mut config, &key(2), key(9), 100).unwrap_err(),
        VouchError::Unauthorized
    );
    assert_eq!(config.verifier_count, 0);
}

#[test]
fn remove_verifier_deactivates_and_floors_count() {
    let mut config = initialize_config(key(1));
    let mut verifier = add_verifier(&mut config, &key(1), key(9), 100).unwrap();
    assert_eq!(remove_verifier(&mut config, &mut verifier, &key(1)), Ok(()));
    assert!(!verifier.is_active);
    assert_eq!(config.verifier_count, 0);
    // A second removal still succeeds; the count saturates at zero.
    let mut other = add_verifier(&mut config, &key(1), key(8), 101).unwrap();
    config.verifier_count = 0;
    assert_eq!(remove_verifier(&mut config, &mut other, &key(1)), Ok(()));
    assert_eq!(config.verifier_count, 0);
}

#[test]
fn remove_verifier_requires_admin_and_running() {
    let mut config = initialize_config(key(1));
    let mut verifier = add_verifier(&mut config, &key(1), key(9), 100).unwrap();
    assert_eq!(
        remove_verifier(&mut config, &mut verifier, &key(2)),
        Err(VouchError::Unauthorized)
    );
    assert_eq!(pause_protocol(&mut config, &key(1)), Ok(()));
    assert_eq!(
        remove_verifier(&mut config, &mut verifier, &key(1)),
        Err(VouchError::ProtocolPaused)
    );
    assert!(verifier.is_active);
}

#[test]
fn update_rate_limits_validates_parameters() {
    let mut config = initialize_config(key(1));
    assert_eq!(
        update_rate_limits(&mut config, &key(2), 5, 30),
        Err(VouchError::Unauthorized)
    );
    assert_eq!(
        update_rate_limits(&mut config, &key(1), 0, 30),
        Err(VouchError::InvalidRateLimit)
    );
    assert_eq!(
        update_rate_limits(&mut config, &key(1), 5, -1),
        Err(VouchError::InvalidRateLimit)
    );
    assert_eq!(config.max_proofs_per_day, 10);
    assert_eq!(config.cooldown_seconds, 60);
    assert_eq!(update_rate_limits(&mut config, &key(1), 5, 30), Ok(()));
    assert_eq!(config.max_proofs_per_day, 5);
    assert_eq!(config.cooldown_seconds, 30);
}

#[test]
fn transfer_admin_also_moves_pause_authority() {
    let mut config = initialize_config(key(1));
    assert_eq!(
        transfer_admin(&mut config, &key(2), key(3)),
        Err(VouchError::Unauthorized)
    );
    assert_eq!(transfer_admin(&mut config, &key(1), key(3)), Ok(()));
    assert_eq!(config.admin, key(3));
    assert_eq!(config.pause_authority, key(3));
    // The old admin can no longer pause; the new one can.
    assert_eq!(
        pause_protocol(&mut config, &key(1)),
        Err(VouchError::Unauthorized)
    );
    assert_eq!(pause_protocol(&mut config, &key(3)), Ok(()));
}
