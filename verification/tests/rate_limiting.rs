use vouch_verifier::config::{initialize_config, update_rate_limits};
use vouch_verifier::errors::VouchError;
use vouch_verifier::rate_limit::{check_and_update_rate_limit, init_rate_limit, rate_limit_check};

fn key(tag: u8) -> Vec<u8> {
    vec![tag; 32]
}

#[test]
fn init_rate_limit_starts_clean() {
    let rl = init_rate_limit(key(7), 500);
    assert_eq!(rl.wallet, key(7));
    assert_eq!(rl.proofs_today, 0);
    assert_eq!(rl.last_proof_at, 0);
    assert_eq!(rl.day_start, 500);
    assert_eq!(rl.total_proofs, 0);
}

#[test]
fn cooldown_blocks_rapid_proofs() {
    let t0: i64 = 1_000_000;
    let config = initialize_config(key(1));
    let mut rl = init_rate_limit(key(7), t0);
    assert_eq!(check_and_update_rate_limit(&mut rl, &config, t0), Ok(()));
    assert_eq!(rl.proofs_today, 1);
    assert_eq!(rl.last_proof_at, t0);
    let before = rl.clone();
    assert_eq!(
        check_and_update_rate_limit(&mut rl, &config, t0 + 30),
        Err(VouchError::RateLimitCooldown)
    );
    // A failed check leaves the record untouched.
    assert_eq!(rl.proofs_today, before.proofs_today);
    assert_eq!(rl.last_proof_at, before.last_proof_at);
    assert_eq!(rl.day_start, before.day_start);
    assert_eq!(rl.total_proofs, before.total_proofs);
    assert_eq!(
        check_and_update_rate_limit(&mut rl, &config, t0 + 61),
        Ok(())
    );
    assert_eq!(rl.proofs_today, 2);
    assert_eq!(rl.total_proofs, 2);
}

#[test]
fn daily_quota_blocks_after_max() {
    let t0: i64 = 1_000_000;
    let mut config = initialize_config(key(1));
    assert_eq!(update_rate_limits(&mut config, &key(1), 3, 0), Ok(()));
    let mut rl = init_rate_limit(key(7), t0);
    for i in 0..3 {
        assert_eq!(
            check_and_update_rate_limit(&mut rl, &config, t0 + i),
            Ok(())
        );
    }
    assert_eq!(rl.proofs_today, 3);
    assert_eq!(
        check_and_update_rate_limit(&mut rl, &config, t0 + 10),
        Err(VouchError::DailyRateLimitExceeded)
    );
    assert_eq!(rl.proofs_today, 3);
}

#[test]
fn daily_window_resets_after_a_day() {
    let t0: i64 = 1_000_000;
    let mut config = initialize_config(key(1));
    assert_eq!(update_rate_limits(&mut config, &key(1), 2, 0), Ok(()));
    let mut rl = init_rate_limit(key(7), t0);
    assert_eq!(check_and_update_rate_limit(&mut rl, &config, t0), Ok(()));
    assert_eq!(check_and_update_rate_limit(&mut rl, &config, t0 + 1), Ok(()));
    assert_eq!(
        check_and_update_rate_limit(&mut rl, &config, t0 + 86399),
        Err(VouchError::DailyRateLimitExceeded)
    );
    // One second later the rolling window has expired and slides forward.
    let t1 = t0 + 86400;
    assert_eq!(check_and_update_rate_limit(&mut rl, &config, t1), Ok(()));
    assert_eq!(rl.day_start, t1);
    assert_eq!(rl.proofs_today, 1);
    assert_eq!(rl.total_proofs, 3);
}

#[test]
fn rate_limit_check_does_not_mutate() {
    let t0: i64 = 1_000_000;
    let config = initialize_config(key(1));
    let rl = init_rate_limit(key(7), t0);
    assert_eq!(rate_limit_check(&rl, &config, t0), Ok(()));
    assert_eq!(rl.proofs_today, 0);
    assert_eq!(rl.total_proofs, 0);
}

#[test]
fn clock_going_backwards_saturates() {
    // A clock anomaly (now far before last_proof_at) saturates the elapsed
    // time at the integer floor and reads as "cooldown not elapsed".
    let config = initialize_config(key(1));
    let mut rl = init_rate_limit(key(7), 1_000_000);
    rl.last_proof_at = 1_000_000;
    assert_eq!(
        check_and_update_rate_limit(&mut rl, &config, i64::MIN),
        Err(VouchError::RateLimitCooldown)
    );
}
