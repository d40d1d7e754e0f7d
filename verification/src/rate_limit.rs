//! Per-wallet rate limiting: a cooldown between successive proofs and a
//! rolling daily quota. The check and the update are one atomic step: a
//! failed check leaves the record untouched.
use vstd::prelude::*;

use crate::config::{ConfigAccount, ConfigView};
use crate::errors::VouchError;
use crate::SECONDS_PER_DAY;

verus! {

/// Rate-limit tracking for one wallet.
#[derive(Debug, Clone)]
pub struct WalletRateLimit {
    /// The wallet being rate limited.
    pub wallet: Vec<u8>,
    /// Proofs accepted inside the current rolling day.
    pub proofs_today: u32,
    /// Time of the last accepted proof.
    pub last_proof_at: i64,
    /// Start of the current rolling day.
    pub day_start: i64,
    /// Total proofs ever accepted for this wallet.
    pub total_proofs: u64,
}

/// The mathematical value of a [`WalletRateLimit`].
#[verifier::ext_equal]
pub struct RateLimitView {
    pub wallet: Seq<u8>,
    pub proofs_today: u32,
    pub last_proof_at: i64,
    pub day_start: i64,
    pub total_proofs: u64,
}

impl View for WalletRateLimit {
    type V = RateLimitView;

    open spec fn view(&self) -> RateLimitView {
        RateLimitView {
            wallet: self.wallet@,
            proofs_today: self.proofs_today,
            last_proof_at: self.last_proof_at,
            day_start: self.day_start,
            total_proofs: self.total_proofs,
        }
    }
}

/// `a - b`, saturated to the range of `i64`.
pub open spec fn sat_sub_i64(a: int, b: int) -> int {
    if a - b > i64::MAX {
        i64::MAX as int
    } else if a - b < i64::MIN {
        i64::MIN as int
    } else {
        a - b
    }
}

/// Saturating `i64` subtraction, matching [`sat_sub_i64`].
pub fn saturating_sub_i64(a: i64, b: i64) -> (r: i64)
    ensures
        r == sat_sub_i64(a as int, b as int),
{
    match a.checked_sub(b) {
        Some(v) => v,
        None => if b >= 0 {
            i64::MIN
        } else {
            i64::MAX
        },
    }
}

/// The cooldown has elapsed since the wallet's last accepted proof.
pub open spec fn cooldown_ok(rl: RateLimitView, cfg: ConfigView, now: i64) -> bool {
    sat_sub_i64(now as int, rl.last_proof_at as int) >= cfg.cooldown_seconds
}

/// The rolling daily window has expired, so the daily counter resets.
pub open spec fn window_expired(rl: RateLimitView, now: i64) -> bool {
    sat_sub_i64(now as int, rl.day_start as int) >= SECONDS_PER_DAY
}

/// The daily count the check runs against: zero if the window just expired,
/// the stored count otherwise.
pub open spec fn effective_proofs_today(rl: RateLimitView, now: i64) -> int {
    if window_expired(rl, now) {
        0
    } else {
        rl.proofs_today as int
    }
}

/// The rate limiter accepts a proof at time `now`: the cooldown has elapsed,
/// the daily quota is not exhausted, and the lifetime counter can advance.
pub open spec fn rate_limit_accepts(rl: RateLimitView, cfg: ConfigView, now: i64) -> bool {
    &&& cooldown_ok(rl, cfg, now)
    &&& effective_proofs_today(rl, now) < cfg.max_proofs_per_day
    &&& rl.total_proofs < u64::MAX
}

/// The error the rate limiter reports when it does not accept.
pub open spec fn rate_limit_error(rl: RateLimitView, cfg: ConfigView, now: i64) -> VouchError {
    if !cooldown_ok(rl, cfg, now) {
        VouchError::RateLimitCooldown
    } else if effective_proofs_today(rl, now) >= cfg.max_proofs_per_day {
        VouchError::DailyRateLimitExceeded
    } else {
        VouchError::Overflow
    }
}

/// The record after an accepted proof at time `now`: the window advances if
/// it had expired, the daily and lifetime counters advance, and `now` becomes
/// the last proof time.
pub open spec fn rate_limit_after(rl: RateLimitView, now: i64) -> RateLimitView {
    RateLimitView {
        proofs_today: (effective_proofs_today(rl, now) + 1) as u32,
        total_proofs: (rl.total_proofs + 1) as u64,
        last_proof_at: now,
        day_start: if window_expired(rl, now) {
            now
        } else {
            rl.day_start
        },
        ..rl
    }
}

/// Creates rate-limit tracking for a wallet, with no proofs recorded and the
/// rolling day starting at `now`.
pub fn init_rate_limit(wallet: Vec<u8>, now: i64) -> (rate_limit: WalletRateLimit)
    requires
        wallet@.len() == 32,
    ensures
        rate_limit@ == (RateLimitView {
            wallet: wallet@,
            proofs_today: 0,
            last_proof_at: 0,
            day_start: now,
            total_proofs: 0,
        }),
{
    WalletRateLimit { wallet, proofs_today: 0, last_proof_at: 0, day_start: now, total_proofs: 0 }
}

/// Decides whether the rate limiter accepts a proof at time `now`, without
/// changing the record.
pub fn rate_limit_check(rate_limit: &WalletRateLimit, config: &ConfigAccount, now: i64) -> (r:
    Result<(), VouchError>)
    ensures
        r is Ok <==> rate_limit_accepts(rate_limit@, config@, now),
        r is Err ==> r == Err::<(), VouchError>(rate_limit_error(rate_limit@, config@, now)),
{
    let elapsed = saturating_sub_i64(now, rate_limit.last_proof_at);
    if elapsed < config.cooldown_seconds {
        return Err(VouchError::RateLimitCooldown);
    }
    let since_day_start = saturating_sub_i64(now, rate_limit.day_start);
    let effective: u32 = if since_day_start >= SECONDS_PER_DAY {
        0
    } else {
        rate_limit.proofs_today
    };
    if effective >= config.max_proofs_per_day {
        return Err(VouchError::DailyRateLimitExceeded);
    }
    if rate_limit.total_proofs == u64::MAX {
        return Err(VouchError::Overflow);
    }
    Ok(())
}

/// Checks the rate limit and, if it accepts, records the proof: one atomic
/// step. On failure the record is unchanged.
pub fn check_and_update_rate_limit(
    rate_limit: &mut WalletRateLimit,
    config: &ConfigAccount,
    now: i64,
) -> (r: Result<(), VouchError>)
    ensures
        r is Ok <==> rate_limit_accepts(old(rate_limit)@, config@, now),
        r is Ok ==> final(rate_limit)@ == rate_limit_after(old(rate_limit)@, now),
        r is Ok ==> final(rate_limit)@.proofs_today <= config@.max_proofs_per_day,
        r is Err ==> final(rate_limit)@ == old(rate_limit)@ && r == Err::<(), VouchError>(
            rate_limit_error(old(rate_limit)@, config@, now),
        ),
{
    let elapsed = saturating_sub_i64(now, rate_limit.last_proof_at);
    if elapsed < config.cooldown_seconds {
        return Err(VouchError::RateLimitCooldown);
    }
    let since_day_start = saturating_sub_i64(now, rate_limit.day_start);
    let reset: bool = since_day_start >= SECONDS_PER_DAY;
    let effective: u32 = if reset {
        0
    } else {
        rate_limit.proofs_today
    };
    if effective >= config.max_proofs_per_day {
        return Err(VouchError::DailyRateLimitExceeded);
    }
    let new_total = match rate_limit.total_proofs.checked_add(1) {
        Some(t) => t,
        None => {
            return Err(VouchError::Overflow);
        },
    };
    if reset {
        rate_limit.day_start = now;
    }
    rate_limit.proofs_today = effective + 1;
    rate_limit.last_proof_at = now;
    rate_limit.total_proofs = new_total;
    Ok(())
}

/// Law: the daily quota is enforced. After any accepted proof the daily
/// counter is at most the configured maximum, so a wallet can never hold more
/// than `max_proofs_per_day` accepted proofs inside one rolling day.
pub proof fn lemma_daily_quota_enforced(rl: RateLimitView, cfg: ConfigView, now: i64)
    requires
        rate_limit_accepts(rl, cfg, now),
    ensures
        rate_limit_after(rl, now).proofs_today <= cfg.max_proofs_per_day,
{
}

/// Law: the cooldown is enforced. An accepted proof at time `now` implies the
/// cooldown has elapsed since the wallet's last accepted proof.
pub proof fn lemma_cooldown_enforced(rl: RateLimitView, cfg: ConfigView, now: i64)
    requires
        rate_limit_accepts(rl, cfg, now),
    ensures
        sat_sub_i64(now as int, rl.last_proof_at as int) >= cfg.cooldown_seconds,
{
}

/// Law: no two accepted proofs of one wallet closer together than the
/// cooldown. If a proof is accepted at `t1` and a second one at `t2` against
/// the record the first one left behind, then at least `cooldown_seconds`
/// separate the two.
pub proof fn lemma_no_rapid_repeat(rl: RateLimitView, cfg: ConfigView, t1: i64, t2: i64)
    requires
        rate_limit_accepts(rl, cfg, t1),
        rate_limit_accepts(rate_limit_after(rl, t1), cfg, t2),
    ensures
        sat_sub_i64(t2 as int, t1 as int) >= cfg.cooldown_seconds,
{
}

} // verus!
