//! The cached status of Kiro accounts, and when it is refreshed.

use vstd::prelude::*;
use crate::codex_dispatch::random_between;

verus! {

/// The balance of an account. `A` is an amount of credits.
#[derive(Debug, Clone, PartialEq)]
pub struct AdminKiroBalanceView<A> {
    pub current_usage: A,
    pub usage_limit: A,
    pub remaining: A,
    pub next_reset_at: Option<i64>,
    pub subscription_title: Option<String>,
    pub user_id: Option<String>,
}

/// The balance that the usage limits of an account tell. `first_reset` is the time of the
/// reset that the first of their parts tells, where there is a part; `reset` is what they
/// tell as a whole, which counts where that part tells none.
pub fn admin_kiro_balance_from_usage<A>(
    current_usage: A,
    usage_limit: A,
    remaining: A,
    first_reset: Option<Option<i64>>,
    reset: Option<i64>,
    subscription_title: Option<String>,
    user_id: Option<String>,
) -> (balance: AdminKiroBalanceView<A>)
    ensures
        balance == (AdminKiroBalanceView {
            current_usage,
            usage_limit,
            remaining,
            next_reset_at: match first_reset {
                None => None,
                Some(None) => reset,
                Some(Some(at)) => Some(at),
            },
            subscription_title,
            user_id,
        }),
{
    let next_reset_at: Option<i64> = match first_reset {
        None => None,
        Some(None) => reset,
        Some(Some(at)) => Some(at),
    };
    AdminKiroBalanceView {
        current_usage,
        usage_limit,
        remaining,
        next_reset_at,
        subscription_title,
        user_id,
    }
}

/// How fresh the status of an account is.
pub struct AdminKiroCacheView {
    pub status: String,
    pub refresh_interval_seconds: u64,
    pub last_checked_at: Option<i64>,
    pub last_success_at: Option<i64>,
    pub error_message: Option<String>,
}

/// A new status of an account. `B` is its balance.
pub struct AdminKiroStatusCacheUpdate<B> {
    pub account_name: String,
    pub balance: Option<B>,
    pub refreshed_at_ms: i64,
    pub expires_at_ms: i64,
    pub cache: AdminKiroCacheView,
    pub last_error: Option<String>,
}

/// What is known of an account before its status is refreshed.
pub struct KiroStatusFacts<B> {
    pub account_name: String,
    pub status_refresh_interval_seconds: u64,
    pub cached_balance: Option<B>,
    /// When the status was last fetched with success.
    pub last_success_at: Option<i64>,
}

/// The largest number of seconds whose milliseconds fit.
pub const MAX_SECONDS: u64 = 9223372036854775;

/// When a status expires.
pub open spec fn expiry(now: i64, refresh_interval_seconds: u64) -> int {
    let seconds = if refresh_interval_seconds < MAX_SECONDS {
        refresh_interval_seconds
    } else {
        MAX_SECONDS
    };
    if now + seconds * 1000 > i64::MAX {
        i64::MAX as int
    } else {
        now + seconds * 1000
    }
}

pub fn status_expires_at(now: i64, refresh_interval_seconds: u64) -> (at: i64)
    ensures
        at == expiry(now, refresh_interval_seconds),
{
    let seconds: u64 = if refresh_interval_seconds < MAX_SECONDS {
        refresh_interval_seconds
    } else {
        MAX_SECONDS
    };
    let at: i128 = now as i128 + seconds as i128 * 1000;
    if at > i64::MAX as i128 {
        i64::MAX
    } else {
        at as i64
    }
}

/// A time of day in milliseconds, from the milliseconds since the epoch; before the epoch
/// it is zero.
pub fn now_ms(since_epoch: Option<u128>) -> (now: i64)
    ensures
        now == match since_epoch {
            Some(millis) => if millis > i64::MAX {
                i64::MAX as int
            } else {
                millis as int
            },
            None => 0,
        },
{
    match since_epoch {
        Some(millis) => if millis > i64::MAX as u128 {
            i64::MAX
        } else {
            millis as i64
        },
        None => 0,
    }
}

/// A status fetched with success.
pub open spec fn is_ready<B>(
    update: AdminKiroStatusCacheUpdate<B>,
    facts: KiroStatusFacts<B>,
    now: i64,
    balance: B,
) -> bool {
    &&& update.account_name == facts.account_name
    &&& update.balance == Some(balance)
    &&& update.refreshed_at_ms == now
    &&& update.expires_at_ms == expiry(now, facts.status_refresh_interval_seconds)
    &&& update.cache.status@ == "ready"@
    &&& update.cache.refresh_interval_seconds == facts.status_refresh_interval_seconds
    &&& update.cache.last_checked_at == Some(now)
    &&& update.cache.last_success_at == Some(now)
    &&& update.cache.error_message is None
    &&& update.last_error is None
}

pub fn build_ready_status_update<B>(facts: KiroStatusFacts<B>, now: i64, balance: B) -> (update:
    AdminKiroStatusCacheUpdate<B>)
    ensures
        is_ready(update, facts, now, balance),
{
    let interval: u64 = facts.status_refresh_interval_seconds;
    AdminKiroStatusCacheUpdate {
        account_name: facts.account_name,
        balance: Some(balance),
        refreshed_at_ms: now,
        expires_at_ms: status_expires_at(now, interval),
        cache: AdminKiroCacheView {
            status: "ready".to_owned(),
            refresh_interval_seconds: interval,
            last_checked_at: Some(now),
            last_success_at: Some(now),
            error_message: None,
        },
        last_error: None,
    }
}

/// A status that could not be fetched: an earlier balance stays, and the status is
/// degraded; without one it is an error.
pub open spec fn is_failed<B>(
    update: AdminKiroStatusCacheUpdate<B>,
    facts: KiroStatusFacts<B>,
    now: i64,
    error_message: String,
) -> bool {
    &&& update.account_name == facts.account_name
    &&& update.balance == facts.cached_balance
    &&& update.refreshed_at_ms == now
    &&& update.expires_at_ms == expiry(now, facts.status_refresh_interval_seconds)
    &&& update.cache.status@ == (if facts.cached_balance is Some {
        "degraded"@
    } else {
        "error"@
    })
    &&& update.cache.refresh_interval_seconds == facts.status_refresh_interval_seconds
    &&& update.cache.last_checked_at == Some(now)
    &&& update.cache.last_success_at == facts.last_success_at
    &&& update.cache.error_message == Some(error_message)
    &&& update.last_error == Some(error_message)
}

pub fn build_error_status_update<B>(
    facts: KiroStatusFacts<B>,
    now: i64,
    error_message: String,
) -> (update: AdminKiroStatusCacheUpdate<B>)
    ensures
        is_failed(update, facts, now, error_message),
{
    let interval: u64 = facts.status_refresh_interval_seconds;
    let status = if facts.cached_balance.is_some() {
        "degraded"
    } else {
        "error"
    };
    AdminKiroStatusCacheUpdate {
        account_name: facts.account_name,
        balance: facts.cached_balance,
        refreshed_at_ms: now,
        expires_at_ms: status_expires_at(now, interval),
        cache: AdminKiroCacheView {
            status: status.to_owned(),
            refresh_interval_seconds: interval,
            last_checked_at: Some(now),
            last_success_at: facts.last_success_at,
            error_message: Some(error_message.clone()),
        },
        last_error: Some(error_message),
    }
}

/// An account that is switched off: it has no balance.
pub fn build_disabled_status_update<B>(
    name: &String,
    cache: &AdminKiroCacheView,
    now: i64,
) -> (update: AdminKiroStatusCacheUpdate<B>)
    ensures
        update.account_name == *name,
        update.balance is None,
        update.refreshed_at_ms == now,
        update.expires_at_ms == expiry(now, cache.refresh_interval_seconds),
        update.cache.status@ == "disabled"@,
        update.cache.refresh_interval_seconds == cache.refresh_interval_seconds,
        update.cache.last_checked_at == Some(now),
        update.cache.last_success_at == cache.last_success_at,
        update.cache.error_message is None,
        update.last_error is None,
{
    AdminKiroStatusCacheUpdate {
        account_name: name.clone(),
        balance: None,
        refreshed_at_ms: now,
        expires_at_ms: status_expires_at(now, cache.refresh_interval_seconds),
        cache: AdminKiroCacheView {
            status: "disabled".to_owned(),
            refresh_interval_seconds: cache.refresh_interval_seconds,
            last_checked_at: Some(now),
            last_success_at: cache.last_success_at,
            error_message: None,
        },
        last_error: None,
    }
}

/// The status after an attempt to fetch it.
pub fn refresh_route_status_update<B>(
    facts: KiroStatusFacts<B>,
    now: i64,
    fetched: Result<B, String>,
) -> (update: AdminKiroStatusCacheUpdate<B>)
    ensures
        match fetched {
            Ok(balance) => is_ready(update, facts, now, balance),
            Err(message) => is_failed(update, facts, now, message),
        },
{
    match fetched {
        Ok(balance) => build_ready_status_update(facts, now, balance),
        Err(message) => build_error_status_update(facts, now, message),
    }
}

/// What is done about one account.
#[derive(Debug, Clone, Copy, PartialEq, Eq, Structural)]
pub enum KiroRefreshStep {
    /// Record that it is switched off.
    SaveDisabled,
    /// Nothing leads to it: leave it.
    Skip,
    /// Fetch its status and record what comes of it.
    Fetch,
}

pub fn refresh_account_status(disabled: bool, has_route: bool) -> (step: KiroRefreshStep)
    ensures
        step == (if disabled {
            KiroRefreshStep::SaveDisabled
        } else if has_route {
            KiroRefreshStep::Fetch
        } else {
            KiroRefreshStep::Skip
        }),
{
    if disabled {
        KiroRefreshStep::SaveDisabled
    } else if has_route {
        KiroRefreshStep::Fetch
    } else {
        KiroRefreshStep::Skip
    }
}

/// The seconds until the next round: some number between the two bounds, whichever of them
/// is the smaller. Where they differ it rests on chance.
pub fn next_kiro_refresh_delay(a_seconds: u64, b_seconds: u64) -> (seconds: u64)
    ensures
        a_seconds <= b_seconds ==> a_seconds <= seconds <= b_seconds,
        b_seconds <= a_seconds ==> b_seconds <= seconds <= a_seconds,
{
    if a_seconds <= b_seconds {
        random_between(a_seconds, b_seconds)
    } else {
        random_between(b_seconds, a_seconds)
    }
}

/// The seconds between two accounts of one round: at most the bound. It rests on chance.
pub fn next_kiro_account_jitter(max_seconds: u64) -> (seconds: u64)
    ensures
        seconds <= max_seconds,
{
    if max_seconds == 0 {
        0
    } else {
        random_between(0, max_seconds)
    }
}

// ---------------------------------------------------------------------------
// Laws
// ---------------------------------------------------------------------------

/// A status never expires before it was made.
pub proof fn law_status_expires_later(now: i64, refresh_interval_seconds: u64)
    ensures
        expiry(now, refresh_interval_seconds) >= now,
{
}

/// Failed attempts, however many, keep the balance and the time of the last success.
pub proof fn law_failures_keep_the_balance<B>(
    facts: KiroStatusFacts<B>,
    first: AdminKiroStatusCacheUpdate<B>,
    next: KiroStatusFacts<B>,
    second: AdminKiroStatusCacheUpdate<B>,
    at: i64,
    later: i64,
    error: String,
    again: String,
)
    requires
        is_failed(first, facts, at, error),
        next.cached_balance == first.balance,
        next.last_success_at == first.cache.last_success_at,
        is_failed(second, next, later, again),
    ensures
        second.balance == facts.cached_balance,
        second.cache.last_success_at == facts.last_success_at,
        second.cache.status@ == first.cache.status@,
{
}

/// A status is kept for its interval, where that fits in the range of times.
pub proof fn law_a_status_is_kept_for_its_interval(now: i64, refresh_interval_seconds: u64)
    ensures
        now + refresh_interval_seconds * 1000 <= i64::MAX && refresh_interval_seconds
            <= 9223372036854775 ==> expiry(now, refresh_interval_seconds) == now
            + refresh_interval_seconds * 1000,
        now + refresh_interval_seconds * 1000 > i64::MAX && now >= 0 ==> expiry(
            now,
            refresh_interval_seconds,
        ) >= now,
        expiry(now, refresh_interval_seconds) <= i64::MAX,
{
}

/// A success tells the balance, the time, and no error; a failure after it tells the error,
/// is degraded rather than an error, and keeps the balance and the time of the success.
pub proof fn law_a_failure_after_a_success_is_degraded<B>(
    facts: KiroStatusFacts<B>,
    first: AdminKiroStatusCacheUpdate<B>,
    next: KiroStatusFacts<B>,
    second: AdminKiroStatusCacheUpdate<B>,
    at: i64,
    later: i64,
    balance: B,
    error: String,
)
    requires
        is_ready(first, facts, at, balance),
        next.cached_balance == first.balance,
        next.last_success_at == first.cache.last_success_at,
        is_failed(second, next, later, error),
    ensures
        first.last_error is None,
        first.cache.error_message is None,
        first.cache.status@ == "ready"@,
        second.balance == Some(balance),
        second.cache.status@ == "degraded"@,
        second.cache.last_success_at == Some(at),
        second.cache.last_checked_at == Some(later),
        second.last_error == Some(error),
        second.cache.error_message == Some(error),
{
}

/// A failure without any balance is an error.
pub proof fn law_a_failure_without_a_balance_is_an_error<B>(
    facts: KiroStatusFacts<B>,
    update: AdminKiroStatusCacheUpdate<B>,
    now: i64,
    error: String,
)
    requires
        facts.cached_balance is None,
        is_failed(update, facts, now, error),
    ensures
        update.balance is None,
        update.cache.status@ == "error"@,
        update.cache.last_success_at == facts.last_success_at,
        update.account_name == facts.account_name,
{
}

} // verus!
