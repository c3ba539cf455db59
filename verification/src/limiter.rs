//! Request limits per key or account, and the cooldowns of Codex accounts. Times
//! are nanoseconds on one monotonic clock.

use vstd::prelude::*;
use crate::errors::{anthropic_error, anthropic_json_error, text_reply, Reply};
use crate::json::shown_text;
use crate::name_map::NameMap;
use crate::text::{concat2, decimal, decimal_of};
use crate::types::AuthenticatedKey;
use crate::usage_meta::NANOS_PER_MILLI;

verus! {

/// What is known of one limited scope.
#[derive(Debug, Clone, Copy)]
pub struct ScopeState {
    pub in_flight: u64,
    pub last_start_ns: Option<u128>,
}

#[derive(Debug, Clone, Copy, PartialEq, Eq, Structural)]
pub enum LimitReason {
    MaxConcurrency,
    MinStartInterval,
}

/// Why a request may not start yet.
#[derive(Debug, Clone, Copy)]
pub struct LimitRejection {
    pub reason: LimitReason,
    pub in_flight: u64,
    pub max_concurrency: Option<u64>,
    pub min_start_interval_ms: Option<u64>,
    pub wait_ns: Option<u128>,
    pub elapsed_since_last_start_ms: Option<u64>,
}

/// A started request; hand it back to `release` when the request ends.
pub struct LimitPermit {
    pub scope: String,
}

pub struct RequestLimiter {
    scopes: NameMap<ScopeState>,
}

/// A limit of zero is no limit.
pub open spec fn active_limit(limit: Option<u64>) -> Option<u64> {
    match limit {
        Some(n) => if n > 0 {
            Some(n)
        } else {
            None
        },
        None => None,
    }
}

pub open spec fn fresh_scope() -> ScopeState {
    ScopeState { in_flight: 0, last_start_ns: None }
}

/// The time since the scope's last start.
pub open spec fn since_start(state: ScopeState, now_ns: u128) -> Option<u128> {
    match state.last_start_ns {
        Some(start) => Some(
            if now_ns < start {
                0
            } else {
                (now_ns - start) as u128
            },
        ),
        None => None,
    }
}

/// How much of the minimal interval is still to pass; nothing once it is over.
pub open spec fn interval_wait(
    state: ScopeState,
    min_start_interval_ms: Option<u64>,
    now_ns: u128,
) -> Option<u128> {
    match (active_limit(min_start_interval_ms), since_start(state, now_ns)) {
        (Some(ms), Some(elapsed)) => if elapsed <= ms * NANOS_PER_MILLI {
            Some((ms * NANOS_PER_MILLI - elapsed) as u128)
        } else {
            None
        },
        _ => None,
    }
}

pub open spec fn has_room(state: ScopeState, max_concurrency: Option<u64>) -> bool {
    match active_limit(max_concurrency) {
        Some(limit) => state.in_flight < limit,
        None => true,
    }
}

/// Whether a request may start in a scope.
pub open spec fn may_start(
    state: ScopeState,
    max_concurrency: Option<u64>,
    min_start_interval_ms: Option<u64>,
    now_ns: u128,
) -> bool {
    has_room(state, max_concurrency) && interval_wait(state, min_start_interval_ms, now_ns) is None
}

pub open spec fn started(state: ScopeState, now_ns: u128) -> ScopeState {
    ScopeState {
        in_flight: if state.in_flight == u64::MAX {
            u64::MAX
        } else {
            (state.in_flight + 1) as u64
        },
        last_start_ns: Some(now_ns),
    }
}

pub open spec fn finished(state: ScopeState) -> ScopeState {
    ScopeState {
        in_flight: if state.in_flight == 0 {
            0
        } else {
            (state.in_flight - 1) as u64
        },
        ..state
    }
}

pub open spec fn millis_u64(ns: u128) -> u64 {
    if ns / NANOS_PER_MILLI > u64::MAX {
        u64::MAX
    } else {
        (ns / NANOS_PER_MILLI) as u64
    }
}

/// The rejection of a request that may not start.
pub open spec fn rejection_of(
    state: ScopeState,
    max_concurrency: Option<u64>,
    min_start_interval_ms: Option<u64>,
    now_ns: u128,
) -> LimitRejection {
    LimitRejection {
        reason: if has_room(state, max_concurrency) {
            LimitReason::MinStartInterval
        } else {
            LimitReason::MaxConcurrency
        },
        in_flight: state.in_flight,
        max_concurrency: active_limit(max_concurrency),
        min_start_interval_ms,
        wait_ns: match interval_wait(state, min_start_interval_ms, now_ns) {
            Some(wait) => Some(wait),
            None => Some((10 * NANOS_PER_MILLI) as u128),
        },
        elapsed_since_last_start_ms: match since_start(state, now_ns) {
            Some(elapsed) => Some(millis_u64(elapsed)),
            None => None,
        },
    }
}

fn active(limit: Option<u64>) -> (result: Option<u64>)
    ensures
        result == active_limit(limit),
{
    match limit {
        Some(n) => if n > 0 {
            Some(n)
        } else {
            None
        },
        None => None,
    }
}

fn to_millis(ns: u128) -> (result: u64)
    ensures
        result == millis_u64(ns),
{
    let ms: u128 = ns / NANOS_PER_MILLI;
    if ms > 18446744073709551615 {
        u64::MAX
    } else {
        ms as u64
    }
}

impl RequestLimiter {
    /// The state of every scope that was asked for.
    pub closed spec fn view(&self) -> Map<Seq<char>, ScopeState> {
        self.scopes@
    }

    /// The state of a scope; one that was never asked for is fresh.
    pub open spec fn scope(&self, name: Seq<char>) -> ScopeState {
        if self.view().dom().contains(name) {
            self.view()[name]
        } else {
            fresh_scope()
        }
    }

    pub fn new() -> (result: Self)
        ensures
            result.view() == Map::<Seq<char>, ScopeState>::empty(),
    {
        RequestLimiter { scopes: NameMap::new() }
    }

    /// The number of requests in flight in a scope.
    pub fn in_flight(&self, scope: &str) -> (result: u64)
        ensures
            result == self.scope(scope@).in_flight,
    {
        match self.scopes.get(scope) {
            Some(state) => state.in_flight,
            None => 0,
        }
    }

    pub fn try_acquire(
        &mut self,
        scope: String,
        max_concurrency: Option<u64>,
        min_start_interval_ms: Option<u64>,
        now_ns: u128,
    ) -> (result: Result<LimitPermit, LimitRejection>)
        ensures
            match result {
                Ok(permit) => {
                    &&& may_start(
                        old(self).scope(scope@),
                        max_concurrency,
                        min_start_interval_ms,
                        now_ns,
                    )
                    &&& permit.scope == scope
                    &&& final(self).view() == old(self).view().insert(
                        scope@,
                        started(old(self).scope(scope@), now_ns),
                    )
                },
                Err(rejection) => {
                    &&& !may_start(
                        old(self).scope(scope@),
                        max_concurrency,
                        min_start_interval_ms,
                        now_ns,
                    )
                    &&& rejection == rejection_of(
                        old(self).scope(scope@),
                        max_concurrency,
                        min_start_interval_ms,
                        now_ns,
                    )
                    &&& final(self).view() == old(self).view().insert(
                        scope@,
                        old(self).scope(scope@),
                    )
                },
            },
    {
        let limit = active(max_concurrency);
        let interval = active(min_start_interval_ms);
        let state: ScopeState = match self.scopes.get(scope.as_str()) {
            Some(state) => *state,
            None => ScopeState { in_flight: 0, last_start_ns: None },
        };
        let concurrency_ready = match limit {
            Some(n) => state.in_flight < n,
            None => true,
        };
        let elapsed: Option<u128> = match state.last_start_ns {
            Some(start) => if now_ns < start {
                Some(0)
            } else {
                Some(now_ns - start)
            },
            None => None,
        };
        let wait: Option<u128> = match (interval, elapsed) {
            (Some(ms), Some(elapsed)) => {
                let interval_ns: u128 = ms as u128 * NANOS_PER_MILLI;
                if elapsed <= interval_ns {
                    Some(interval_ns - elapsed)
                } else {
                    None
                }
            },
            _ => None,
        };
        if concurrency_ready && wait.is_none() {
            let next = ScopeState {
                in_flight: state.in_flight.saturating_add(1),
                last_start_ns: Some(now_ns),
            };
            self.scopes.insert(scope.as_str(), next);
            return Ok(LimitPermit { scope });
        }
        self.scopes.insert(scope.as_str(), state);
        Err(
            LimitRejection {
                reason: if concurrency_ready {
                    LimitReason::MinStartInterval
                } else {
                    LimitReason::MaxConcurrency
                },
                in_flight: state.in_flight,
                max_concurrency: limit,
                min_start_interval_ms,
                wait_ns: match wait {
                    Some(wait) => Some(wait),
                    None => Some(10 * NANOS_PER_MILLI),
                },
                elapsed_since_last_start_ms: match elapsed {
                    Some(elapsed) => Some(to_millis(elapsed)),
                    None => None,
                },
            },
        )
    }

    /// Ends the request of a permit.
    pub fn release(&mut self, permit: LimitPermit)
        ensures
            final(self).view() == if old(self).view().dom().contains(permit.scope@) {
                old(self).view().insert(permit.scope@, finished(old(self).scope(permit.scope@)))
            } else {
                old(self).view()
            },
    {
        let found: Option<ScopeState> = match self.scopes.get(permit.scope.as_str()) {
            Some(state) => Some(*state),
            None => None,
        };
        if let Some(state) = found {
            let next = ScopeState {
                in_flight: state.in_flight.saturating_sub(1),
                last_start_ns: state.last_start_ns,
            };
            self.scopes.insert(permit.scope.as_str(), next);
        }
    }
}

/// The scope of a key.
pub open spec fn key_scope(key_id: Seq<char>) -> Seq<char> {
    "key:"@ + key_id
}

pub fn try_acquire_key_permit(
    limiter: &mut RequestLimiter,
    key: &AuthenticatedKey,
    max_concurrency: Option<u64>,
    min_start_interval_ms: Option<u64>,
    now_ns: u128,
) -> (result: Result<LimitPermit, LimitRejection>)
    ensures
        match result {
            Ok(permit) => {
                &&& may_start(
                    old(limiter).scope(key_scope(key.key_id@)),
                    max_concurrency,
                    min_start_interval_ms,
                    now_ns,
                )
                &&& permit.scope@ == key_scope(key.key_id@)
                &&& final(limiter).view() == old(limiter).view().insert(
                    key_scope(key.key_id@),
                    started(old(limiter).scope(key_scope(key.key_id@)), now_ns),
                )
            },
            Err(rejection) => {
                &&& rejection == rejection_of(
                    old(limiter).scope(key_scope(key.key_id@)),
                    max_concurrency,
                    min_start_interval_ms,
                    now_ns,
                )
                &&& !may_start(
                    old(limiter).scope(key_scope(key.key_id@)),
                    max_concurrency,
                    min_start_interval_ms,
                    now_ns,
                )
                &&& final(limiter).view() == old(limiter).view().insert(
                    key_scope(key.key_id@),
                    old(limiter).scope(key_scope(key.key_id@)),
                )
            },
        },
{
    limiter.try_acquire(
        concat2("key:", key.key_id.as_str()),
        max_concurrency,
        min_start_interval_ms,
        now_ns,
    )
}

/// How long to wait before asking again, in nanoseconds.
pub fn wait_for_limit(rejection: Option<&LimitRejection>) -> (wait_ns: u128)
    ensures
        wait_ns == match rejection {
            Some(rejection) => match rejection.wait_ns {
                Some(wait) => wait,
                None => (10 * NANOS_PER_MILLI) as u128,
            },
            None => (10 * NANOS_PER_MILLI) as u128,
        },
{
    match rejection {
        Some(rejection) => match rejection.wait_ns {
            Some(wait) => wait,
            None => 10 * NANOS_PER_MILLI,
        },
        None => 10 * NANOS_PER_MILLI,
    }
}

// ---------------------------------------------------------------------------
// Replies
// ---------------------------------------------------------------------------

pub open spec fn reason_text(reason: LimitReason) -> Seq<char> {
    match reason {
        LimitReason::MaxConcurrency => "max_concurrency"@,
        LimitReason::MinStartInterval => "min_start_interval"@,
    }
}

pub open spec fn limit_text(limit: Option<u64>) -> Seq<char> {
    match limit {
        Some(n) => decimal(n as nat),
        None => "unlimited"@,
    }
}

/// The low 64 bits of a number of milliseconds.
pub open spec fn wait_millis(wait_ns: Option<u128>) -> u64 {
    match wait_ns {
        Some(ns) => ((ns / NANOS_PER_MILLI) % 0x1_0000_0000_0000_0000) as u64,
        None => 0,
    }
}

/// What every limit message says of a rejection.
pub open spec fn limit_details(rejection: LimitRejection) -> Seq<char> {
    reason_text(rejection.reason) + " in_flight="@ + decimal(rejection.in_flight as nat)
        + " request_max_concurrency="@ + limit_text(rejection.max_concurrency)
        + " request_min_start_interval_ms="@ + limit_text(rejection.min_start_interval_ms)
        + " wait_ms="@ + decimal(wait_millis(rejection.wait_ns) as nat)
}

fn show_limit(limit: Option<u64>) -> (text: String)
    ensures
        text@ == limit_text(limit),
{
    match limit {
        Some(n) => decimal_of(n),
        None => "unlimited".to_owned(),
    }
}

fn show_details(rejection: &LimitRejection) -> (text: String)
    ensures
        text@ == limit_details(*rejection),
{
    let reason = match rejection.reason {
        LimitReason::MaxConcurrency => "max_concurrency",
        LimitReason::MinStartInterval => "min_start_interval",
    };
    let wait: u64 = match rejection.wait_ns {
        Some(ns) => ((ns / NANOS_PER_MILLI) % 0x1_0000_0000_0000_0000) as u64,
        None => 0,
    };
    let mut text: String = reason.to_owned();
    text.append(" in_flight=");
    text.append(decimal_of(rejection.in_flight).as_str());
    text.append(" request_max_concurrency=");
    text.append(show_limit(rejection.max_concurrency).as_str());
    text.append(" request_min_start_interval_ms=");
    text.append(show_limit(rejection.min_start_interval_ms).as_str());
    text.append(" wait_ms=");
    text.append(decimal_of(wait).as_str());
    text
}

pub open spec fn codex_limit_message(rejection: LimitRejection) -> Seq<char> {
    "key request limit reached: "@ + limit_details(rejection) + " elapsed_since_last_start_ms="@
        + decimal(
        match rejection.elapsed_since_last_start_ms {
            Some(ms) => ms as nat,
            None => 0,
        },
    )
}

pub fn codex_key_limit_response(rejection: &LimitRejection) -> (reply: Reply)
    ensures
        reply.status == 429,
        !reply.json,
        reply.body@ == codex_limit_message(*rejection),
{
    let mut text: String = concat2("key request limit reached: ", show_details(rejection).as_str());
    text.append(" elapsed_since_last_start_ms=");
    let elapsed: u64 = match rejection.elapsed_since_last_start_ms {
        Some(ms) => ms,
        None => 0,
    };
    text.append(decimal_of(elapsed).as_str());
    text_reply(429, text.as_str())
}

pub open spec fn kiro_limit_message(rejection: LimitRejection) -> Seq<char> {
    "Kiro key request limit reached: "@ + limit_details(rejection)
}

pub fn kiro_key_limit_response(rejection: &LimitRejection) -> (reply: Reply)
    ensures
        reply.status == 429,
        reply.json,
        reply.body@ == shown_text(
            anthropic_error("rate_limit_error"@, kiro_limit_message(*rejection)),
        ),
{
    let text = concat2("Kiro key request limit reached: ", show_details(rejection).as_str());
    anthropic_json_error(429, "rate_limit_error", text.as_str())
}

// ---------------------------------------------------------------------------
// Cooldowns
// ---------------------------------------------------------------------------

/// Codex accounts that are kept out of selection for a while, with the time until
/// which each is blocked.
pub struct CodexAccountCooldowns {
    blocked_until: NameMap<u128>,
}

/// The time that an account stays blocked.
pub open spec fn remaining_block(
    blocked: Map<Seq<char>, u128>,
    account: Seq<char>,
    now_ns: u128,
) -> Option<u128> {
    if blocked.dom().contains(account) && blocked[account] > now_ns {
        Some((blocked[account] - now_ns) as u128)
    } else {
        None
    }
}

impl CodexAccountCooldowns {
    pub closed spec fn view(&self) -> Map<Seq<char>, u128> {
        self.blocked_until@
    }

    pub fn new() -> (result: Self)
        ensures
            result.view() == Map::<Seq<char>, u128>::empty(),
    {
        CodexAccountCooldowns { blocked_until: NameMap::new() }
    }

    /// The time for which an account is still blocked. One whose time is over is
    /// forgotten.
    pub fn cooldown_for_account(&mut self, account_name: &str, now_ns: u128) -> (result: Option<
        u128,
    >)
        ensures
            result == remaining_block(old(self).view(), account_name@, now_ns),
            final(self).view() == if result is Some {
                old(self).view()
            } else {
                old(self).view().remove(account_name@)
            },
    {
        let until: u128 = match self.blocked_until.get(account_name) {
            Some(until) => *until,
            None => {
                assert(self.view().remove(account_name@) =~= self.view());
                return None;
            },
        };
        if until <= now_ns {
            self.blocked_until.remove(account_name);
            return None;
        }
        Some(until - now_ns)
    }

    /// Blocks an account for `cooldown_ns` from now. A block that already reaches as
    /// far or farther stays as it is.
    pub fn mark_account_cooldown(&mut self, account_name: &str, cooldown_ns: u128, now_ns: u128)
        requires
            now_ns + cooldown_ns <= u128::MAX,
        ensures
            final(self).view() == marked(
                old(self).view(),
                account_name@,
                cooldown_ns,
                now_ns,
            ),
    {
        if cooldown_ns == 0 {
            return;
        }
        let next: u128 = now_ns + cooldown_ns;
        match self.blocked_until.get(account_name) {
            Some(until) => {
                if *until >= next {
                    return;
                }
            },
            None => {},
        }
        self.blocked_until.insert(account_name, next);
    }
}

/// The blocks after one more was marked.
pub open spec fn marked(
    blocked: Map<Seq<char>, u128>,
    account: Seq<char>,
    cooldown_ns: u128,
    now_ns: u128,
) -> Map<Seq<char>, u128> {
    if cooldown_ns == 0 {
        blocked
    } else if blocked.dom().contains(account) && blocked[account] >= now_ns + cooldown_ns {
        blocked
    } else {
        blocked.insert(account, (now_ns + cooldown_ns) as u128)
    }
}

// ---------------------------------------------------------------------------
// Laws
// ---------------------------------------------------------------------------

/// A permit brings a scope to at most its limit.
pub proof fn law_permit_respects_limit(
    state: ScopeState,
    limit: u64,
    min_start_interval_ms: Option<u64>,
    now_ns: u128,
)
    requires
        limit > 0,
        may_start(state, Some(limit), min_start_interval_ms, now_ns),
    ensures
        started(state, now_ns).in_flight <= limit,
{
}

/// Releasing a permit restores the number of requests in flight.
pub proof fn law_release_undoes_start(state: ScopeState, now_ns: u128)
    requires
        state.in_flight < u64::MAX,
    ensures
        finished(started(state, now_ns)).in_flight == state.in_flight,
{
}

/// Once a request has started, no other may start in the scope before the minimal
/// interval is over, whatever else happens to the number in flight.
pub proof fn law_starts_keep_their_distance(
    state: ScopeState,
    interval_ms: u64,
    max_concurrency: Option<u64>,
    start_ns: u128,
    later_ns: u128,
    in_flight: u64,
)
    requires
        interval_ms > 0,
        start_ns <= later_ns,
        may_start(
            ScopeState { in_flight, ..started(state, start_ns) },
            max_concurrency,
            Some(interval_ms),
            later_ns,
        ),
    ensures
        later_ns - start_ns > interval_ms * NANOS_PER_MILLI,
{
}

/// Marking a cooldown never shortens a block, of this account or another.
pub proof fn law_cooldown_never_shortens(
    blocked: Map<Seq<char>, u128>,
    account: Seq<char>,
    cooldown_ns: u128,
    now_ns: u128,
    other: Seq<char>,
)
    requires
        now_ns + cooldown_ns <= u128::MAX,
        blocked.dom().contains(other),
    ensures
        marked(blocked, account, cooldown_ns, now_ns).dom().contains(other),
        marked(blocked, account, cooldown_ns, now_ns)[other] >= blocked[other],
        other != account ==> marked(blocked, account, cooldown_ns, now_ns)[other]
            == blocked[other],
{
}

/// A marked account is blocked at least for the cooldown that was asked for.
pub proof fn law_marked_account_is_blocked(
    blocked: Map<Seq<char>, u128>,
    account: Seq<char>,
    cooldown_ns: u128,
    now_ns: u128,
)
    requires
        cooldown_ns > 0,
        now_ns + cooldown_ns <= u128::MAX,
    ensures
        remaining_block(
            marked(blocked, account, cooldown_ns, now_ns),
            account,
            now_ns,
        ) matches Some(left) && left >= cooldown_ns,
{
}

/// A request may start exactly where the scope has room, or no limit above zero, and the
/// last start is further back than the minimal interval, or there was none, or no interval
/// above zero.
pub proof fn law_when_a_request_may_start(
    state: ScopeState,
    max_concurrency: Option<u64>,
    min_start_interval_ms: Option<u64>,
    now_ns: u128,
)
    ensures
        may_start(state, max_concurrency, min_start_interval_ms, now_ns) <==> {
            &&& max_concurrency matches Some(limit) ==> limit == 0 || state.in_flight < limit
            &&& min_start_interval_ms matches Some(ms) ==> (state.last_start_ns matches Some(start)
                ==> ms == 0 || now_ns > start + ms * 1_000_000)
        },
{
}

/// A refused request is told to wait for what is left of the interval; where only the room
/// is missing, for ten milliseconds.
pub proof fn law_the_wait_of_a_rejection(
    state: ScopeState,
    max_concurrency: Option<u64>,
    min_start_interval_ms: Option<u64>,
    now_ns: u128,
)
    requires
        !may_start(state, max_concurrency, min_start_interval_ms, now_ns),
    ensures
        ({
            let rejection = rejection_of(state, max_concurrency, min_start_interval_ms, now_ns);
            &&& rejection.in_flight == state.in_flight
            &&& rejection.wait_ns is Some
            &&& state.last_start_ns is None || min_start_interval_ms is None
                || min_start_interval_ms == Some(0u64) ==> rejection.wait_ns == Some(10_000_000u128)
            &&& (rejection.reason == LimitReason::MaxConcurrency) == (
            max_concurrency matches Some(limit) && limit > 0 && state.in_flight >= limit)
            &&& state.last_start_ns matches Some(start) ==> (min_start_interval_ms matches Some(ms)
                ==> (start <= now_ns <= start + ms * 1_000_000 && ms > 0 ==> (
            rejection.wait_ns matches Some(wait) && now_ns + wait == start + ms * 1_000_000)))
        }),
{
}

/// A start counts one more request in flight and notes its time; its end counts one less
/// and leaves the time alone.
pub proof fn law_starts_and_ends_are_counted(state: ScopeState, now_ns: u128)
    ensures
        state.in_flight < u64::MAX ==> started(state, now_ns).in_flight == state.in_flight + 1,
        started(state, now_ns).last_start_ns == Some(now_ns),
        state.in_flight > 0 ==> finished(state).in_flight == state.in_flight - 1,
        state.in_flight == 0 ==> finished(state).in_flight == 0,
        finished(state).last_start_ns == state.last_start_ns,
{
}

/// A block lasts up to its end and not beyond; a marked account is blocked for the longer of
/// what was asked for and what was left, and no other account with it.
pub proof fn law_a_block_ends_at_its_time(
    blocked: Map<Seq<char>, u128>,
    account: Seq<char>,
    cooldown_ns: u128,
    now_ns: u128,
    later_ns: u128,
)
    requires
        0 < cooldown_ns,
        now_ns + cooldown_ns <= later_ns,
        blocked.dom().contains(account) ==> blocked[account] <= later_ns,
    ensures
        remaining_block(marked(blocked, account, cooldown_ns, now_ns), account, later_ns) is None,
        forall|other: Seq<char>|
            other != account ==> remaining_block(
                marked(blocked, account, cooldown_ns, now_ns),
                other,
                now_ns,
            ) == #[trigger] remaining_block(blocked, other, now_ns),
        marked(blocked, account, 0, now_ns) == blocked,
{
}

/// A refusal tells the milliseconds of its wait, rounded down, where they fit.
pub proof fn law_the_told_wait_is_rounded_down(wait_ns: u128)
    requires
        wait_ns < 0x1_0000_0000_0000_0000,
    ensures
        wait_millis(Some(wait_ns)) * 1_000_000 <= wait_ns < (wait_millis(Some(wait_ns)) + 1)
            * 1_000_000,
        wait_millis(None) == 0,
{
}

/// The two reasons of a refusal are told apart, and a missing limit from every number.
pub proof fn law_reasons_are_told_apart(a: LimitReason, b: LimitReason, n: u64)
    ensures
        reason_text(a) == reason_text(b) ==> a == b,
        limit_text(Some(n)) == decimal(n as nat),
        limit_text(None) != limit_text(Some(n)),
{
    reveal_strlit("max_concurrency");
    reveal_strlit("min_start_interval");
    reveal_strlit("unlimited");
    assert("max_concurrency"@.len() == 15 && "min_start_interval"@.len() == 18);
    crate::text::law_a_number_reads_back(n as nat, 0);
    assert(crate::text::is_digit(decimal(n as nat)[0]));
    assert("unlimited"@[0] == 'u');
}

/// The function that says how long to wait says what the refusal names, and ten milliseconds
/// where it names nothing.
pub proof fn law_how_long_a_refused_request_waits(
    rejection: Option<&LimitRejection>,
    wait_ns: u128,
)
    requires
        call_ensures(wait_for_limit, (rejection,), wait_ns),
    ensures
        rejection is None ==> wait_ns == 10_000_000,
        rejection matches Some(told) ==> (told.wait_ns matches Some(wait) ==> wait_ns == wait),
        rejection matches Some(told) ==> (told.wait_ns is None ==> wait_ns == 10_000_000),
{
}

} // verus!
