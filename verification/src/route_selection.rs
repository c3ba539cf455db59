//! The choice of an account for a request.

use vstd::prelude::*;
use crate::errors::{anthropic_error, anthropic_json_error, text_reply, Reply};
use crate::json::shown_text;
use crate::limiter::{may_start, rejection_of, started, CodexAccountCooldowns, LimitPermit,
    RequestLimiter, ScopeState, remaining_block};
use crate::order::{key_views, lemma_lex_after, lemma_smaller_key_stands_earlier, lex_less,
    sort_positions, sorted_positions, text_before, text_key};
use crate::text::{chars_of, concat2, list_has, same_text, texts, trim, trimmed};
use crate::types::{ProviderCodexRoute, ProviderKiroRoute};

verus! {

// ---------------------------------------------------------------------------
// Codex
// ---------------------------------------------------------------------------

/// Where a Codex account stands at a given time.
pub enum CodexRouteState {
    Failed,
    TerminalAuthError,
    Cooling,
    Limited { wait_ns: u128 },
    Ready,
}

/// The limiter scope of a Codex account.
pub open spec fn codex_account_scope(account: Seq<char>) -> Seq<char> {
    "account:codex:"@ + account
}

/// Where an account stands, given the accounts that failed, the blocks and the
/// limits.
pub open spec fn codex_route_state(
    route: ProviderCodexRoute,
    failed: Seq<Seq<char>>,
    blocked: Map<Seq<char>, u128>,
    scope: ScopeState,
    now_ns: u128,
) -> CodexRouteState {
    if failed.contains(route.account_name@) {
        CodexRouteState::Failed
    } else if route.terminal_auth_error {
        CodexRouteState::TerminalAuthError
    } else if remaining_block(blocked, route.account_name@, now_ns) is Some {
        CodexRouteState::Cooling
    } else if may_start(
        scope,
        route.account_request_max_concurrency,
        route.account_request_min_start_interval_ms,
        now_ns,
    ) {
        CodexRouteState::Ready
    } else {
        CodexRouteState::Limited {
            wait_ns: rejection_of(
                scope,
                route.account_request_max_concurrency,
                route.account_request_min_start_interval_ms,
                now_ns,
            ).wait_ns->0,
        }
    }
}

/// What one look over the accounts comes to.
pub enum CodexSelection {
    /// The account at this position may be used; the permit is taken.
    Acquired { position: usize, permit: LimitPermit },
    /// Every usable account is at its limit: look again after this time.
    Wait { wait_ns: u128 },
    /// No account can be used.
    Refused { reply: Reply },
}

pub open spec fn is_text_reply(reply: Reply, status: u16, body: Seq<char>) -> bool {
    reply.status == status && !reply.json && reply.body@ == body
}

/// The outcome of a look over accounts that stand as `state` says.
pub open spec fn codex_selection_outcome(
    count: int,
    state: spec_fn(int) -> CodexRouteState,
    result: CodexSelection,
) -> bool {
    match result {
        CodexSelection::Acquired { position, permit } => {
            &&& position < count
            &&& state(position as int) is Ready
            &&& forall|k: int| 0 <= k < position ==> !((#[trigger] state(k)) is Ready)
        },
        CodexSelection::Wait { wait_ns } => {
            &&& forall|k: int| 0 <= k < count ==> !((#[trigger] state(k)) is Ready)
            &&& exists|k: int|
                0 <= k < count && (#[trigger] state(k)) == (CodexRouteState::Limited { wait_ns })
            &&& forall|k: int|
                0 <= k < count ==> ((#[trigger] state(k)) matches CodexRouteState::Limited {
                    wait_ns: other,
                } ==> wait_ns <= other)
        },
        CodexSelection::Refused { reply } => {
            &&& forall|k: int|
                0 <= k < count ==> !((#[trigger] state(k)) is Ready) && !(state(k) is Limited)
            &&& if count == 0 {
                is_text_reply(reply, 503, "codex route is not configured"@)
            } else if forall|k: int| 0 <= k < count ==> (#[trigger] state(k)) is Failed {
                is_text_reply(
                    reply,
                    502,
                    "all eligible codex accounts failed for this request"@,
                )
            } else if exists|k: int| 0 <= k < count && (#[trigger] state(k)) is Cooling {
                is_text_reply(reply, 429, "quota_exceeded"@)
            } else {
                is_text_reply(
                    reply,
                    502,
                    "all eligible codex accounts failed for this request"@,
                )
            }
        },
    }
}

/// One look over the accounts in order: the first that may start gets the request.
/// Accounts that failed, whose login is dead or that cool down are passed over.
pub fn select_codex_route_with_account_permit(
    limiter: &mut RequestLimiter,
    cooldowns: &mut CodexAccountCooldowns,
    routes: &Vec<ProviderCodexRoute>,
    failed_accounts: &Vec<String>,
    now_ns: u128,
) -> (result: CodexSelection)
    ensures
        codex_selection_outcome(
            routes.len() as int,
            |k: int|
                codex_route_state(
                    routes@[k],
                    texts(failed_accounts@),
                    old(cooldowns).view(),
                    old(limiter).scope(codex_account_scope(routes@[k].account_name@)),
                    now_ns,
                ),
            result,
        ),
        match result {
            CodexSelection::Acquired { position, permit } => {
                let scope = codex_account_scope(routes@[position as int].account_name@);
                &&& permit.scope@ == scope
                &&& final(limiter).scope(scope) == started(old(limiter).scope(scope), now_ns)
                &&& forall|other: Seq<char>|
                    other != scope ==> #[trigger] final(limiter).scope(other) == old(
                        limiter,
                    ).scope(other)
            },
            _ => forall|other: Seq<char>| #[trigger]
                final(limiter).scope(other) == old(limiter).scope(other),
        },
        forall|account: Seq<char>| #[trigger]
            remaining_block(final(cooldowns).view(), account, now_ns) == remaining_block(
                old(cooldowns).view(),
                account,
                now_ns,
            ),
{
    let ghost failed = texts(failed_accounts@);
    let ghost blocked = cooldowns.view();
    let ghost entry = *limiter;
    let ghost state = |k: int|
        codex_route_state(
            routes@[k],
            failed,
            blocked,
            entry.scope(codex_account_scope(routes@[k].account_name@)),
            now_ns,
        );
    if routes.len() == 0 {
        return CodexSelection::Refused { reply: text_reply(503, "codex route is not configured") };
    }
    let mut shortest: Option<u128> = None;
    let mut all_failed = true;
    let mut saw_cooldown = false;
    let mut i: usize = 0;
    while i < routes.len()
        invariant
            i <= routes.len(),
            failed == texts(failed_accounts@),
            blocked == old(cooldowns).view(),
            entry == *old(limiter),
            state == (|k: int|
                codex_route_state(
                    routes@[k],
                    failed,
                    blocked,
                    entry.scope(codex_account_scope(routes@[k].account_name@)),
                    now_ns,
                )),
            forall|other: Seq<char>| #[trigger] limiter.scope(other) == entry.scope(other),
            forall|account: Seq<char>| #[trigger]
                remaining_block(cooldowns.view(), account, now_ns) == remaining_block(
                    blocked,
                    account,
                    now_ns,
                ),
            forall|k: int| 0 <= k < i ==> !((#[trigger] state(k)) is Ready),
            all_failed == forall|k: int| 0 <= k < i ==> (#[trigger] state(k)) is Failed,
            saw_cooldown == exists|k: int| 0 <= k < i && (#[trigger] state(k)) is Cooling,
            match shortest {
                Some(wait_ns) => {
                    &&& exists|k: int|
                        0 <= k < i && (#[trigger] state(k)) == (CodexRouteState::Limited {
                            wait_ns,
                        })
                    &&& forall|k: int|
                        0 <= k < i ==> ((#[trigger] state(k)) matches CodexRouteState::Limited {
                            wait_ns: other,
                        } ==> wait_ns <= other)
                },
                None => forall|k: int| 0 <= k < i ==> !((#[trigger] state(k)) is Limited),
            },
        decreases routes.len() - i,
    {
        let route = &routes[i];
        let ghost here = state(i as int);
        let ghost scope_name = codex_account_scope(route.account_name@);
        assert(here == codex_route_state(
            *route,
            failed,
            blocked,
            entry.scope(scope_name),
            now_ns,
        ));
        if list_has(failed_accounts, route.account_name.as_str()) {
            assert(here is Failed);
        } else if route.terminal_auth_error {
            assert(here is TerminalAuthError);
            all_failed = false;
        } else {
            all_failed = false;
            let ghost blocks = cooldowns.view();
            let cooling = cooldowns.cooldown_for_account(route.account_name.as_str(), now_ns);
            assert forall|account: Seq<char>| #[trigger]
                remaining_block(cooldowns.view(), account, now_ns) == remaining_block(
                    blocked,
                    account,
                    now_ns,
                ) by {
                assert(remaining_block(blocks, account, now_ns) == remaining_block(
                    blocked,
                    account,
                    now_ns,
                ));
            }
            if cooling.is_some() {
                assert(remaining_block(blocks, route.account_name@, now_ns) is Some);
                assert(here is Cooling);
                saw_cooldown = true;
            } else {
                assert(remaining_block(blocks, route.account_name@, now_ns) is None);
                assert(limiter.scope(scope_name) == entry.scope(scope_name));
                let scope = concat2("account:codex:", route.account_name.as_str());
                let ghost before = *limiter;
                let attempt = limiter.try_acquire(
                    scope,
                    route.account_request_max_concurrency,
                    route.account_request_min_start_interval_ms,
                    now_ns,
                );
                assert forall|other: Seq<char>|
                    other != scope_name || attempt is Err implies #[trigger] limiter.scope(other)
                    == entry.scope(other) by {
                    assert(before.scope(other) == entry.scope(other));
                }
                match attempt {
                    Ok(permit) => {
                        assert(here is Ready);
                        assert(limiter.scope(scope_name) == started(
                            entry.scope(scope_name),
                            now_ns,
                        ));
                        return CodexSelection::Acquired { position: i, permit };
                    },
                    Err(rejection) => {
                        let wait: u128 = match rejection.wait_ns {
                            Some(wait) => wait,
                            None => 0,
                        };
                        assert(here == (CodexRouteState::Limited { wait_ns: wait }));
                        match shortest {
                            Some(current) => {
                                if wait < current {
                                    shortest = Some(wait);
                                }
                            },
                            None => {
                                shortest = Some(wait);
                            },
                        }
                    },
                }
            }
        }
        i += 1;
    }
    if all_failed {
        return CodexSelection::Refused {
            reply: text_reply(502, "all eligible codex accounts failed for this request"),
        };
    }
    if let Some(wait_ns) = shortest {
        return CodexSelection::Wait { wait_ns };
    }
    if saw_cooldown {
        return CodexSelection::Refused { reply: text_reply(429, "quota_exceeded") };
    }
    CodexSelection::Refused {
        reply: text_reply(502, "all eligible codex accounts failed for this request"),
    }
}


// ---------------------------------------------------------------------------
// Kiro
// ---------------------------------------------------------------------------

/// What is known of a Kiro account at the time of selection. A latency score
/// stands as the integer by which it is ordered.
#[derive(Debug, Clone, Copy)]
pub struct KiroRouteFacts {
    pub proxy_in_cooldown: bool,
    pub cooldown_ns: Option<u128>,
    pub latency_order: Option<i64>,
    pub last_started_ns: Option<u64>,
}

/// The order value of an account whose remaining credits are not known: that of
/// minus one credit, in the total order of IEEE 754 doubles.
pub const UNKNOWN_REMAINING_ORDER: i64 = -4607182418800017409;

/// The key by which accounts are tried: proxies that work first, then low latency,
/// then the longest idle, then the most credits, then the name.
pub open spec fn kiro_route_key(route: ProviderKiroRoute, facts: KiroRouteFacts) -> Seq<i128> {
    let (no_latency, latency): (i128, i128) = match facts.latency_order {
        Some(order) => (0, order as i128),
        None => (1, 0),
    };
    let (was_started, started_at): (i128, i128) = match facts.last_started_ns {
        Some(at) => (1, at as i128),
        None => (0, 0),
    };
    let remaining: i128 = match route.cached_remaining_order {
        Some(order) => (0 - order) as i128,
        None => (0 - UNKNOWN_REMAINING_ORDER) as i128,
    };
    seq![
        if facts.proxy_in_cooldown {
            1i128
        } else {
            0i128
        },
        no_latency,
        latency,
        was_started,
        started_at,
        remaining,
    ] + route.account_name@.map_values(|c: char| c as u32 as i128)
}

pub open spec fn kiro_route_keys(
    routes: Seq<ProviderKiroRoute>,
    facts: Seq<KiroRouteFacts>,
) -> Seq<Seq<i128>> {
    Seq::new(routes.len(), |i: int| kiro_route_key(routes[i], facts[i]))
}

fn key_of_kiro_route(route: &ProviderKiroRoute, facts: &KiroRouteFacts) -> (key: Vec<i128>)
    ensures
        key@ == kiro_route_key(*route, *facts),
{
    let mut key: Vec<i128> = Vec::new();
    key.push(
        if facts.proxy_in_cooldown {
            1
        } else {
            0
        },
    );
    match facts.latency_order {
        Some(order) => {
            key.push(0);
            key.push(order as i128);
        },
        None => {
            key.push(1);
            key.push(0);
        },
    }
    match facts.last_started_ns {
        Some(at) => {
            key.push(1);
            key.push(at as i128);
        },
        None => {
            key.push(0);
            key.push(0);
        },
    }
    match route.cached_remaining_order {
        Some(order) => key.push(0 - (order as i128)),
        None => key.push(0 - (UNKNOWN_REMAINING_ORDER as i128)),
    }
    let name = chars_of(route.account_name.as_str());
    let ghost head = key@;
    let ghost tail = route.account_name@.map_values(|c: char| c as u32 as i128);
    let mut i: usize = 0;
    assert(head + tail.take(0) =~= head);
    while i < name.len()
        invariant
            i <= name.len(),
            name@ == route.account_name@,
            tail == route.account_name@.map_values(|c: char| c as u32 as i128),
            key@ == head + tail.take(i as int),
        decreases name.len() - i,
    {
        assert(tail[i as int] == name@[i as int] as u32 as i128);
        let code: i128 = name[i] as u32 as i128;
        assert(code == name@[i as int] as u32 as i128);
        key.push(code);
        i += 1;
        assert(tail.take(i as int) =~= tail.take(i - 1).push(tail[i - 1]));
        assert(key@ =~= head + tail.take(i as int));
    }
    assert(tail.take(i as int) =~= tail);
    assert(key@ =~= kiro_route_key(*route, *facts));
    key
}

/// The positions of the routes in the order in which they are tried.
pub fn selection_ordered_kiro_routes(
    routes: &Vec<ProviderKiroRoute>,
    facts: &Vec<KiroRouteFacts>,
) -> (order: Vec<usize>)
    requires
        facts.len() == routes.len(),
    ensures
        sorted_positions(kiro_route_keys(routes@, facts@), order@),
{
    let mut keys: Vec<Vec<i128>> = Vec::new();
    let mut i: usize = 0;
    while i < routes.len()
        invariant
            i <= routes.len(),
            facts.len() == routes.len(),
            key_views(keys@) == kiro_route_keys(routes@, facts@).take(i as int),
        decreases routes.len() - i,
    {
        let key = key_of_kiro_route(&routes[i], &facts[i]);
        let ghost before = keys@;
        keys.push(key);
        assert(key_views(keys@) =~= key_views(before).push(key@));
        i += 1;
        assert(key_views(keys@) =~= kiro_route_keys(routes@, facts@).take(i as int));
    }
    assert(key_views(keys@) =~= kiro_route_keys(routes@, facts@));
    sort_positions(&keys)
}

/// The smaller of two waits, where nothing is no wait at all.
pub open spec fn least(a: Option<u128>, b: Option<u128>) -> Option<u128> {
    match (a, b) {
        (Some(x), Some(y)) => if x <= y {
            Some(x)
        } else {
            Some(y)
        },
        (Some(x), None) => Some(x),
        (None, b) => b,
    }
}

fn least_of(a: Option<u128>, b: Option<u128>) -> (result: Option<u128>)
    ensures
        result == least(a, b),
{
    match (a, b) {
        (Some(x), Some(y)) => if x <= y {
            Some(x)
        } else {
            Some(y)
        },
        (Some(x), None) => Some(x),
        (None, b) => b,
    }
}

/// The smallest of the waits.
pub open spec fn least_wait(waits: Seq<Option<u128>>) -> Option<u128>
    decreases waits.len(),
{
    if waits.len() == 0 {
        None
    } else {
        least(least_wait(waits.drop_last()), waits.last())
    }
}

/// Which accounts to try, and in which order.
pub struct KiroSelectionPlan {
    /// The account of the session, to be tried before the others. Its refusal counts
    /// for nothing.
    pub preferred: Option<usize>,
    pub attempts: Vec<usize>,
    /// The cooldowns of the accounts that are passed over for one.
    pub cooling: Vec<Option<u128>>,
}

pub open spec fn kiro_failed(route: ProviderKiroRoute, failed: Seq<Seq<char>>) -> bool {
    failed.contains(route.account_name@)
}

/// The position of the first route of an account that has not failed.
pub open spec fn first_usable(
    routes: Seq<ProviderKiroRoute>,
    failed: Seq<Seq<char>>,
    account: Seq<char>,
    position: int,
) -> bool {
    &&& 0 <= position < routes.len()
    &&& routes[position].account_name@ == account
    &&& !kiro_failed(routes[position], failed)
    &&& forall|k: int|
        0 <= k < position ==> (#[trigger] routes[k]).account_name@ != account || kiro_failed(
            routes[k],
            failed,
        )
}

pub open spec fn usable_now(facts: KiroRouteFacts) -> bool {
    !facts.proxy_in_cooldown && facts.cooldown_ns is None
}

/// The routes of `order` that may be tried now.
pub open spec fn open_attempts(
    routes: Seq<ProviderKiroRoute>,
    facts: Seq<KiroRouteFacts>,
    failed: Seq<Seq<char>>,
    order: Seq<usize>,
) -> Seq<usize>
    decreases order.len(),
{
    if order.len() == 0 {
        Seq::empty()
    } else {
        let before = open_attempts(routes, facts, failed, order.drop_last());
        let p = order.last() as int;
        if !kiro_failed(routes[p], failed) && facts[p].cooldown_ns is None {
            before.push(order.last())
        } else {
            before
        }
    }
}

/// The cooldowns of the routes of `order` that have not failed.
pub open spec fn cooling_waits(
    routes: Seq<ProviderKiroRoute>,
    facts: Seq<KiroRouteFacts>,
    failed: Seq<Seq<char>>,
    order: Seq<usize>,
) -> Seq<Option<u128>>
    decreases order.len(),
{
    if order.len() == 0 {
        Seq::empty()
    } else {
        let before = cooling_waits(routes, facts, failed, order.drop_last());
        let p = order.last() as int;
        if !kiro_failed(routes[p], failed) && facts[p].cooldown_ns is Some {
            before.push(facts[p].cooldown_ns)
        } else {
            before
        }
    }
}

/// Plans one look over the accounts: the preferred one first, where neither it nor
/// its proxy cools down, then the others in their order.
pub fn select_kiro_route_with_account_permit(
    routes: &Vec<ProviderKiroRoute>,
    facts: &Vec<KiroRouteFacts>,
    failed_accounts: &Vec<String>,
    preferred_account_name: Option<&str>,
) -> (plan: KiroSelectionPlan)
    requires
        facts.len() == routes.len(),
    ensures
        exists|order: Seq<usize>| #[trigger]
            sorted_positions(kiro_route_keys(routes@, facts@), order) && plan.attempts@
                == open_attempts(routes@, facts@, texts(failed_accounts@), order)
                && plan.cooling@ == cooling_waits(
                routes@,
                facts@,
                texts(failed_accounts@),
                order,
            ),
        match plan.preferred {
            Some(position) => {
                &&& preferred_account_name is Some
                &&& first_usable(
                    routes@,
                    texts(failed_accounts@),
                    preferred_account_name->0@,
                    position as int,
                )
                &&& usable_now(facts@[position as int])
            },
            None => preferred_account_name is Some ==> forall|position: int| #[trigger]
                first_usable(
                    routes@,
                    texts(failed_accounts@),
                    preferred_account_name->0@,
                    position,
                ) ==> !usable_now(facts@[position]),
        },
{
    let ghost failed = texts(failed_accounts@);
    let mut preferred: Option<usize> = None;
    if let Some(account) = preferred_account_name {
        let mut i: usize = 0;
        let mut found: Option<usize> = None;
        while i < routes.len() && found.is_none()
            invariant
                i <= routes.len(),
                failed == texts(failed_accounts@),
                match found {
                    Some(position) => first_usable(routes@, failed, account@, position as int),
                    None => forall|k: int|
                        0 <= k < i ==> (#[trigger] routes@[k]).account_name@ != account@
                            || kiro_failed(routes@[k], failed),
                },
            decreases routes.len() - i,
        {
            if same_text(routes[i].account_name.as_str(), account) && !list_has(
                failed_accounts,
                routes[i].account_name.as_str(),
            ) {
                found = Some(i);
            }
            i += 1;
        }
        if let Some(position) = found {
            assert forall|other: int| #[trigger]
                first_usable(routes@, failed, account@, other) implies other == position by {
                if other < position {
                    assert(routes@[other].account_name@ == account@);
                } else if other > position {
                    assert(routes@[position as int].account_name@ == account@);
                }
            }
            if !facts[position].proxy_in_cooldown && facts[position].cooldown_ns.is_none() {
                preferred = Some(position);
            }
        }
    }
    let order = selection_ordered_kiro_routes(routes, facts);
    let mut attempts: Vec<usize> = Vec::new();
    let mut cooling: Vec<Option<u128>> = Vec::new();
    let mut i: usize = 0;
    assert(order@.take(0) =~= Seq::<usize>::empty());
    while i < order.len()
        invariant
            i <= order.len(),
            failed == texts(failed_accounts@),
            facts.len() == routes.len(),
            sorted_positions(kiro_route_keys(routes@, facts@), order@),
            attempts@ == open_attempts(routes@, facts@, failed, order@.take(i as int)),
            cooling@ == cooling_waits(routes@, facts@, failed, order@.take(i as int)),
        decreases order.len() - i,
    {
        let ghost head = order@.take(i as int + 1);
        assert(head.drop_last() =~= order@.take(i as int));
        assert(head.last() == order@[i as int]);
        let p: usize = order[i];
        if !list_has(failed_accounts, routes[p].account_name.as_str()) {
            match facts[p].cooldown_ns {
                Some(wait) => {
                    cooling.push(Some(wait));
                },
                None => {
                    attempts.push(p);
                },
            }
        }
        i += 1;
    }
    assert(order@.take(i as int) =~= order@);
    KiroSelectionPlan { preferred, attempts, cooling }
}

/// What a look that ended without a permit comes to.
pub enum KiroSelectionEnd {
    Wait { wait_ns: Option<u128> },
    Refused { reply: Reply },
}

pub open spec fn is_kiro_error(
    reply: Reply,
    status: u16,
    error_type: Seq<char>,
    message: Seq<char>,
) -> bool {
    reply.status == status && reply.json && reply.body@ == shown_text(
        anthropic_error(error_type, message),
    )
}

pub open spec fn all_kiro_failed(routes: Seq<ProviderKiroRoute>, failed: Seq<Seq<char>>) -> bool {
    forall|k: int| 0 <= k < routes.len() ==> kiro_failed(#[trigger] routes[k], failed)
}

/// Ends a look over the accounts in which every attempt was refused. `rejections`
/// are the waits that the refusals named.
pub fn conclude_kiro_selection(
    routes: &Vec<ProviderKiroRoute>,
    failed_accounts: &Vec<String>,
    cooling: &Vec<Option<u128>>,
    rejections: &Vec<Option<u128>>,
) -> (end: KiroSelectionEnd)
    ensures
        if routes.len() == 0 {
            end matches KiroSelectionEnd::Refused { reply } && is_kiro_error(
                reply,
                503,
                "api_error"@,
                "kiro route is not configured"@,
            )
        } else if all_kiro_failed(routes@, texts(failed_accounts@)) {
            end matches KiroSelectionEnd::Refused { reply } && is_kiro_error(
                reply,
                502,
                "api_error"@,
                "all eligible kiro accounts failed for this request"@,
            )
        } else if cooling.len() + rejections.len() > 0 {
            end == (KiroSelectionEnd::Wait {
                wait_ns: least(least_wait(cooling@), least_wait(rejections@)),
            })
        } else {
            end matches KiroSelectionEnd::Refused { reply } && is_kiro_error(
                reply,
                503,
                "api_error"@,
                "no usable kiro account is configured"@,
            )
        },
{
    if routes.len() == 0 {
        return KiroSelectionEnd::Refused {
            reply: anthropic_json_error(503, "api_error", "kiro route is not configured"),
        };
    }
    if kiro_routes_all_failed(routes, failed_accounts) {
        return KiroSelectionEnd::Refused {
            reply: anthropic_json_error(
                502,
                "api_error",
                "all eligible kiro accounts failed for this request",
            ),
        };
    }
    if cooling.len() > 0 || rejections.len() > 0 {
        let wait_ns = least_of(smallest_wait(cooling), smallest_wait(rejections));
        return KiroSelectionEnd::Wait { wait_ns };
    }
    KiroSelectionEnd::Refused {
        reply: anthropic_json_error(503, "api_error", "no usable kiro account is configured"),
    }
}

fn smallest_wait(waits: &Vec<Option<u128>>) -> (result: Option<u128>)
    ensures
        result == least_wait(waits@),
{
    let mut result: Option<u128> = None;
    let mut i: usize = 0;
    assert(waits@.take(0) =~= Seq::<Option<u128>>::empty());
    while i < waits.len()
        invariant
            i <= waits.len(),
            result == least_wait(waits@.take(i as int)),
        decreases waits.len() - i,
    {
        assert(waits@.take(i as int + 1).drop_last() =~= waits@.take(i as int));
        result = least_of(result, waits[i]);
        i += 1;
    }
    assert(waits@.take(i as int) =~= waits@);
    result
}

fn kiro_routes_all_failed(routes: &Vec<ProviderKiroRoute>, failed_accounts: &Vec<String>) -> (result:
    bool)
    ensures
        result == all_kiro_failed(routes@, texts(failed_accounts@)),
{
    let mut i: usize = 0;
    while i < routes.len()
        invariant
            i <= routes.len(),
            forall|k: int|
                0 <= k < i ==> kiro_failed(#[trigger] routes@[k], texts(failed_accounts@)),
        decreases routes.len() - i,
    {
        if !list_has(failed_accounts, routes[i].account_name.as_str()) {
            assert(!kiro_failed(routes@[i as int], texts(failed_accounts@)));
            return false;
        }
        i += 1;
    }
    true
}

// ---------------------------------------------------------------------------
// Hydration
// ---------------------------------------------------------------------------

/// Whether a route lacks its credentials, so that they must be loaded.
pub fn codex_route_needs_hydration(route: &ProviderCodexRoute) -> (result: bool)
    ensures
        result == (route.auth_json@.len() == 0),
{
    route.auth_json.as_str().is_empty()
}

/// Completes a route that lacks its credentials from the stored account. `loaded` is
/// what the store answered; a route that has its credentials stays as it is.
pub fn hydrate_codex_route_for_dispatch(
    route: ProviderCodexRoute,
    loaded: Result<Option<ProviderCodexRoute>, ()>,
) -> (result: Result<ProviderCodexRoute, Reply>)
    ensures
        if route.auth_json@.len() > 0 {
            result == Ok::<ProviderCodexRoute, Reply>(route)
        } else {
            match loaded {
                Ok(Some(account)) => result == Ok::<ProviderCodexRoute, Reply>(
                    ProviderCodexRoute {
                        auth_json: account.auth_json,
                        map_gpt53_codex_to_spark: account.map_gpt53_codex_to_spark,
                        auth_refresh_enabled: account.auth_refresh_enabled,
                        account_request_max_concurrency: account.account_request_max_concurrency,
                        account_request_min_start_interval_ms:
                            account.account_request_min_start_interval_ms,
                        cached_error_message: account.cached_error_message,
                        terminal_auth_error: account.terminal_auth_error,
                        proxy: account.proxy,
                        ..route
                    },
                ),
                Ok(None) => result matches Err(reply) && is_text_reply(
                    reply,
                    502,
                    "all eligible codex accounts failed for this request"@,
                ),
                Err(_) => result matches Err(reply) && is_text_reply(
                    reply,
                    500,
                    "codex route resolution failed"@,
                ),
            }
        },
{
    if !route.auth_json.as_str().is_empty() {
        return Ok(route);
    }
    match loaded {
        Ok(Some(account)) => {
            let mut route = route;
            route.auth_json = account.auth_json;
            route.map_gpt53_codex_to_spark = account.map_gpt53_codex_to_spark;
            route.auth_refresh_enabled = account.auth_refresh_enabled;
            route.account_request_max_concurrency = account.account_request_max_concurrency;
            route.account_request_min_start_interval_ms =
            account.account_request_min_start_interval_ms;
            route.cached_error_message = account.cached_error_message;
            route.terminal_auth_error = account.terminal_auth_error;
            route.proxy = account.proxy;
            Ok(route)
        },
        Ok(None) => Err(text_reply(502, "all eligible codex accounts failed for this request")),
        Err(_) => Err(text_reply(500, "codex route resolution failed")),
    }
}

/// Completes a route that lacks its credentials from the stored account. A profile
/// or region that the route has is kept.
pub fn hydrate_kiro_route_for_dispatch(
    route: ProviderKiroRoute,
    loaded: Result<Option<ProviderKiroRoute>, ()>,
) -> (result: Result<ProviderKiroRoute, Reply>)
    ensures
        if route.auth_json@.len() > 0 {
            result == Ok::<ProviderKiroRoute, Reply>(route)
        } else {
            match loaded {
                Ok(Some(account)) => result == Ok::<ProviderKiroRoute, Reply>(
                    ProviderKiroRoute {
                        auth_json: account.auth_json,
                        profile_arn: match route.profile_arn {
                            Some(arn) => Some(arn),
                            None => account.profile_arn,
                        },
                        api_region: if trim(route.api_region@).len() == 0 {
                            account.api_region
                        } else {
                            route.api_region
                        },
                        account_request_max_concurrency: account.account_request_max_concurrency,
                        account_request_min_start_interval_ms:
                            account.account_request_min_start_interval_ms,
                        proxy: account.proxy,
                        ..route
                    },
                ),
                Ok(None) => result matches Err(reply) && is_kiro_error(
                    reply,
                    502,
                    "api_error"@,
                    "all eligible kiro accounts failed for this request"@,
                ),
                Err(_) => result matches Err(reply) && is_kiro_error(
                    reply,
                    500,
                    "api_error"@,
                    "kiro route resolution failed"@,
                ),
            }
        },
{
    if !route.auth_json.as_str().is_empty() {
        return Ok(route);
    }
    match loaded {
        Ok(Some(account)) => {
            let mut route = route;
            route.auth_json = account.auth_json;
            if route.profile_arn.is_none() {
                route.profile_arn = account.profile_arn;
            }
            if trimmed(route.api_region.as_str()).as_str().is_empty() {
                route.api_region = account.api_region;
            }
            route.account_request_max_concurrency = account.account_request_max_concurrency;
            route.account_request_min_start_interval_ms =
            account.account_request_min_start_interval_ms;
            route.proxy = account.proxy;
            Ok(route)
        },
        Ok(None) => Err(
            anthropic_json_error(
                502,
                "api_error",
                "all eligible kiro accounts failed for this request",
            ),
        ),
        Err(_) => Err(anthropic_json_error(500, "api_error", "kiro route resolution failed")),
    }
}

/// The key under which the cooldown of a route's proxy is kept.
pub fn proxy_cooldown_key_for_route(route: &ProviderKiroRoute) -> (key: Option<String>)
    ensures
        crate::text::opt_text(key) == match route.proxy {
            Some(proxy) => Some("url:"@ + proxy.proxy_url@),
            None => None,
        },
{
    match &route.proxy {
        Some(proxy) => Some(concat2("url:", proxy.proxy_url.as_str())),
        None => None,
    }
}

/// Who answers a request.
#[derive(Debug, Clone, Copy, PartialEq, Eq, Structural)]
pub enum DispatchTarget {
    Codex,
    Kiro,
    /// No one: the answer is that nothing is wired for it.
    NotWired,
}

/// The provider of a key decides who answers its requests.
pub fn dispatch_target(provider_type: &str) -> (target: DispatchTarget)
    ensures
        target == (if provider_type@ == "codex"@ {
            DispatchTarget::Codex
        } else if provider_type@ == "kiro"@ {
            DispatchTarget::Kiro
        } else {
            DispatchTarget::NotWired
        }),
{
    if crate::text::same_text(provider_type, "codex") {
        DispatchTarget::Codex
    } else if crate::text::same_text(provider_type, "kiro") {
        DispatchTarget::Kiro
    } else {
        DispatchTarget::NotWired
    }
}

// ---------------------------------------------------------------------------
// Laws
// ---------------------------------------------------------------------------

/// A failed account is never among the attempts, nor one that cools down; every
/// other account is.
pub proof fn law_attempts_are_the_usable_accounts(
    routes: Seq<ProviderKiroRoute>,
    facts: Seq<KiroRouteFacts>,
    failed: Seq<Seq<char>>,
    order: Seq<usize>,
    position: usize,
)
    requires
        order.contains(position),
    ensures
        open_attempts(routes, facts, failed, order).contains(position) == (!kiro_failed(
            routes[position as int],
            failed,
        ) && facts[position as int].cooldown_ns is None),
    decreases order.len(),
{
    let usable = !kiro_failed(routes[position as int], failed)
        && facts[position as int].cooldown_ns is None;
    let head = order.drop_last();
    let before = open_attempts(routes, facts, failed, head);
    let all = open_attempts(routes, facts, failed, order);
    if head.contains(position) {
        law_attempts_are_the_usable_accounts(routes, facts, failed, head, position);
        if before.contains(position) {
            let k = choose|k: int| 0 <= k < before.len() && before[k] == position;
            assert(all[k] == position);
        } else if all.contains(position) {
            let k = choose|k: int| 0 <= k < all.len() && all[k] == position;
            assert(k == all.len() - 1 && all[k] == order.last());
        }
    } else {
        let k = choose|k: int| 0 <= k < order.len() && order[k] == position;
        if k < order.len() - 1 {
            assert(head[k] == position);
        }
        assert(order.last() == position);
        lemma_attempts_come_from_order(routes, facts, failed, head, position);
        if usable {
            assert(all.last() == position);
            assert(all[all.len() - 1] == position);
        }
    }
}

proof fn lemma_attempts_come_from_order(
    routes: Seq<ProviderKiroRoute>,
    facts: Seq<KiroRouteFacts>,
    failed: Seq<Seq<char>>,
    order: Seq<usize>,
    position: usize,
)
    requires
        !order.contains(position),
    ensures
        !open_attempts(routes, facts, failed, order).contains(position),
    decreases order.len(),
{
    if order.len() > 0 {
        let head = order.drop_last();
        assert forall|k: int| 0 <= k < head.len() implies head[k] != position by {
            assert(order[k] == head[k]);
        }
        lemma_attempts_come_from_order(routes, facts, failed, head, position);
        assert(order[order.len() - 1] != position);
        let before = open_attempts(routes, facts, failed, head);
        let all = open_attempts(routes, facts, failed, order);
        assert forall|k: int| 0 <= k < all.len() implies all[k] != position by {
            if k < before.len() {
                assert(before[k] == all[k]);
            }
        }
    }
}

proof fn lemma_first_difference_decides(
    routes: Seq<ProviderKiroRoute>,
    facts: Seq<KiroRouteFacts>,
    order: Seq<usize>,
    i: int,
    j: int,
    n: int,
)
    requires
        sorted_positions(kiro_route_keys(routes, facts), order),
        0 <= i < order.len(),
        0 <= j < order.len(),
        0 <= n < 6,
        ({
            let a = kiro_route_key(routes[order[i] as int], facts[order[i] as int]);
            let b = kiro_route_key(routes[order[j] as int], facts[order[j] as int]);
            (forall|k: int| 0 <= k < n ==> a[k] == b[k]) && a[n] < b[n]
        }),
    ensures
        i < j,
{
    let keys = kiro_route_keys(routes, facts);
    let a = keys[order[i] as int];
    let b = keys[order[j] as int];
    assert(a == kiro_route_key(routes[order[i] as int], facts[order[i] as int]));
    assert(b == kiro_route_key(routes[order[j] as int], facts[order[j] as int]));
    assert(a.skip(n)[0] == a[n] && b.skip(n)[0] == b[n]);
    assert(lex_less(a.skip(n), b.skip(n)));
    lemma_lex_after(a, b, n);
    lemma_smaller_key_stands_earlier(keys, order, i, j);
}

/// An account whose proxy works is tried before one whose proxy cools down.
pub proof fn law_working_proxies_go_first(
    routes: Seq<ProviderKiroRoute>,
    facts: Seq<KiroRouteFacts>,
    order: Seq<usize>,
    i: int,
    j: int,
)
    requires
        sorted_positions(kiro_route_keys(routes, facts), order),
        0 <= i < order.len(),
        0 <= j < order.len(),
        !facts[order[i] as int].proxy_in_cooldown,
        facts[order[j] as int].proxy_in_cooldown,
    ensures
        i < j,
{
    lemma_first_difference_decides(routes, facts, order, i, j, 0);
}

/// Of two accounts whose proxies both work, or both cool down, the one with the smaller
/// latency is tried earlier, and one whose latency is known before one whose is not.
pub proof fn law_lower_latency_goes_first(
    routes: Seq<ProviderKiroRoute>,
    facts: Seq<KiroRouteFacts>,
    order: Seq<usize>,
    i: int,
    j: int,
)
    requires
        sorted_positions(kiro_route_keys(routes, facts), order),
        0 <= i < order.len(),
        0 <= j < order.len(),
        facts[order[i] as int].proxy_in_cooldown == facts[order[j] as int].proxy_in_cooldown,
        facts[order[i] as int].latency_order matches Some(a) && match facts[order[j] as int].latency_order {
            Some(b) => a < b,
            None => true,
        },
    ensures
        i < j,
{
    if facts[order[j] as int].latency_order is None {
        lemma_first_difference_decides(routes, facts, order, i, j, 1);
    } else {
        lemma_first_difference_decides(routes, facts, order, i, j, 2);
    }
}

/// Two accounts between which the proxies and the latencies do not decide.
pub open spec fn equally_fast(a: KiroRouteFacts, b: KiroRouteFacts) -> bool {
    a.proxy_in_cooldown == b.proxy_in_cooldown && a.latency_order == b.latency_order
}

/// Of two equally fast accounts the one that started a request longer ago is tried earlier,
/// and one that never did before one that did.
pub proof fn law_longest_idle_goes_first(
    routes: Seq<ProviderKiroRoute>,
    facts: Seq<KiroRouteFacts>,
    order: Seq<usize>,
    i: int,
    j: int,
)
    requires
        sorted_positions(kiro_route_keys(routes, facts), order),
        0 <= i < order.len(),
        0 <= j < order.len(),
        equally_fast(facts[order[i] as int], facts[order[j] as int]),
        facts[order[j] as int].last_started_ns matches Some(b) && match facts[order[i] as int].last_started_ns {
            Some(a) => a < b,
            None => true,
        },
    ensures
        i < j,
{
    if facts[order[i] as int].last_started_ns is None {
        lemma_first_difference_decides(routes, facts, order, i, j, 3);
    } else {
        lemma_first_difference_decides(routes, facts, order, i, j, 4);
    }
}

/// Of two equally fast accounts that started at the same time the one with more credits left
/// is tried earlier. Credits that are not known count as those of minus one credit.
pub proof fn law_most_credits_go_first(
    routes: Seq<ProviderKiroRoute>,
    facts: Seq<KiroRouteFacts>,
    order: Seq<usize>,
    i: int,
    j: int,
)
    requires
        sorted_positions(kiro_route_keys(routes, facts), order),
        0 <= i < order.len(),
        0 <= j < order.len(),
        equally_fast(facts[order[i] as int], facts[order[j] as int]),
        facts[order[i] as int].last_started_ns == facts[order[j] as int].last_started_ns,
        match (
            routes[order[i] as int].cached_remaining_order,
            routes[order[j] as int].cached_remaining_order,
        ) {
            (Some(a), Some(b)) => a > b,
            (Some(a), None) => a > -4607182418800017409,
            (None, Some(b)) => b < -4607182418800017409,
            (None, None) => false,
        },
    ensures
        i < j,
{
    lemma_first_difference_decides(routes, facts, order, i, j, 5);
}

/// Where nothing else decides between two accounts, their names do.
pub proof fn law_names_settle_ties(
    routes: Seq<ProviderKiroRoute>,
    facts: Seq<KiroRouteFacts>,
    order: Seq<usize>,
    i: int,
    j: int,
)
    requires
        sorted_positions(kiro_route_keys(routes, facts), order),
        0 <= i < order.len(),
        0 <= j < order.len(),
        equally_fast(facts[order[i] as int], facts[order[j] as int]),
        facts[order[i] as int].last_started_ns == facts[order[j] as int].last_started_ns,
        routes[order[i] as int].cached_remaining_order
            == routes[order[j] as int].cached_remaining_order,
        text_before(
            routes[order[i] as int].account_name@,
            routes[order[j] as int].account_name@,
        ),
    ensures
        i < j,
{
    let keys = kiro_route_keys(routes, facts);
    let a = keys[order[i] as int];
    let b = keys[order[j] as int];
    assert(a == kiro_route_key(routes[order[i] as int], facts[order[i] as int]));
    assert(b == kiro_route_key(routes[order[j] as int], facts[order[j] as int]));
    assert(a.skip(6) =~= text_key(routes[order[i] as int].account_name@));
    assert(b.skip(6) =~= text_key(routes[order[j] as int].account_name@));
    lemma_lex_after(a, b, 6);
    lemma_smaller_key_stands_earlier(keys, order, i, j);
}

/// The attempts come in the order of the accounts: of two attempts, the earlier one is also
/// earlier in that order.
pub proof fn law_attempts_keep_the_order(
    routes: Seq<ProviderKiroRoute>,
    facts: Seq<KiroRouteFacts>,
    failed: Seq<Seq<char>>,
    order: Seq<usize>,
    k: int,
    l: int,
)
    requires
        0 <= k < l < open_attempts(routes, facts, failed, order).len(),
    ensures
        exists|i: int, j: int|
            0 <= i < j < order.len() && #[trigger] order[i] == open_attempts(
                routes,
                facts,
                failed,
                order,
            )[k] && #[trigger] order[j] == open_attempts(routes, facts, failed, order)[l],
    decreases order.len(),
{
    let all = open_attempts(routes, facts, failed, order);
    if order.len() > 0 {
        let head = order.drop_last();
        let before = open_attempts(routes, facts, failed, head);
        if l < before.len() {
            law_attempts_keep_the_order(routes, facts, failed, head, k, l);
            let (i, j) = choose|i: int, j: int|
                0 <= i < j < head.len() && #[trigger] head[i] == before[k] && #[trigger] head[j]
                    == before[l];
            assert(order[i] == all[k] && order[j] == all[l]);
        } else {
            assert(all[k] == before[k]);
            if !head.contains(before[k]) {
                lemma_attempts_come_from_order(routes, facts, failed, head, before[k]);
                assert(before.contains(before[k]));
            }
            let i = choose|i: int| 0 <= i < head.len() && head[i] == before[k];
            assert(order[i] == all[k] && order[order.len() - 1] == all[l]);
        }
    }
}

/// The account of the session is tried first where it has not failed and neither it nor its
/// proxy cools down; no other account is.
pub proof fn law_the_preferred_account_is_usable(
    routes: Seq<ProviderKiroRoute>,
    facts: Seq<KiroRouteFacts>,
    failed: Seq<Seq<char>>,
    account: Seq<char>,
    position: int,
)
    requires
        first_usable(routes, failed, account, position),
        usable_now(facts[position]),
    ensures
        routes[position].account_name@ == account,
        !failed.contains(account),
        !facts[position].proxy_in_cooldown,
        facts[position].cooldown_ns is None,
{
}

/// Every account that has not failed and whose proxy and itself are not cooling down can be
/// the account of the session, at its first place among the routes.
pub proof fn law_a_usable_account_can_be_preferred(
    routes: Seq<ProviderKiroRoute>,
    facts: Seq<KiroRouteFacts>,
    failed: Seq<Seq<char>>,
    position: int,
)
    requires
        0 <= position < routes.len(),
        !failed.contains(routes[position].account_name@),
        forall|k: int|
            0 <= k < position ==> (#[trigger] routes[k]).account_name@
                != routes[position].account_name@,
        !facts[position].proxy_in_cooldown,
        facts[position].cooldown_ns is None,
    ensures
        first_usable(routes, failed, routes[position].account_name@, position),
        usable_now(facts[position]),
{
}

/// The wait is that of one of the accounts, and no account waits for less; there is none
/// only where no account names one.
pub proof fn law_the_least_wait_is_the_smallest(waits: Seq<Option<u128>>)
    ensures
        match least_wait(waits) {
            Some(wait) => waits.contains(Some(wait)) && forall|k: int|
                0 <= k < waits.len() ==> (#[trigger] waits[k] matches Some(other) ==> wait
                    <= other),
            None => forall|k: int| 0 <= k < waits.len() ==> #[trigger] waits[k] is None,
        },
    decreases waits.len(),
{
    if waits.len() > 0 {
        let head = waits.drop_last();
        law_the_least_wait_is_the_smallest(head);
        if let Some(wait) = least_wait(waits) {
            if least_wait(head) == Some(wait) {
                let k = choose|k: int| 0 <= k < head.len() && head[k] == Some(wait);
                assert(waits[k] == Some(wait));
            } else {
                assert(waits[waits.len() - 1] == Some(wait));
            }
        }
        assert forall|k: int| 0 <= k < waits.len() implies (#[trigger] waits[k] matches Some(other)
            ==> (least_wait(waits) matches Some(wait) && wait <= other)) by {
            if k < head.len() {
                assert(head[k] == waits[k]);
            }
        }
    }
}

/// Of two waits the smaller one counts; one alone counts as it is.
pub proof fn law_the_smaller_wait_counts(a: Option<u128>, b: Option<u128>)
    ensures
        least(a, b) == a || least(a, b) == b,
        least(a, b) is None <==> a is None && b is None,
        least(a, b) matches Some(wait) ==> (a matches Some(x) ==> wait <= x) && (b matches Some(y)
            ==> wait <= y),
{
}

/// The waits are those of the accounts that have not failed and cool down, each of them.
pub proof fn law_cooling_accounts_are_waited_for(
    routes: Seq<ProviderKiroRoute>,
    facts: Seq<KiroRouteFacts>,
    failed: Seq<Seq<char>>,
    order: Seq<usize>,
)
    ensures
        forall|i: int|
            0 <= i < order.len() && !failed.contains(
                routes[(#[trigger] order[i]) as int].account_name@,
            ) && facts[order[i] as int].cooldown_ns is Some ==> cooling_waits(
                routes,
                facts,
                failed,
                order,
            ).contains(facts[order[i] as int].cooldown_ns),
        forall|k: int|
            0 <= k < cooling_waits(routes, facts, failed, order).len() ==> exists|i: int|
                0 <= i < order.len() && !failed.contains(
                    routes[(#[trigger] order[i]) as int].account_name@,
                ) && #[trigger] cooling_waits(routes, facts, failed, order)[k]
                    == facts[order[i] as int].cooldown_ns && facts[order[i] as int].cooldown_ns is Some,
    decreases order.len(),
{
    if order.len() > 0 {
        let head = order.drop_last();
        let before = cooling_waits(routes, facts, failed, head);
        let all = cooling_waits(routes, facts, failed, order);
        law_cooling_accounts_are_waited_for(routes, facts, failed, head);
        assert forall|i: int|
            0 <= i < order.len() && !failed.contains(
                routes[(#[trigger] order[i]) as int].account_name@,
            ) && facts[order[i] as int].cooldown_ns is Some implies all.contains(
            facts[order[i] as int].cooldown_ns,
        ) by {
            if i < head.len() {
                assert(head[i] == order[i]);
                let k = choose|k: int|
                    0 <= k < before.len() && before[k] == facts[order[i] as int].cooldown_ns;
                assert(all[k] == before[k]);
            } else {
                assert(all[all.len() - 1] == facts[order[i] as int].cooldown_ns);
            }
        }
        assert forall|k: int| 0 <= k < all.len() implies exists|i: int|
            0 <= i < order.len() && !failed.contains(
                routes[(#[trigger] order[i]) as int].account_name@,
            ) && #[trigger] all[k] == facts[order[i] as int].cooldown_ns
                && facts[order[i] as int].cooldown_ns is Some by {
            if k < before.len() {
                assert(all[k] == before[k]);
                let i = choose|i: int|
                    0 <= i < head.len() && !failed.contains(
                        routes[(#[trigger] head[i]) as int].account_name@,
                    ) && before[k] == facts[head[i] as int].cooldown_ns
                        && facts[head[i] as int].cooldown_ns is Some;
                assert(order[i] == head[i]);
            } else {
                assert(order[order.len() - 1] == order.last());
            }
        }
    }
}

/// A Codex account that can take a request: it has not failed, its login is alive, no block
/// on it lasts beyond the present, and its limits admit a start.
pub open spec fn can_take(
    route: ProviderCodexRoute,
    failed: Seq<Seq<char>>,
    blocked: Map<Seq<char>, u128>,
    scope: ScopeState,
    now_ns: u128,
) -> bool {
    &&& !failed.contains(route.account_name@)
    &&& !route.terminal_auth_error
    &&& blocked.dom().contains(route.account_name@) ==> blocked[route.account_name@] <= now_ns
    &&& route.account_request_max_concurrency matches Some(limit) ==> limit == 0
        || scope.in_flight < limit
    &&& route.account_request_min_start_interval_ms matches Some(ms) ==> (
    scope.last_start_ns matches Some(start) ==> ms == 0 || now_ns > start + ms * 1_000_000)
}

/// The first account that can take the request gets it; where none can, none does.
pub proof fn law_the_first_able_account_gets_the_request(
    routes: Seq<ProviderCodexRoute>,
    failed: Seq<Seq<char>>,
    blocked: Map<Seq<char>, u128>,
    scopes: Seq<ScopeState>,
    now_ns: u128,
    result: CodexSelection,
)
    requires
        scopes.len() == routes.len(),
        codex_selection_outcome(
            routes.len() as int,
            |k: int| codex_route_state(routes[k], failed, blocked, scopes[k], now_ns),
            result,
        ),
    ensures
        result matches CodexSelection::Acquired { position, permit } ==> position < routes.len()
            && can_take(
            routes[position as int],
            failed,
            blocked,
            scopes[position as int],
            now_ns,
        ) && forall|k: int|
            0 <= k < position ==> !can_take(#[trigger] routes[k], failed, blocked, scopes[k], now_ns),
        !(result is Acquired) ==> forall|k: int|
            0 <= k < routes.len() ==> !can_take(
                #[trigger] routes[k],
                failed,
                blocked,
                scopes[k],
                now_ns,
            ),
{
    let state = |k: int| codex_route_state(routes[k], failed, blocked, scopes[k], now_ns);
    assert forall|k: int| 0 <= k < routes.len() implies can_take(
        #[trigger] routes[k],
        failed,
        blocked,
        scopes[k],
        now_ns,
    ) == (state(k) is Ready) by {
    }
}

/// A request waits only for an account that is held up by its limits alone, and for the one
/// with the shortest wait; it is refused only where no account is held up so. It is refused
/// for the quota exactly where an account that has not failed and whose login is alive
/// cools down.
pub proof fn law_what_a_look_without_a_permit_comes_to(
    routes: Seq<ProviderCodexRoute>,
    failed: Seq<Seq<char>>,
    blocked: Map<Seq<char>, u128>,
    scopes: Seq<ScopeState>,
    now_ns: u128,
    result: CodexSelection,
)
    requires
        scopes.len() == routes.len(),
        codex_selection_outcome(
            routes.len() as int,
            |k: int| codex_route_state(routes[k], failed, blocked, scopes[k], now_ns),
            result,
        ),
    ensures
        result is Wait ==> exists|k: int|
            0 <= k < routes.len() && is_held_up(#[trigger] routes[k], failed, blocked, now_ns),
        result is Refused ==> forall|k: int|
            0 <= k < routes.len() ==> !is_held_up(#[trigger] routes[k], failed, blocked, now_ns),
        result matches CodexSelection::Refused { reply } ==> (reply.status == 429 <==> exists|
            k: int,
        |
            0 <= k < routes.len() && cools_down(#[trigger] routes[k], failed, blocked, now_ns)),
        result matches CodexSelection::Refused { reply } ==> (reply.status == 503 <==> routes.len()
            == 0),
        result matches CodexSelection::Refused { reply } ==> reply.status == 429 || reply.status
            == 502 || reply.status == 503,
{
    let state = |k: int| codex_route_state(routes[k], failed, blocked, scopes[k], now_ns);
    assert forall|k: int| 0 <= k < routes.len() implies (is_held_up(
        #[trigger] routes[k],
        failed,
        blocked,
        now_ns,
    ) == (state(k) is Ready || state(k) is Limited)) && (cools_down(
        routes[k],
        failed,
        blocked,
        now_ns,
    ) == (state(k) is Cooling)) by {
    }
    if let CodexSelection::Wait { wait_ns } = result {
        let k = choose|k: int|
            0 <= k < routes.len() && (#[trigger] state(k)) == (CodexRouteState::Limited { wait_ns });
        assert(is_held_up(routes[k], failed, blocked, now_ns));
    }
    if let CodexSelection::Refused { reply } = result {
        assert forall|k: int| 0 <= k < routes.len() implies !is_held_up(
            #[trigger] routes[k],
            failed,
            blocked,
            now_ns,
        ) by {
            assert(!(state(k) is Ready) && !(state(k) is Limited));
        }
        if exists|k: int| 0 <= k < routes.len() && cools_down(#[trigger] routes[k], failed, blocked, now_ns) {
            let k = choose|k: int|
                0 <= k < routes.len() && cools_down(#[trigger] routes[k], failed, blocked, now_ns);
            assert(state(k) is Cooling);
            assert(!(state(k) is Failed));
        }
    }
}

/// An account that only its limits can hold up.
pub open spec fn is_held_up(
    route: ProviderCodexRoute,
    failed: Seq<Seq<char>>,
    blocked: Map<Seq<char>, u128>,
    now_ns: u128,
) -> bool {
    &&& !failed.contains(route.account_name@)
    &&& !route.terminal_auth_error
    &&& blocked.dom().contains(route.account_name@) ==> blocked[route.account_name@] <= now_ns
}

/// An account that is kept out for a while and for nothing else.
pub open spec fn cools_down(
    route: ProviderCodexRoute,
    failed: Seq<Seq<char>>,
    blocked: Map<Seq<char>, u128>,
    now_ns: u128,
) -> bool {
    &&& !failed.contains(route.account_name@)
    &&& !route.terminal_auth_error
    &&& blocked.dom().contains(route.account_name@)
    &&& blocked[route.account_name@] > now_ns
}

/// How a look without a permit ends: with no account configured, or every one failed, the
/// request is refused; where an account cools down or named a wait, the request waits for
/// the shortest; else no account is usable.
pub proof fn law_how_a_look_without_a_permit_ends(
    routes: &Vec<ProviderKiroRoute>,
    failed_accounts: &Vec<String>,
    cooling: &Vec<Option<u128>>,
    rejections: &Vec<Option<u128>>,
    end: KiroSelectionEnd,
)
    requires
        call_ensures(
            conclude_kiro_selection,
            (routes, failed_accounts, cooling, rejections),
            end,
        ),
    ensures
        routes@.len() == 0 ==> (end matches KiroSelectionEnd::Refused { reply } && reply.status
            == 503),
        routes@.len() > 0 && (forall|i: int|
            0 <= i < routes@.len() ==> texts(failed_accounts@).contains(
                (#[trigger] routes@[i]).account_name@,
            )) ==> (end matches KiroSelectionEnd::Refused { reply } && reply.status == 502),
        forall|i: int|
            0 <= i < routes@.len() && !texts(failed_accounts@).contains(
                (#[trigger] routes@[i]).account_name@,
            ) && cooling@.len() + rejections@.len() > 0 ==> end is Wait,
        forall|i: int|
            0 <= i < routes@.len() && !texts(failed_accounts@).contains(
                (#[trigger] routes@[i]).account_name@,
            ) && cooling@.len() + rejections@.len() == 0 ==> (
            end matches KiroSelectionEnd::Refused { reply } && reply.status == 503),
        end matches KiroSelectionEnd::Wait { wait_ns } ==> (wait_ns matches Some(wait) ==> (
        forall|k: int|
            0 <= k < cooling@.len() ==> (#[trigger] cooling@[k] matches Some(other) ==> wait
                <= other)) && (forall|k: int|
            0 <= k < rejections@.len() ==> (#[trigger] rejections@[k] matches Some(other) ==> wait
                <= other)) && (cooling@.contains(Some(wait)) || rejections@.contains(Some(wait)))),
{
    law_the_least_wait_is_the_smallest(cooling@);
    law_the_least_wait_is_the_smallest(rejections@);
    law_the_smaller_wait_counts(least_wait(cooling@), least_wait(rejections@));
    assert forall|i: int|
        0 <= i < routes@.len() && !texts(failed_accounts@).contains(
            (#[trigger] routes@[i]).account_name@,
        ) implies !all_kiro_failed(routes@, texts(failed_accounts@)) by {
        assert(!kiro_failed(routes@[i], texts(failed_accounts@)));
    }
}

/// The order in which accounts are tried, of the function that gives it: among the proxies
/// that work, the smaller of two known latencies comes earlier.
pub proof fn law_faster_accounts_are_tried_earlier(
    routes: &Vec<ProviderKiroRoute>,
    facts: &Vec<KiroRouteFacts>,
    order: Vec<usize>,
    i: int,
    j: int,
    less: i64,
    more: i64,
)
    requires
        call_ensures(selection_ordered_kiro_routes, (routes, facts), order),
        0 <= i < order@.len(),
        0 <= j < order@.len(),
        !facts@[order@[i] as int].proxy_in_cooldown,
        !facts@[order@[j] as int].proxy_in_cooldown,
        facts@[order@[i] as int].latency_order == Some(less),
        facts@[order@[j] as int].latency_order == Some(more),
        less < more,
    ensures
        i < j,
{
    law_lower_latency_goes_first(routes@, facts@, order@, i, j);
}

/// Every account is tried, and none twice.
pub proof fn law_every_account_has_its_turn(
    routes: &Vec<ProviderKiroRoute>,
    facts: &Vec<KiroRouteFacts>,
    order: Vec<usize>,
)
    requires
        call_ensures(selection_ordered_kiro_routes, (routes, facts), order),
    ensures
        order@.len() == routes@.len(),
        forall|p: usize| p < routes@.len() ==> #[trigger] order@.contains(p),
        forall|i: int, j: int|
            0 <= i < j < order@.len() ==> #[trigger] order@[i] != #[trigger] order@[j],
{
    let keys = kiro_route_keys(routes@, facts@);
    assert forall|i: int, j: int| 0 <= i < j < order@.len() implies #[trigger] order@[i]
        != #[trigger] order@[j] by {
        if order@[i] == order@[j] {
            assert(crate::order::in_order(keys, order@[i], order@[j]));
            crate::order::lemma_lex_irreflexive(keys[order@[i] as int]);
        }
    }
}

/// A selected account with credentials is taken as it is; one without gets them from its
/// record and keeps its name and the limits of the key. An account that is gone, and a
/// record that cannot be read, are told apart.
pub proof fn law_credentials_come_from_the_record(
    route: ProviderCodexRoute,
    loaded: Result<Option<ProviderCodexRoute>, ()>,
    result: Result<ProviderCodexRoute, Reply>,
)
    requires
        call_ensures(hydrate_codex_route_for_dispatch, (route, loaded), result),
    ensures
        route.auth_json@.len() > 0 ==> result == Ok::<ProviderCodexRoute, Reply>(route),
        route.auth_json@.len() == 0 ==> (loaded matches Ok(Some(account)) ==> (
        result matches Ok(ready) && ready.auth_json == account.auth_json && ready.account_name
            == route.account_name && ready.request_max_concurrency == route.request_max_concurrency
            && ready.request_min_start_interval_ms == route.request_min_start_interval_ms
            && ready.account_request_max_concurrency == account.account_request_max_concurrency
            && ready.terminal_auth_error == account.terminal_auth_error && ready.proxy
            == account.proxy)),
        route.auth_json@.len() == 0 ==> (loaded matches Ok(None) ==> (result matches Err(reply)
            && reply.status == 502)),
        route.auth_json@.len() == 0 && loaded is Err ==> (result matches Err(reply) && reply.status
            == 500),
{
}

/// The same of a Kiro account, which keeps its own profile and region where it has them.
pub proof fn law_kiro_credentials_come_from_the_record(
    route: ProviderKiroRoute,
    loaded: Result<Option<ProviderKiroRoute>, ()>,
    result: Result<ProviderKiroRoute, Reply>,
)
    requires
        call_ensures(hydrate_kiro_route_for_dispatch, (route, loaded), result),
    ensures
        route.auth_json@.len() > 0 ==> result == Ok::<ProviderKiroRoute, Reply>(route),
        route.auth_json@.len() == 0 ==> (loaded matches Ok(Some(account)) ==> (
        result matches Ok(ready) && ready.auth_json == account.auth_json && ready.account_name
            == route.account_name && ready.routing_identity == route.routing_identity
            && ready.compact_trigger_tokens == route.compact_trigger_tokens && ready.proxy
            == account.proxy && (route.profile_arn is Some ==> ready.profile_arn
            == route.profile_arn) && (route.profile_arn is None ==> ready.profile_arn
            == account.profile_arn) && (trim(route.api_region@).len() > 0 ==> ready.api_region
            == route.api_region) && (trim(route.api_region@).len() == 0 ==> ready.api_region
            == account.api_region))),
        route.auth_json@.len() == 0 ==> (loaded matches Ok(None) ==> (result matches Err(reply)
            && reply.status == 502)),
        route.auth_json@.len() == 0 && loaded is Err ==> (result matches Err(reply) && reply.status
            == 500),
{
}

} // verus!
