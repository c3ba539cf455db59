use llm_access::kiro_status::{
    admin_kiro_balance_from_usage, build_disabled_status_update, build_error_status_update,
    build_ready_status_update, next_kiro_account_jitter, next_kiro_refresh_delay, now_ms, refresh_account_status,
    refresh_route_status_update, status_expires_at, AdminKiroBalanceView, AdminKiroCacheView, AdminKiroStatusCacheUpdate,
    KiroRefreshStep, KiroStatusFacts,
};

fn balance() -> AdminKiroBalanceView<f64> {
    AdminKiroBalanceView {
        current_usage: 58.0,
        usage_limit: 100.0,
        remaining: 42.0,
        next_reset_at: Some(999),
        subscription_title: Some("Pro".to_string()),
        user_id: Some("user-1".to_string()),
    }
}

fn route_with_prior_status() -> KiroStatusFacts<AdminKiroBalanceView<f64>> {
    KiroStatusFacts {
        account_name: "kiro-a".to_string(),
        status_refresh_interval_seconds: 180,
        cached_balance: Some(balance()),
        last_success_at: Some(900),
    }
}

#[test]
fn error_status_update_preserves_prior_balance_and_marks_degraded() {
    let update = build_error_status_update(route_with_prior_status(), 2_000, "boom".to_string());

    assert_eq!(update.account_name, "kiro-a");
    assert_eq!(update.balance, route_with_prior_status().cached_balance);
    assert_eq!(update.cache.status, "degraded");
    assert_eq!(update.cache.last_checked_at, Some(2_000));
    assert_eq!(update.cache.last_success_at, Some(900));
    assert_eq!(update.cache.error_message.as_deref(), Some("boom"));
    assert_eq!(update.expires_at_ms, 182_000);
}

#[test]
fn error_without_a_balance_is_an_error() {
    let mut facts = route_with_prior_status();
    facts.cached_balance = None;
    facts.last_success_at = None;
    let update = refresh_route_status_update(facts, 2_000, Err("boom".to_string()));
    assert_eq!(update.cache.status, "error");
    assert_eq!(update.balance, None);
    assert_eq!(update.cache.last_success_at, None);
    assert_eq!(update.last_error.as_deref(), Some("boom"));
}

#[test]
fn ready_status_update_converts_usage_limits_and_sets_interval() {
    let current_usage: f64 = 10.0 + 2.0 + 3.0;
    let usage_limit: f64 = 100.0 + 20.0 + 30.0;
    let fetched = admin_kiro_balance_from_usage(
        current_usage,
        usage_limit,
        (usage_limit - current_usage).max(0.0),
        Some(Some(800)),
        Some(900),
        Some("Pro".to_string()),
        Some("user-1".to_string()),
    );
    let route = route_with_prior_status();

    let update = build_ready_status_update(route, 2_000, fetched);

    assert_eq!(update.cache.status, "ready");
    assert_eq!(update.cache.refresh_interval_seconds, 180);
    assert_eq!(update.cache.last_checked_at, Some(2_000));
    assert_eq!(update.cache.last_success_at, Some(2_000));
    assert_eq!(update.expires_at_ms, 182_000);
    let balance = update.balance.expect("balance");
    assert_eq!(balance.current_usage, 15.0);
    assert_eq!(balance.usage_limit, 150.0);
    assert_eq!(balance.remaining, 135.0);
    assert_eq!(balance.next_reset_at, Some(800));
    assert_eq!(balance.subscription_title.as_deref(), Some("Pro"));
    assert_eq!(balance.user_id.as_deref(), Some("user-1"));
}

#[test]
fn the_first_part_tells_the_reset() {
    let at = |first, whole| {
        admin_kiro_balance_from_usage(1, 2, 1, first, whole, None, None).next_reset_at
    };
    assert_eq!(at(None, Some(900)), None);
    assert_eq!(at(Some(None), Some(900)), Some(900));
    assert_eq!(at(Some(Some(800)), Some(900)), Some(800));
    assert_eq!(at(Some(None), None), None);
}

#[test]
fn ready_status_holds_the_fetched_balance() {
    let update = build_ready_status_update(route_with_prior_status(), 2_000, balance());
    assert_eq!(update.cache.status, "ready");
    assert_eq!(update.cache.refresh_interval_seconds, 180);
    assert_eq!(update.cache.last_checked_at, Some(2_000));
    assert_eq!(update.cache.last_success_at, Some(2_000));
    assert_eq!(update.expires_at_ms, 182_000);
    assert_eq!(update.balance, Some(balance()));
    let again = refresh_route_status_update(route_with_prior_status(), 3_000, Ok(balance()));
    assert_eq!(again.refreshed_at_ms, 3_000);
    assert_eq!(again.cache.status, "ready");
}

#[test]
fn disabled_accounts_have_no_balance() {
    let cache = AdminKiroCacheView {
        status: "ready".to_string(),
        refresh_interval_seconds: 60,
        last_checked_at: Some(1),
        last_success_at: Some(2),
        error_message: Some("old".to_string()),
    };
    let update: AdminKiroStatusCacheUpdate<u8> =
        build_disabled_status_update(&"kiro-b".to_string(), &cache, 1_000);
    assert_eq!(update.account_name, "kiro-b");
    assert_eq!(update.balance, None);
    assert_eq!(update.cache.status, "disabled");
    assert_eq!(update.cache.last_success_at, Some(2));
    assert_eq!(update.cache.error_message, None);
    assert_eq!(update.expires_at_ms, 61_000);
}

#[test]
fn expiry_stops_at_the_largest_time() {
    assert_eq!(status_expires_at(5, 2), 2_005);
    assert_eq!(status_expires_at(5, u64::MAX), 9_223_372_036_854_775_005);
    assert_eq!(status_expires_at(i64::MAX - 1, 1), i64::MAX);
    assert_eq!(now_ms(Some(u128::MAX)), i64::MAX);
    assert_eq!(now_ms(Some(12)), 12);
    assert_eq!(now_ms(None), 0);
}

#[test]
fn refresh_steps_follow_the_account() {
    assert_eq!(refresh_account_status(true, true), KiroRefreshStep::SaveDisabled);
    assert_eq!(refresh_account_status(false, false), KiroRefreshStep::Skip);
    assert_eq!(refresh_account_status(false, true), KiroRefreshStep::Fetch);
}

#[test]
fn delays_stay_between_their_bounds() {
    for _ in 0..50 {
        let delay = next_kiro_refresh_delay(20, 10);
        assert!((10..=20).contains(&delay));
        assert!(next_kiro_account_jitter(3) <= 3);
    }
    assert_eq!(next_kiro_refresh_delay(7, 7), 7);
    assert_eq!(next_kiro_account_jitter(0), 0);
}
