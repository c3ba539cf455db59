use llm_access::limiter::{
    codex_key_limit_response, kiro_key_limit_response, try_acquire_key_permit, wait_for_limit,
    CodexAccountCooldowns, LimitReason, LimitRejection, RequestLimiter,
};
use llm_access::name_map::NameMap;
use llm_access::order::{group_texts, key_less, sort_positions, text_less};
use llm_access::paths::{join_path, lies_under};
use llm_access::types::AuthenticatedKey;

const MS: u128 = 1_000_000;

fn key(id: &str) -> AuthenticatedKey {
    AuthenticatedKey { key_id: id.to_string(), key_name: "name".to_string() }
}

#[test]
fn requests_in_flight_stay_below_the_limit() {
    let mut limiter = RequestLimiter::new();
    let first = limiter.try_acquire("a".to_string(), Some(2), None, 0).ok().expect("first");
    let _second = limiter.try_acquire("a".to_string(), Some(2), None, 0).ok().expect("second");
    assert_eq!(limiter.in_flight("a"), 2);
    let Err(rejection) = limiter.try_acquire("a".to_string(), Some(2), None, 0) else {
        panic!("the scope is full");
    };
    assert_eq!(rejection.reason, LimitReason::MaxConcurrency);
    assert_eq!(rejection.in_flight, 2);
    assert!(limiter.try_acquire("b".to_string(), Some(2), None, 0).is_ok());
    limiter.release(first);
    assert_eq!(limiter.in_flight("a"), 1);
    assert!(limiter.try_acquire("a".to_string(), Some(2), None, 0).is_ok());
}

#[test]
fn a_limit_of_zero_is_no_limit() {
    let mut limiter = RequestLimiter::new();
    for _ in 0..5 {
        assert!(limiter.try_acquire("a".to_string(), Some(0), Some(0), 7).is_ok());
    }
    assert_eq!(limiter.in_flight("a"), 5);
}

#[test]
fn starts_keep_their_distance() {
    let mut limiter = RequestLimiter::new();
    let key = key("k");
    assert!(try_acquire_key_permit(&mut limiter, &key, None, Some(100), 1000 * MS).is_ok());
    let Err(rejection) = try_acquire_key_permit(&mut limiter, &key, None, Some(100), 1040 * MS)
    else {
        panic!("too early");
    };
    assert_eq!(rejection.reason, LimitReason::MinStartInterval);
    assert_eq!(rejection.wait_ns, Some(60 * MS));
    assert_eq!(rejection.elapsed_since_last_start_ms, Some(40));
    assert_eq!(wait_for_limit(Some(&rejection)), 60 * MS);
    assert!(try_acquire_key_permit(&mut limiter, &key, None, Some(100), 1101 * MS).is_ok());
}

#[test]
fn waiting_has_a_default() {
    assert_eq!(wait_for_limit(None), 10 * MS);
}

#[test]
fn limit_replies_tell_the_limit() {
    let rejection = LimitRejection {
        reason: LimitReason::MaxConcurrency,
        in_flight: 3,
        max_concurrency: Some(3),
        min_start_interval_ms: None,
        wait_ns: None,
        elapsed_since_last_start_ms: Some(12),
    };
    let codex = codex_key_limit_response(&rejection);
    assert_eq!(codex.status, 429);
    assert!(!codex.json);
    assert!(codex.body.starts_with("key request limit reached: "), "{}", codex.body);
    assert!(codex.body.ends_with(" elapsed_since_last_start_ms=12"), "{}", codex.body);
    let kiro = kiro_key_limit_response(&rejection);
    assert_eq!(kiro.status, 429);
    assert!(kiro.json);
    assert!(kiro.body.contains("Kiro key request limit reached: "), "{}", kiro.body);
    assert!(kiro.body.contains("\"rate_limit_error\""), "{}", kiro.body);
}

#[test]
fn cooldowns_end_and_never_shorten() {
    let mut cooldowns = CodexAccountCooldowns::new();
    assert_eq!(cooldowns.cooldown_for_account("a", 0), None);
    cooldowns.mark_account_cooldown("a", 50 * MS, 0);
    cooldowns.mark_account_cooldown("a", 10 * MS, 0);
    assert_eq!(cooldowns.cooldown_for_account("a", 20 * MS), Some(30 * MS));
    assert_eq!(cooldowns.cooldown_for_account("b", 20 * MS), None);
    assert_eq!(cooldowns.cooldown_for_account("a", 50 * MS), None);
    assert_eq!(cooldowns.cooldown_for_account("a", 0), None);
}

#[test]
fn names_are_kept_once() {
    let mut map: NameMap<u32> = NameMap::new();
    map.insert("a", 1);
    map.insert("b", 2);
    map.insert("a", 3);
    assert_eq!(map.get("a"), Some(&3));
    assert_eq!(map.get("b"), Some(&2));
    map.remove("a");
    assert!(!map.has("a"));
    assert!(map.has("b"));
}

#[test]
fn sorting_keeps_equal_keys_in_their_order() {
    let keys = vec![vec![2, 1], vec![1, 9], vec![2, 1], vec![1]];
    assert_eq!(sort_positions(&keys), vec![3, 1, 0, 2]);
    assert!(key_less(&vec![1], &vec![1, 0]));
    assert!(!key_less(&vec![1, 0], &vec![1, 0]));
    assert!(text_less("ab", "b"));
    assert!(!text_less("b", "ab"));
}

#[test]
fn equal_texts_form_one_group() {
    let list = vec!["b".to_string(), "a".to_string(), "b".to_string()];
    assert_eq!(group_texts(&list), vec![vec![1], vec![0, 2]]);
}

#[test]
fn joined_paths_lie_under_their_root() {
    assert_eq!(join_path("/mnt/state", "logs"), "/mnt/state/logs");
    assert_eq!(join_path("/mnt/state/", "logs"), "/mnt/state/logs");
    assert!(lies_under("/mnt/state", "/mnt/state/logs"));
    assert!(lies_under("/mnt/state", "/mnt/state"));
    assert!(lies_under("/mnt/state/", "/mnt//state/./logs"));
    assert!(!lies_under("/mnt/state", "/mnt/state2"));
    assert!(!lies_under("/mnt/state", "mnt/state/logs"));
}
