use llm_access::config::RequestCacheSettings;
use llm_access::kiro_cache_snapshot::{
    at_least_a_second, bytes_after_fetch, collect_peer_keys, flush_snapshot, next_snapshot_action,
    peer_step, snapshot_caps_from_admin_config, snapshot_is_fetched, KiroCacheSnapshotStore,
    PeerStep, SnapshotAction, SnapshotEvent, SnapshotSettings,
};
use llm_access::kiro_latency::{
    account_stat_key, find_account_stat, find_proxy_stat, latency_ranking_url, route_score,
    snapshot_is_current, LatencyStat, ScoreSource,
};
use llm_access::rollup_backlog::{
    backlog_root, claim_next, create_dirs, pending_sealed_paths, push_sample, restore_claim,
    restore_consuming_file, unique_bad_path, AbandonedClaim, BacklogFile,
    UsageRollupBacklogLoadReport,
};

fn texts(list: &[&str]) -> Vec<String> {
    list.iter().map(|text| text.to_string()).collect()
}

fn snapshots(node_id: Option<&str>) -> KiroCacheSnapshotStore {
    let config = RequestCacheSettings {
        url: "redis://x".to_string(),
        key_prefix: "llma".to_string(),
    };
    KiroCacheSnapshotStore::new(&config, node_id.map(str::to_string))
}

#[test]
fn snapshot_keys_name_their_node() {
    let store = snapshots(Some("node-a"));
    assert_eq!(store.own_key(), "llma:kiro:cachesnap:node:node-a");
    assert_eq!(store.node_key("b"), "llma:kiro:cachesnap:node:b");
    assert_eq!(store.scan_pattern(), "llma:kiro:cachesnap:node:*");
    assert_eq!(snapshots(None).own_key(), "llma:kiro:cachesnap:node:_single");
}

#[test]
fn peers_are_all_nodes_but_the_own() {
    let mut keys = texts(&["k0"]);
    assert!(!collect_peer_keys(&mut keys, &texts(&["own", "k1", "own", "k2"]), "own"));
    assert_eq!(keys, texts(&["k0", "k1", "k2"]));
    let many: Vec<String> = (0..40).map(|n| format!("p{n}")).collect();
    assert!(collect_peer_keys(&mut keys, &many, "own"));
    assert_eq!(keys.len(), 32);
    assert_eq!(keys[31], "p28");
}

#[test]
fn peer_bytes_are_bounded() {
    let limit = 256 * 1024 * 1024;
    assert_eq!(peer_step(0, 0, 100), PeerStep::Skip);
    assert_eq!(peer_step(0, 101, 100), PeerStep::Skip);
    assert_eq!(peer_step(limit - 10, 10, 100), PeerStep::Fetch);
    assert_eq!(peer_step(limit - 10, 11, 100), PeerStep::Stop);
    assert_eq!(bytes_after_fetch(3, 4), 7);
    assert_eq!(bytes_after_fetch(usize::MAX, 4), usize::MAX);
    assert!(snapshot_is_fetched(100, 100) && !snapshot_is_fetched(0, 100));
}

#[test]
fn snapshot_limits_of_zero_are_none() {
    let caps = snapshot_caps_from_admin_config(0, 7);
    assert_eq!(caps.max_tokens, None);
    assert_eq!(caps.max_anchor_entries, Some(7));
    assert_eq!(at_least_a_second(0), 1);
    assert_eq!(at_least_a_second(9), 9);
}

fn stat(key: &str, samples: u64, finite: bool) -> LatencyStat {
    LatencyStat { key: key.to_string(), samples, finite }
}

#[test]
fn last_usable_measurement_counts() {
    let stats = vec![
        stat("account:a", 3, true),
        stat("a", 5, true),
        stat("account:a", 0, true),
        stat("account:a", 4, false),
        stat("http://p", 1, true),
    ];
    assert_eq!(account_stat_key("account:x"), "x");
    assert_eq!(account_stat_key("x"), "x");
    assert_eq!(find_account_stat(&stats, "a"), Some(1));
    assert_eq!(find_account_stat(&stats, "b"), None);
    assert_eq!(find_proxy_stat(&stats, "account:a"), Some(0));
    assert_eq!(find_proxy_stat(&stats, "http://p"), Some(4));
}

#[test]
fn routes_are_scored_by_their_account_and_proxy() {
    let accounts = vec![stat("account:a", 3, true)];
    let proxies = vec![stat("http://p", 1, true)];
    let score = match route_score(true, true, &accounts, &proxies, "a", Some("http://q")) {
        Some(score) => score,
        None => panic!("no score"),
    };
    assert_eq!(score.account, ScoreSource::Stat(0));
    assert_eq!(score.proxy, ScoreSource::Average);
    assert!(route_score(false, true, &accounts, &proxies, "a", None).is_none());
    assert!(route_score(true, false, &accounts, &proxies, "a", None).is_none());
}

#[test]
fn old_measurements_are_not_used() {
    assert!(snapshot_is_current(300_000, 0, true));
    assert!(!snapshot_is_current(300_001, 0, true));
    assert!(!snapshot_is_current(0, 0, false));
    assert!(!snapshot_is_current(i64::MAX, i64::MIN, true));
    assert_eq!(
        latency_ranking_url("http://w//"),
        "http://w/internal/kiro-gateway/latency-ranking?source=hot&window=1h"
    );
}

fn file(name: &str, sequence: Option<u64>) -> BacklogFile {
    BacklogFile { name: name.to_string(), sequence }
}

#[test]
fn oldest_backlog_file_is_claimed_first() {
    let files = vec![
        file("rollup-9.journal", Some(9)),
        file("notes.txt", None),
        file("rollup-2.journal", Some(2)),
    ];
    let names = pending_sealed_paths(&files);
    assert_eq!(names, texts(&["rollup-2.journal", "rollup-9.journal"]));
    let root = backlog_root("/j");
    assert_eq!(root, "/j/control-rollups");
    let claim = match claim_next(&root, &names) {
        Some(claim) => claim,
        None => panic!("no claim"),
    };
    assert_eq!(claim.path(), "/j/control-rollups/consuming/rollup-2.journal");
    assert_eq!(claim.sealed_path, "/j/control-rollups/sealed/rollup-2.journal");
    assert_eq!(restore_claim(&claim, false), Ok(()));
    assert_eq!(
        restore_claim(&claim, true),
        Err("cannot restore rollup backlog claim \
             `/j/control-rollups/consuming/rollup-2.journal` because sealed target \
             `/j/control-rollups/sealed/rollup-2.journal` exists"
            .to_string())
    );
    assert!(claim_next("/j", &Vec::new()).is_none());
    assert_eq!(create_dirs("/r"), texts(&["/r/active", "/r/sealed", "/r/consuming", "/r/bad"]));
}

#[test]
fn abandoned_claims_go_back_or_aside() {
    assert_eq!(restore_consuming_file(&file("x", None), false), AbandonedClaim::Ignore);
    assert_eq!(restore_consuming_file(&file("x", Some(1)), true), AbandonedClaim::Quarantine);
    assert_eq!(restore_consuming_file(&file("x", Some(1)), false), AbandonedClaim::Restore);
}

#[test]
fn bad_files_overwrite_nothing() {
    assert_eq!(
        unique_bad_path("/r", "/r/sealed/f", "f", &Vec::new(), 5),
        Ok("/r/bad/f".to_string())
    );
    assert_eq!(
        unique_bad_path("/r", "/r/sealed/f", "f", &texts(&["f", "f.bad-5-1"]), 5),
        Ok("/r/bad/f.bad-5-2".to_string())
    );
    let mut taken = texts(&["f"]);
    for n in 1..=1024 {
        taken.push(format!("f.bad-5-{n}"));
    }
    assert_eq!(
        unique_bad_path("/r", "/r/sealed/f", "f", &taken, 5),
        Err("failed to find unique quarantine path for rollup backlog `/r/sealed/f`".to_string())
    );
}

#[test]
fn load_report_keeps_few_distinct_samples() {
    let mut report = UsageRollupBacklogLoadReport::start(3);
    report.loaded(4);
    report.quarantined("/r/bad/a".to_string());
    report.quarantined("/r/bad/a".to_string());
    assert_eq!(report.sealed_file_count, 3);
    assert_eq!(report.loaded_file_count, 1);
    assert_eq!(report.loaded_batch_count, 4);
    assert_eq!(report.quarantined_file_count, 2);
    assert_eq!(report.bad_file_samples, texts(&["/r/bad/a"]));
    let mut samples = Vec::new();
    for n in 0..20 {
        push_sample(&mut samples, format!("s{n}"));
    }
    assert_eq!(samples.len(), 8);
    assert_eq!(samples[7], "s7");
}

#[test]
fn snapshots_are_stored_until_the_stop() {
    let on = SnapshotSettings { enabled: true, interval_seconds: 0, ttl_seconds: 30 };
    let mut last = SnapshotSettings { enabled: false, interval_seconds: 9, ttl_seconds: 0 };
    let idle = next_snapshot_action(&mut last, SnapshotEvent::Timer);
    assert_eq!(idle, SnapshotAction::ReadSettings { flush: None });
    let wait = next_snapshot_action(&mut last, SnapshotEvent::Settings { read: Some(on) });
    assert_eq!(wait, SnapshotAction::Wait { seconds: 1 });
    let wait = next_snapshot_action(&mut last, SnapshotEvent::Settings { read: None });
    assert_eq!(wait, SnapshotAction::Wait { seconds: 1 });
    assert_eq!(last, on);
    let flushed = next_snapshot_action(&mut last, SnapshotEvent::Timer);
    assert_eq!(flushed, SnapshotAction::ReadSettings { flush: Some(30) });
    let going_on = next_snapshot_action(&mut last, SnapshotEvent::Signal { stop: false });
    assert_eq!(going_on, SnapshotAction::ReadSettings { flush: None });
    let stopped = next_snapshot_action(&mut last, SnapshotEvent::Signal { stop: true });
    assert_eq!(stopped, SnapshotAction::Stop { flush: Some(30) });
    let brief = SnapshotSettings { enabled: true, interval_seconds: 5, ttl_seconds: 0 };
    assert_eq!(flush_snapshot(&brief), Some(1));
}
