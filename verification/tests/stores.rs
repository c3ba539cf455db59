use llm_access::account_store::{
    account_not_configured, mark_kiro_account_quota_exhausted, order_codex_routes, page_limit,
    page_total, patch_admin_account_group, resolve_codex_account_route, resolve_codex_route_candidates,
    resolve_kiro_account_route, resolve_kiro_route_candidates, resolve_route_account_names,
    route_strategy_of, save_codex_auth_update, save_kiro_auth_update,
    set_codex_account_auto_refresh_enabled, unordered_codex_routes,
    AdminAccountGroup, AdminAccountGroupPatch, CodexAccountRecord, CodexAccountView,
    CodexKeySnapshot, KeyRouteConfig, KiroAccountRecord, KiroAccountView, KiroKeySnapshot,
    KiroRuntimeConfig, KiroSettings, ProviderCodexAuthUpdate, ProviderKiroAuthUpdate, RouteError,
};
use llm_access::json::parse_text;
use llm_access::name_map::NameMap;
use llm_access::proxy_attribution::{
    attributed_slot, build_codex_usage_proxy_attribution, build_kiro_usage_proxy_attribution,
    kiro_account_proxy, kiro_proxy_choice, resolve_usage_proxy_attribution, AttributionEvent,
    AttributionStep, CachedAttribution, ProxyView,
};
use llm_access::proxy_migration::{
    choose_legacy_slot, import_legacy_kiro_proxy_configs, legacy_proxy_groups, legacy_proxy_of, sorted_names, LegacyKiroAccount,
    LegacyProxy, MigrationWrite, SlotChoice,
};
use llm_access::proxy_store::{
    apply_proxy_endpoint_checks_to_config, apply_proxy_endpoint_checks_to_configs,
    clear_legacy_kiro_proxy_json, create_admin_proxy_config, delete_admin_proxy_config,
    get_admin_proxy_config_row, load_admin_proxy_binding_from_configs, patch_admin_proxy_config,
    patch_admin_proxy_config_node_override, provider_proxy_from_admin_proxy,
    record_admin_proxy_endpoint_check, reset_admin_proxy_config_override,
    resolve_provider_proxy_config_from_context, AdminProxyBinding, AdminProxyConfig,
    AdminProxyConfigPatch, BindingRow, EndpointCheck, NewAdminProxyConfig, OverrideReset,
    ProviderProxyResolutionContext, ProxyConfigNodeOverride, ProxyEndpointCheckRow, ProxyError,
    ProxyScope,
};
use llm_access::review_store::{
    approve_admin_sponsor_request, creates_account, creates_key,
    fail_admin_account_contribution_request, issue_admin_account_contribution_request,
    issue_admin_token_request, page_has_more, page_is_empty,
    record_public_sponsor_payment_email_result, reject_admin_account_contribution_request,
    reject_admin_token_request, routes_key_to_group, validate_admin_account_contribution_request,
    AdminReviewQueueAction, ContributedAccount, CreatedKey, ReviewState, SponsorStatus,
};
use llm_access::rollup::{
    apply_usage_rollup_batches_impl, batch_decision, legacy_json_usage_rollup_batch_digest,
    marker_counts, row_chunks, row_updated_at, usage_rollup_batch_digest, MarkedBatch,
    MarkerDecision, RollupError, RollupRun, UsageRollupBatch,
};
use llm_access::types::{ProviderCodexRoute, ProviderType, RouteStrategy};

fn text(text: &str) -> Option<String> {
    Some(text.to_string())
}

fn slot(id: &str, url: &str, status: &str) -> AdminProxyConfig {
    AdminProxyConfig {
        id: id.to_string(),
        name: format!("slot {id}"),
        proxy_url: url.to_string(),
        proxy_username: None,
        proxy_password: None,
        status: status.to_string(),
        created_at: 1,
        updated_at: 2,
        scope_node_id: None,
        effective_source: "core".to_string(),
        has_node_override: false,
        can_edit_slot_metadata: true,
        latest_codex_check: None,
        latest_kiro_check: None,
    }
}

fn edge() -> ProxyScope {
    ProxyScope { scope_node_id: text("edge-1"), can_edit_slot_metadata: false }
}

fn centre() -> ProxyScope {
    ProxyScope { scope_node_id: None, can_edit_slot_metadata: true }
}

fn patch() -> AdminProxyConfigPatch {
    AdminProxyConfigPatch {
        name: None,
        proxy_url: None,
        proxy_username: None,
        proxy_password: None,
        status: None,
        updated_at_ms: 50,
    }
}

// Proxy slots

#[test]
fn overrides_show_only_on_their_node() {
    let row = || {
        Some(ProxyConfigNodeOverride {
            proxy_url: "http://edge".to_string(),
            proxy_username: None,
            proxy_password: None,
            status: "active".to_string(),
            created_at_ms: 3,
            updated_at_ms: 4,
        })
    };
    let mut there = slot("p", "http://core", "active");
    let checks = vec![check_row("p", "kiro", 7), check_row("other", "codex", 8)];
    get_admin_proxy_config_row(&mut there, &edge(), &row(), &checks);
    assert!(there.latest_kiro_check.is_some());
    assert!(there.latest_codex_check.is_none());
    assert_eq!(there.proxy_url, "http://edge");
    assert_eq!(there.effective_source, "node_override");
    assert!(there.has_node_override);
    assert_eq!(there.scope_node_id, text("edge-1"));
    let mut here = slot("p", "http://core", "active");
    get_admin_proxy_config_row(&mut here, &centre(), &row(), &vec![]);
    assert_eq!(here.proxy_url, "http://core");
    assert_eq!(here.effective_source, "core");
    let mut plain = slot("p", "http://core", "active");
    get_admin_proxy_config_row(&mut plain, &edge(), &None, &vec![]);
    assert_eq!(plain.effective_source, "core");
}

#[test]
fn only_the_core_manages_slots() {
    let new = || NewAdminProxyConfig {
        id: "p".to_string(),
        name: "n".to_string(),
        proxy_url: "http://p".to_string(),
        proxy_username: None,
        proxy_password: None,
        created_at_ms: 9,
    };
    let created = create_admin_proxy_config(&centre(), new()).ok().expect("created");
    assert_eq!(created.1, "active");
    assert_eq!(created.2, 9);
    let refused = create_admin_proxy_config(&edge(), new());
    assert!(matches!(refused, Err(ProxyError::CreateOffCore)));
    assert!(matches!(delete_admin_proxy_config(&edge()), Err(ProxyError::DeleteOffCore)));
    assert!(delete_admin_proxy_config(&centre()).is_ok());
    assert!(matches!(reset_admin_proxy_config_override(false, false), OverrideReset::Unknown));
    assert!(matches!(reset_admin_proxy_config_override(true, true), OverrideReset::Keep));
    assert!(matches!(reset_admin_proxy_config_override(true, false), OverrideReset::Forget));
}

#[test]
fn patches_change_what_they_name() {
    let mut changed = slot("p", "http://core", "active");
    let mut change = patch();
    change.name = text("renamed");
    change.proxy_username = Some(text("user"));
    patch_admin_proxy_config(&mut changed, &change);
    assert_eq!(changed.name, "renamed");
    assert_eq!(changed.proxy_username, text("user"));
    assert_eq!(changed.proxy_url, "http://core");
    assert_eq!(changed.updated_at, 50);
    let base = slot("p", "http://core", "active");
    let refused = patch_admin_proxy_config_node_override(&base, &None, &change);
    assert!(matches!(refused, Err(ProxyError::RenameOffCore)));
    let same = patch_admin_proxy_config_node_override(&base, &None, &patch()).ok().expect("row");
    assert_eq!(same.proxy_url, "http://core");
    assert_eq!((same.created_at_ms, same.updated_at_ms), (50, 50));
}

fn check_row(id: &str, provider: &str, at: i64) -> ProxyEndpointCheckRow {
    ProxyEndpointCheckRow {
        proxy_config_id: id.to_string(),
        provider_type: provider.to_string(),
        check: EndpointCheck {
            target_url: "https://t".to_string(),
            reachable: true,
            status_code: Some(200),
            latency_ms: 5,
            error_message: None,
            checked_at_ms: at,
        },
    }
}

#[test]
fn the_latest_check_counts() {
    let rows = vec![check_row("p", "codex", 1), check_row("q", "kiro", 2), check_row("p", "codex", 3)];
    let mut own = slot("p", "http://p", "active");
    apply_proxy_endpoint_checks_to_config(&mut own, &rows);
    assert_eq!(own.latest_codex_check.expect("check").checked_at_ms, 3);
    assert!(own.latest_kiro_check.is_none());
    let mut all = vec![slot("q", "http://q", "active"), slot("r", "http://r", "active")];
    apply_proxy_endpoint_checks_to_configs(&mut all, &rows);
    assert!(all[0].latest_kiro_check.is_some());
    assert!(all[1].latest_kiro_check.is_none());
    assert!(record_admin_proxy_endpoint_check("kiro").is_ok());
    assert!(matches!(
        record_admin_proxy_endpoint_check("x"),
        Err(ProxyError::UnsupportedProvider { provider }) if provider == "x"
    ));
}

fn bound(id: &str) -> Option<BindingRow> {
    Some(BindingRow {
        provider_type: "kiro".to_string(),
        proxy_config_id: id.to_string(),
        updated_at_ms: 7,
    })
}

fn slots() -> Vec<AdminProxyConfig> {
    vec![slot("p", "http://p", "active"), slot("off", "http://off", "disabled")]
}

fn binding(id: &str) -> AdminProxyBinding {
    load_admin_proxy_binding_from_configs("kiro", &bound(id), &slots(), &vec![])
}

#[test]
fn bindings_name_their_proxy_or_their_fault() {
    let good = binding("p");
    assert_eq!(good.effective_source, "binding");
    assert_eq!(good.effective_proxy_url, text("http://p"));
    assert_eq!(good.error_message, None);
    assert_eq!(binding("off").error_message, text("bound proxy config is disabled"));
    assert_eq!(binding("gone").error_message, text("bound proxy config is missing"));
    let none = load_admin_proxy_binding_from_configs("kiro", &None, &slots(), &vec![]);
    assert_eq!(none.effective_source, "none");
    let default = load_admin_proxy_binding_from_configs("kiro", &None, &slots(), &vec![binding("p")]);
    assert_eq!(default.effective_proxy_url, text("http://p"));
}

#[test]
fn accounts_get_the_proxy_of_their_mode() {
    let context = |id: &str| ProviderProxyResolutionContext {
        proxy_configs: slots(),
        binding: binding(id),
    };
    let resolve = |mode: &str, id: Option<&str>, at: &str| {
        resolve_provider_proxy_config_from_context(mode, id, &context(at))
    };
    assert!(matches!(resolve("none", None, "gone"), Ok(None)));
    assert!(matches!(resolve("direct", None, "gone"), Ok(None)));
    let fixed = resolve("fixed", Some("p"), "gone").ok().flatten().expect("proxy");
    assert_eq!(fixed.proxy_url, "http://p");
    let message = |mode: &str, id: Option<&str>, at: &str| match resolve(mode, id, at) {
        Ok(_) => panic!("refused"),
        Err(error) => error.message(),
    };
    assert_eq!(message("fixed", None, "p"), "fixed proxy mode requires proxy_config_id");
    assert_eq!(message("fixed", Some("x"), "p"), "fixed proxy config `x` is missing");
    assert_eq!(message("fixed", Some("off"), "p"), "fixed proxy config `slot off` is disabled");
    assert_eq!(
        message("inherit", None, "gone"),
        "provider proxy binding is invalid: bound proxy config is missing"
    );
    let inherited = resolve("inherit", None, "p").ok().flatten().expect("proxy");
    assert_eq!(inherited.proxy_url, "http://p");
    assert_eq!(provider_proxy_from_admin_proxy(&slots()[0]).proxy_url, "http://p");
}

// Proxies that were kept with the accounts

#[test]
fn cleared_credentials_point_to_a_slot() {
    let auth = "{\"proxyUrl\":\"http://p\",\"proxy_password\":\"s\",\"token\":\"t\"}";
    let cleared = clear_legacy_kiro_proxy_json(auth, "slot-1").ok().expect("cleared");
    let json = parse_text(&cleared).expect("JSON");
    assert_eq!(json.get_str("proxyMode"), Some("fixed"));
    assert_eq!(json.get_str("proxyConfigId"), Some("slot-1"));
    assert_eq!(json.get_str("token"), Some("t"));
    assert!(json.get("proxyUrl").is_none());
    assert!(json.get("proxy_password").is_none());
    assert!(legacy_proxy_of(&json).is_none());
    let odd = clear_legacy_kiro_proxy_json("{", "slot-1");
    assert!(matches!(odd, Err(ProxyError::AuthUnreadable)));
}

fn account(name: &str, auth: &str) -> LegacyKiroAccount {
    LegacyKiroAccount { account_name: name.to_string(), auth_json: auth.to_string() }
}

#[test]
fn accounts_with_one_proxy_share_a_slot() {
    let accounts = vec![
        account("a", "{\"proxyUrl\":\"http://p\"}"),
        account("b", "{}"),
        account("c", "{\"proxy_url\":\" http://p \"}"),
        account("d", "{\"proxyUrl\":\"http://q\"}"),
    ];
    let groups = legacy_proxy_groups(&accounts).ok().expect("groups");
    assert_eq!(groups.len(), 2);
    assert_eq!(groups[0].proxy.proxy_url, "http://p");
    assert_eq!(groups[0].accounts, vec![0, 2]);
    assert_eq!(groups[1].accounts, vec![3]);
    let odd = legacy_proxy_groups(&vec![account("a", "{")]);
    assert!(matches!(odd, Err(ProxyError::MigrationAuthUnreadable)));
}

#[test]
fn slots_are_reused_or_created() {
    let proxy = |url: &str| LegacyProxy {
        proxy_url: url.to_string(),
        proxy_username: None,
        proxy_password: None,
    };
    let reused = choose_legacy_slot(&proxy("http://p"), 0, &slots(), 5).ok().expect("slot");
    assert!(matches!(reused, SlotChoice::Reuse(0)));
    let created = choose_legacy_slot(&proxy("http://new"), 0, &slots(), 5).ok().expect("slot");
    let SlotChoice::Create(new) = created else { panic!("created") };
    assert_eq!(new.id, "llm-proxy-legacy-5-1");
    let taken = vec![slot("llm-proxy-legacy-5-1", "http://x", "active")];
    let created = choose_legacy_slot(&proxy("http://new"), 0, &taken, 5).ok().expect("slot");
    let SlotChoice::Create(new) = created else { panic!("created") };
    assert_ne!(new.id, "llm-proxy-legacy-5-1");
    let names = vec!["b".to_string(), "a".to_string()];
    assert_eq!(sorted_names(&names), vec!["a", "b"]);
}

#[test]
fn every_proxy_moves_into_a_slot() {
    let accounts = vec![
        account("Zoe", "{\"proxyUrl\":\"http://new\",\"token\":\"z\"}"),
        account("bob", "{\"proxyUrl\":\"http://p\"}"),
        account("amy", "{\"proxy_url\":\"http://new\"}"),
        account("eve", "{}"),
    ];
    let moved = import_legacy_kiro_proxy_configs(&accounts, slots(), &centre(), 5);
    assert_eq!(moved.outcome.ok(), Some(vec!["Zoe".to_string(), "amy".to_string(), "bob".to_string()]));
    assert_eq!(moved.reused, vec![0]);
    assert_eq!(moved.writes.len(), 4);
    let MigrationWrite::CreateSlot(new) = &moved.writes[0] else { panic!("a new slot") };
    assert_eq!(new.id, "llm-proxy-legacy-5-1");
    assert_eq!(new.name, "legacy-kiro-1");
    assert_eq!(new.proxy_url, "http://new");
    let saved: Vec<(usize, &str)> = moved.writes[1..]
        .iter()
        .map(|write| match write {
            MigrationWrite::SaveAccount { account, slot_id, .. } => (*account, slot_id.as_str()),
            MigrationWrite::CreateSlot(_) => panic!("one new slot"),
        })
        .collect();
    let created = "llm-proxy-legacy-5-1";
    assert_eq!(saved, vec![(2, created), (0, created), (1, "p")]);
    let MigrationWrite::SaveAccount { auth_json, .. } = &moved.writes[2] else { panic!("saved") };
    assert_eq!(parse_text(auth_json).expect("JSON").get_str("token"), Some("z"));
    let off = import_legacy_kiro_proxy_configs(&accounts, slots(), &edge(), 5);
    assert!(matches!(off.outcome, Err(ProxyError::CreateOffCore)));
    assert!(off.writes.is_empty());
    let odd = vec![account("a", "{")];
    let odd = import_legacy_kiro_proxy_configs(&odd, slots(), &centre(), 5);
    assert!(matches!(odd.outcome, Err(ProxyError::MigrationAuthUnreadable)));
    let none = import_legacy_kiro_proxy_configs(&vec![], slots(), &centre(), 5);
    assert_eq!(none.outcome.ok(), Some(vec![]));
}

// Accounts

fn group(names: &[&str]) -> Option<AdminAccountGroup> {
    Some(AdminAccountGroup {
        id: "g".to_string(),
        provider_type: "kiro".to_string(),
        name: "group".to_string(),
        account_names: names.iter().map(|name| name.to_string()).collect(),
        created_at: 1,
        updated_at: 1,
    })
}

fn key_route(strategy: &str, group: Option<&str>, fixed: Option<&str>, auto: Option<&str>) -> KeyRouteConfig {
    KeyRouteConfig {
        route_strategy: text(strategy),
        account_group_id: group.and_then(text),
        fixed_account_name: fixed.and_then(text),
        auto_account_names_json: auto.and_then(text),
    }
}

#[test]
fn keys_name_their_accounts() {
    let names = |route: KeyRouteConfig, group: Option<AdminAccountGroup>| {
        resolve_route_account_names("kiro", &route, &group, vec!["default".to_string()])
    };
    let fixed = names(key_route("fixed", None, Some("one"), None), None);
    assert_eq!(fixed.ok(), Some(vec!["one".to_string()]));
    let grouped = names(key_route("auto", Some("g"), None, None), group(&["a", "b"]));
    assert_eq!(grouped.ok(), Some(vec!["a".to_string(), "b".to_string()]));
    let listed = names(key_route("auto", None, None, Some("[\"x\"]")), None);
    assert_eq!(listed.ok(), Some(vec!["x".to_string()]));
    let default = names(key_route("auto", None, None, Some("[]")), None);
    assert_eq!(default.ok(), Some(vec!["default".to_string()]));
    let errors = [
        names(key_route("auto", Some("g"), None, None), None),
        names(key_route("fixed", Some("g"), None, None), group(&["a", "b"])),
        names(key_route("fixed", None, Some(" "), None), None),
        names(key_route("odd", None, None, None), None),
    ];
    let kinds: Vec<RouteError> = errors.into_iter().filter_map(|result| result.err()).collect();
    assert!(matches!(&kinds[0], RouteError::GroupMissing { group_id } if group_id == "g"));
    assert!(matches!(kinds[1], RouteError::FixedGroupNotSingle));
    assert!(matches!(kinds[2], RouteError::FixedWithoutAccount));
    assert!(matches!(&kinds[3], RouteError::UnsupportedStrategy { strategy } if strategy == "odd"));
    let route = key_route("auto", Some("g"), None, None);
    let foreign = resolve_route_account_names("codex", &route, &group(&["a"]), vec![]);
    let error = foreign.err().expect("of another provider");
    assert!(matches!(error, RouteError::GroupOfOtherProvider));
    assert!(!error.message().is_empty());
}

#[test]
fn groups_are_patched() {
    let mut changed = group(&["a"]).expect("group");
    let change = AdminAccountGroupPatch {
        name: None,
        account_names: Some(vec!["b".to_string()]),
        updated_at_ms: 9,
    };
    patch_admin_account_group(&mut changed, &change);
    assert_eq!(changed.name, "group");
    assert_eq!(changed.account_names, vec!["b"]);
    assert_eq!(changed.updated_at, 9);
    assert_eq!(page_limit(0), 1);
    assert_eq!(page_total(-1), None);
    assert_eq!(page_total(4), Some(4));
}

fn codex_view(name: &str, status: &str) -> CodexAccountView {
    CodexAccountView {
        account_name: name.to_string(),
        status: status.to_string(),
        map_gpt53_codex_to_spark: true,
        auth_refresh_enabled: true,
        request_max_concurrency: Some(2),
        request_min_start_interval_ms: None,
        cached_error_message: None,
        terminal_auth_error: false,
        proxy: None,
    }
}

#[test]
fn only_active_codex_accounts_are_candidates() {
    let mut views: NameMap<CodexAccountView> = NameMap::new();
    views.insert("a", codex_view("a", "active"));
    views.insert("off", codex_view("off", "disabled"));
    let snapshot = CodexKeySnapshot {
        provider_type: "codex".to_string(),
        route_strategy: "fixed".to_string(),
        account_group_id_at_event: text("g"),
        selected_account_names: vec!["off".to_string(), "a".to_string(), "gone".to_string()],
        codex_fast_enabled: true,
        request_max_concurrency: Some(8),
        request_min_start_interval_ms: None,
    };
    let routes = resolve_codex_route_candidates(&snapshot, &views, &vec![0]);
    assert_eq!(routes.len(), 1);
    assert_eq!(routes[0].account_name, "a");
    assert_eq!(routes[0].route_strategy_at_event, RouteStrategy::Fixed);
    assert_eq!(routes[0].request_max_concurrency, Some(8));
    assert_eq!(routes[0].account_request_max_concurrency, Some(2));
    assert!(routes[0].codex_fast_enabled);
    let route = resolve_codex_account_route(&codex_view("a", "active"), Some("{}")).expect("route");
    assert_eq!(route.auth_json, "{}");
    assert!(resolve_codex_account_route(&codex_view("a", "disabled"), Some("{}")).is_none());
    assert_eq!(route_strategy_of("anything"), RouteStrategy::Auto);
    views.insert("b", codex_view("b", "active"));
    views.insert("c", codex_view("c", "active"));
    let mut wide = snapshot;
    wide.selected_account_names = vec!["a".to_string(), "b".to_string(), "c".to_string()];
    let names = |routes: &Vec<ProviderCodexRoute>| {
        routes.iter().map(|route| route.account_name.clone()).collect::<Vec<_>>()
    };
    let unordered = unordered_codex_routes(&wide, &views);
    assert_eq!(names(&unordered), vec!["a", "b", "c"]);
    assert_eq!(names(&order_codex_routes(unordered, &vec![1, 2, 0])), vec!["b", "c", "a"]);
    let ranked = resolve_codex_route_candidates(&wide, &views, &vec![2, 0, 1]);
    assert_eq!(names(&ranked), vec!["c", "a", "b"]);
    wide.provider_type = "kiro".to_string();
    assert!(resolve_codex_route_candidates(&wide, &views, &vec![]).is_empty());
}

fn kiro_view(name: &str, disabled: bool) -> KiroAccountView {
    KiroAccountView {
        account_name: name.to_string(),
        status: "active".to_string(),
        disabled,
        profile_arn: text("arn"),
        api_region: "eu".to_string(),
        request_max_concurrency: None,
        request_min_start_interval_ms: None,
        proxy: None,
        routing_identity: "id".to_string(),
        cached_status: None,
        cached_remaining_order: None,
        credits_exhausted: false,
    }
}

fn settings() -> KiroSettings {
    KiroSettings {
        request_validation_enabled: true,
        cache_estimation_enabled: true,
        zero_cache_debug_enabled: false,
        full_request_logging_enabled: false,
        remote_media_resolution_enabled: false,
        latency_routing_enabled: true,
        model_name_map_json: "{}".to_string(),
        cache_kmodels_json: "{}".to_string(),
        cache_policy_json: "{}".to_string(),
        context_usage_min_request_tokens: 1,
        prefix_cache_mode: "off".to_string(),
        prefix_cache_max_tokens: 2,
        prefix_cache_entry_ttl_seconds: 3,
        conversation_anchor_max_entries: 4,
        conversation_anchor_ttl_seconds: 5,
        billable_model_multipliers_json: "{}".to_string(),
        status_refresh_interval_seconds: 6,
        compact_trigger_tokens: 7,
    }
}

#[test]
fn only_usable_kiro_accounts_are_candidates() {
    let mut views: NameMap<KiroAccountView> = NameMap::new();
    views.insert("a", kiro_view("a", false));
    views.insert("off", kiro_view("off", true));
    let mut spent = kiro_view("spent", false);
    spent.credits_exhausted = true;
    views.insert("spent", spent);
    let snapshot = KiroKeySnapshot {
        provider_type: "kiro".to_string(),
        route_strategy: "auto".to_string(),
        account_group_id_at_event: None,
        selected_account_names: vec!["off".to_string(), "a".to_string(), "spent".to_string()],
        request_max_concurrency: None,
        request_min_start_interval_ms: Some(3),
        settings: settings(),
    };
    let routes = resolve_kiro_route_candidates(&snapshot, &views);
    assert_eq!(routes.len(), 1);
    assert_eq!(routes[0].account_name, "a");
    assert_eq!(routes[0].api_region, "eu");
    assert_eq!(routes[0].compact_trigger_tokens, 7);
    assert_eq!(routes[0].request_min_start_interval_ms, Some(3));
}

#[test]
fn accounts_have_routes_without_a_key() {
    let config = KiroRuntimeConfig {
        kiro_cache_kmodels_json: "{}".to_string(),
        kiro_cache_policy_json: "{}".to_string(),
        kiro_context_usage_min_request_tokens: -5,
        kiro_prefix_cache_mode: "off".to_string(),
        kiro_prefix_cache_max_tokens: 10,
        kiro_prefix_cache_entry_ttl_seconds: 10,
        kiro_conversation_anchor_max_entries: 10,
        kiro_conversation_anchor_ttl_seconds: 10,
        kiro_billable_model_multipliers_json: "{}".to_string(),
        kiro_status_refresh_max_interval_seconds: 60,
        kiro_compact_trigger_tokens: 9,
    };
    let view = kiro_view("a", false);
    let route = resolve_kiro_account_route(&view, Some("{\"t\":1}"), &config).expect("route");
    assert_eq!(route.auth_json, "{\"t\":1}");
    assert_eq!(route.context_usage_min_request_tokens, 0);
    assert_eq!(route.status_refresh_interval_seconds, 60);
    assert!(resolve_kiro_account_route(&view, None, &config).is_none());
}

#[test]
fn refreshed_credentials_are_saved() {
    let mut record = CodexAccountRecord {
        account_name: "a".to_string(),
        auth_json: "{}".to_string(),
        account_id: None,
        status: "active".to_string(),
        auth_refresh_enabled: true,
        last_refresh_at_ms: None,
        last_error: text("old"),
        updated_at_ms: 1,
    };
    let update = ProviderCodexAuthUpdate {
        auth_json: "{\"t\":2}".to_string(),
        account_id: text("id"),
        status: "active".to_string(),
        last_error: None,
        refreshed_at_ms: 8,
    };
    save_codex_auth_update(&mut record, &update);
    assert_eq!(record.auth_json, "{\"t\":2}");
    assert_eq!(record.last_refresh_at_ms, Some(8));
    assert_eq!(record.last_error, None);
    assert!(set_codex_account_auto_refresh_enabled(&mut record, false, 9));
    assert!(!record.auth_refresh_enabled);
    let mut kiro = KiroAccountRecord {
        account_name: "k".to_string(),
        auth_json: "{}".to_string(),
        auth_method: "social".to_string(),
        account_id: None,
        profile_arn: None,
        user_id: None,
        status: "active".to_string(),
        last_refresh_at_ms: None,
        last_error: None,
        updated_at_ms: 1,
    };
    let update = ProviderKiroAuthUpdate {
        auth_json: "{\"t\":3}".to_string(),
        auth_method: "idc".to_string(),
        account_id: None,
        profile_arn: text("arn"),
        user_id: None,
        status: "active".to_string(),
        last_error: None,
        refreshed_at_ms: 8,
    };
    save_kiro_auth_update(&mut kiro, &update);
    assert_eq!(kiro.auth_json, "{\"t\":3}");
    assert_eq!(kiro.auth_method, "idc");
    assert!(account_not_configured("kiro", "k").contains("k"));
}

#[test]
fn exhausted_accounts_rest_for_the_longest_interval() {
    let note = mark_kiro_account_quota_exhausted("a", "monthly limit", 1000, 60);
    assert_eq!(note.status, "quota_exhausted");
    assert_eq!(note.expires_at_ms, 61_000);
    assert_eq!(note.error_message, text("monthly limit"));
}

fn asked(provider: &str, account: &str, cached: bool) -> AttributionStep {
    resolve_usage_proxy_attribution(AttributionEvent::Asked {
        provider: provider.to_string(),
        account_name: account.to_string(),
        cached,
    })
}

fn looked(lookup: Option<CachedAttribution>, generation: i64) -> AttributionStep {
    resolve_usage_proxy_attribution(AttributionEvent::Looked {
        provider: "codex".to_string(),
        account_name: "a".to_string(),
        lookup,
        generation,
    })
}

fn view() -> ProxyView {
    ProxyView { source: "fixed".to_string(), url: text("http://p"), config_name: text("slot") }
}

#[test]
fn usage_is_attributed_to_a_proxy() {
    assert!(matches!(asked("kiro", " ", true), AttributionStep::Answer { attribution: None }));
    let AttributionStep::LookUp { provider, account_name } = asked(" kiro ", " a ", true) else {
        panic!("looked up");
    };
    assert_eq!((provider.as_str(), account_name.as_str()), ("kiro", "a"));
    assert!(matches!(
        asked("kiro", "a", false),
        AttributionStep::Build { provider: Some(ProviderType::Kiro), .. }
    ));
    assert!(matches!(asked("other", "a", false), AttributionStep::Build { provider: None, .. }));
    assert!(matches!(
        looked(None, 4),
        AttributionStep::Build { provider: Some(ProviderType::Codex), .. }
    ));
    let made = build_codex_usage_proxy_attribution("a", "inherit", &text("o"), &text("b"), view());
    assert_eq!(made.proxy_config_id, text("b"));
    assert_eq!(made.proxy_url, text("http://p"));
    let kept = resolve_usage_proxy_attribution(AttributionEvent::Built {
        attribution: Some(made),
        generation: Some(4),
    });
    let AttributionStep::Keep { lookup } = kept else { panic!("kept") };
    let AttributionStep::Answer { attribution } = looked(Some(lookup), 4) else {
        panic!("given again");
    };
    let attribution = attribution.expect("an attribution");
    assert_eq!(attribution.account_name, "a");
    let stale = CachedAttribution { generation: 4, attribution: Some(attribution) };
    assert!(matches!(looked(Some(stale), 5), AttributionStep::Build { .. }));
    let made = build_kiro_usage_proxy_attribution("k", "fixed", &text("o"), &text("b"), view());
    assert_eq!(made.proxy_config_id, text("o"));
    assert_eq!(made.provider_type, ProviderType::Kiro);
    assert_eq!(
        kiro_account_proxy("{\"proxyMode\":\"none\"}", &text("s")),
        Some(("none".to_string(), text("s")))
    );
    assert_eq!(kiro_account_proxy("{", &None), None);
    let auth = parse_text("{\"proxy_config_id\":\"own\"}").expect("JSON");
    assert_eq!(kiro_proxy_choice(&auth, &None), ("inherit".to_string(), text("own")));
    assert_eq!(kiro_proxy_choice(&auth, &text("s")), ("fixed".to_string(), text("s")));
    assert_eq!(attributed_slot("fixed", &text("o"), &text("b")), text("o"));
    assert_eq!(attributed_slot("inherit", &text("o"), &text("b")), text("b"));
}

// Reviews

fn pending() -> ReviewState {
    ReviewState {
        status: "pending".to_string(),
        admin_note: None,
        failure_reason: text("earlier"),
        imported_account_name: None,
        issued_key_id: None,
        issued_key_name: None,
        updated_at_ms: 1,
        processed_at_ms: None,
    }
}

fn action() -> AdminReviewQueueAction {
    AdminReviewQueueAction { admin_note: text("ok"), updated_at_ms: 40 }
}

fn created(id: &str) -> Option<CreatedKey> {
    Some(CreatedKey { id: id.to_string(), name: format!("key {id}") })
}

#[test]
fn a_request_gets_one_key() {
    let mut state = pending();
    assert!(creates_key(&state, true));
    assert!(routes_key_to_group(&state, true, true));
    issue_admin_token_request(&mut state, created("k1"), &action());
    assert_eq!(state.status, "issued");
    assert_eq!(state.issued_key_id, text("k1"));
    assert_eq!(state.processed_at_ms, Some(40));
    assert!(!creates_key(&state, true));
    issue_admin_token_request(&mut state, created("k2"), &action());
    assert_eq!(state.issued_key_id, text("k1"));
    assert_eq!(reject_admin_token_request(&mut state, &action()), text("k1"));
    assert_eq!(state.status, "rejected");
}

#[test]
fn contributions_bring_an_account() {
    let mut state = pending();
    assert!(creates_account(&state, true));
    let account = |token: &str| ContributedAccount {
        account_id: text("id-1"),
        id_token: format!("id {token}"),
        access_token: format!("access {token}"),
        refresh_token: format!("refresh {token}"),
    };
    let mut offered = account("old");
    validate_admin_account_contribution_request(
        &mut state,
        &mut offered,
        account("new"),
        "validated",
        &action(),
    );
    assert_eq!(offered.account_id, text("id-1"));
    assert_eq!(offered.id_token, "id new");
    assert_eq!(offered.access_token, "access new");
    assert_eq!(offered.refresh_token, "refresh new");
    assert_eq!(state.status, "validated");
    fail_admin_account_contribution_request(&mut state, "bad token".to_string(), &action());
    assert_eq!(state.status, "failed");
    assert_eq!(state.failure_reason, text("bad token"));
    issue_admin_account_contribution_request(&mut state, text("acc"), created("k"), &action());
    assert_eq!(state.imported_account_name, text("acc"));
    assert_eq!(state.failure_reason, None);
    let revoked = reject_admin_account_contribution_request(&mut state, &action());
    assert_eq!(revoked, (text("k"), text("acc")));
    let mut sponsor = pending();
    approve_admin_sponsor_request(&mut sponsor, &action());
    assert_eq!(sponsor.status, "approved");
    let (status, at) = record_public_sponsor_payment_email_result(Some(3), 9);
    assert!(matches!(status, SponsorStatus::PaymentEmailSent));
    assert_eq!(at, 3);
    let (status, at) = record_public_sponsor_payment_email_result(None, 9);
    assert!(matches!(status, SponsorStatus::Submitted));
    assert_eq!(at, 9);
}

#[test]
fn pages_end() {
    assert!(page_is_empty(0, 0));
    assert!(page_is_empty(5, 5));
    assert!(!page_is_empty(5, 4));
    assert!(page_has_more(5, 2, 2));
    assert!(!page_has_more(5, 3, 2));
    assert!(!page_has_more(5, usize::MAX, 2));
}

// Rollups

fn batch(id: &str, keys: &[&str]) -> UsageRollupBatch {
    UsageRollupBatch {
        batch_id: id.to_string(),
        source_event_count: 3,
        delta_keys: keys.iter().map(|key| key.to_string()).collect(),
    }
}

fn marked(id: &str, keys: &[&str], existing: Option<String>) -> MarkedBatch {
    MarkedBatch {
        batch: batch(id, keys),
        wire: id.as_bytes().to_vec(),
        json: format!("json {id}").into_bytes(),
        existing,
    }
}

#[test]
fn digests_are_sha256() {
    assert_eq!(
        usage_rollup_batch_digest(b"abc"),
        "ba7816bf8f01cfea414140de5dae2223b00361a396177a9cb410ff61f20015ad"
    );
    assert_eq!(usage_rollup_batch_digest(b"x"), legacy_json_usage_rollup_batch_digest(b"x"));
}

#[test]
fn a_batch_is_applied_once() {
    assert!(matches!(batch_decision(b"w", b"j", None), MarkerDecision::Apply));
    let digest = usage_rollup_batch_digest(b"w");
    assert!(matches!(
        batch_decision(b"w", b"j", Some(&digest)),
        MarkerDecision::AlreadyApplied
    ));
    let legacy = legacy_json_usage_rollup_batch_digest(b"j");
    assert!(matches!(batch_decision(b"w", b"j", Some(&legacy)), MarkerDecision::UpgradeMarker));
    assert!(matches!(batch_decision(b"w", b"j", Some("x")), MarkerDecision::Mismatch));
}

#[test]
fn batches_are_gathered() {
    let applied = usage_rollup_batch_digest(b"b2");
    let inputs = vec![
        marked("b1", &["k1", "k2"], None),
        marked("b2", &["k9"], Some(applied)),
        marked("b3", &["k2"], None),
    ];
    let run = apply_usage_rollup_batches_impl(&inputs).ok().expect("run");
    assert_eq!(run.report.applied_batch_count, 2);
    assert_eq!(run.report.already_applied_batch_count, 1);
    assert_eq!(run.report.delta_count, 3);
    assert_eq!(run.delta_keys, vec!["k1", "k2", "k2"]);
    assert_eq!(run.delta_refs, vec![(0, 0), (0, 1), (2, 0)]);
    assert_eq!(run.rows(), vec![vec![0], vec![1, 2]]);
    let report = run.finish(2, 1);
    assert_eq!(report.missing_key_delta_count, 1);
    let foreign = vec![marked("b1", &["k1"], Some("other".to_string()))];
    let Err(RollupError::DigestMismatch { batch_id }) = apply_usage_rollup_batches_impl(&foreign)
    else {
        panic!("a foreign marker stops the run");
    };
    assert_eq!(batch_id, "b1");
}

#[test]
fn an_id_that_stands_twice_is_applied_once() {
    let twice = vec![marked("b1", &["k1"], None), marked("b1", &["k1"], None)];
    let run = apply_usage_rollup_batches_impl(&twice).ok().expect("run");
    assert_eq!(run.report.applied_batch_count, 1);
    assert_eq!(run.report.already_applied_batch_count, 1);
    assert_eq!(run.delta_keys, vec!["k1"]);
    assert_eq!(run.applied_batch_ids, vec!["b1"]);
    let mut other = marked("b1", &["k2"], None);
    other.wire = b"something else".to_vec();
    let clash = vec![marked("b1", &["k1"], None), other];
    assert!(matches!(
        apply_usage_rollup_batches_impl(&clash),
        Err(RollupError::DigestMismatch { batch_id }) if batch_id == "b1"
    ));
    let legacy = legacy_json_usage_rollup_batch_digest(b"json b2");
    let upgraded =
        vec![marked("b2", &["k1"], Some(legacy.clone())), marked("b2", &["k1"], Some(legacy))];
    let run = apply_usage_rollup_batches_impl(&upgraded).ok().expect("run");
    assert_eq!(run.upgraded_batch_ids, vec!["b2"]);
    assert_eq!(run.report.already_applied_batch_count, 2);
    assert!(run.delta_keys.is_empty());
}

#[test]
fn counts_must_fit_the_store() {
    assert_eq!(marker_counts(&batch("b", &["k"])).ok(), Some((3, 1)));
    let mut large = batch("b", &[]);
    large.source_event_count = u64::MAX;
    let error = marker_counts(&large).err().expect("too large");
    assert!(matches!(error, RollupError::SourceEventCount));
    assert!(error.count_message().is_some());
    let mut run = RollupRun::start();
    let failed = run.apply_usage_rollup_batch(&large, MarkerDecision::Apply);
    assert!(matches!(failed, Err(RollupError::SourceEventCount)));
}

#[test]
fn chunks_cover_everything() {
    assert_eq!(row_chunks(5, 2), vec![(0, 2), (2, 4), (4, 5)]);
    assert_eq!(row_chunks(2, 0), vec![(0, 1), (1, 2)]);
    assert_eq!(row_chunks(0, 9), vec![]);
    assert_eq!(row_updated_at(Some(3), 9), 3);
    assert_eq!(row_updated_at(None, 9), 9);
}
