use llm_access::headers::Headers;
use llm_access::public::{
    build_llm_gateway_support_config_response, check_lookup_key, check_worker_answer,
    configured_seconds, external_origin, kiro_gateway_access, llm_gateway_access,
    normalize_usage_time_range, post_llm_gateway_public_usage_query, preferred_public_codex_account_name, presented_key,
    public_usage_chart_window_start, sanitize_remaining_percent, usage_chart_params,
    usage_page_params, usage_worker_url, CodexPublicAccountStatus, FoundKey, LookupEvent,
    LookupStep, PublicError, PublicLlmGatewayUsageLookupRequest, RemainingPercent, UsageLookup,
    WorkerAnswer,
};
use llm_access::support::LlmAccessSupportConfig;

fn percent(value: Option<f64>) -> RemainingPercent {
    match value {
        Some(value) if value.is_finite() => {
            let bits = value.abs().to_bits() as i64;
            RemainingPercent::Known(if value < 0.0 { -bits } else { bits })
        },
        Some(_) => RemainingPercent::Broken,
        None => RemainingPercent::Untold,
    }
}

fn sample_public_account(
    name: &str,
    primary_remaining_percent: Option<f64>,
    secondary_remaining_percent: Option<f64>,
) -> CodexPublicAccountStatus {
    CodexPublicAccountStatus {
        name: name.to_string(),
        status: "active".to_string(),
        primary_remaining_percent: percent(primary_remaining_percent),
        secondary_remaining_percent: percent(secondary_remaining_percent),
    }
}

#[test]
fn preferred_public_codex_account_name_uses_cached_status_snapshot() {
    let accounts = vec![
        sample_public_account("beta", Some(85.0), Some(91.0)),
        sample_public_account("alpha", Some(93.0), Some(94.0)),
        sample_public_account("gamma", Some(0.0), Some(80.0)),
    ];

    let selected = preferred_public_codex_account_name(&accounts);

    assert_eq!(selected.as_deref(), Some("alpha"));
}

#[test]
fn preferred_public_codex_account_name_skips_exhausted_accounts() {
    let accounts = vec![sample_public_account("alpha", Some(0.0), Some(100.0))];

    assert_eq!(preferred_public_codex_account_name(&accounts), None);
}

#[test]
fn doubtful_percentages_come_last_and_names_break_ties() {
    let mut off = sample_public_account("aaa", Some(99.0), Some(99.0));
    off.status = "disabled".to_string();
    let accounts = vec![
        sample_public_account("nan", Some(f64::NAN), Some(99.0)),
        sample_public_account("c", Some(50.0), None),
        sample_public_account("b", Some(50.0), Some(100.0)),
        off,
    ];
    assert_eq!(preferred_public_codex_account_name(&accounts).as_deref(), Some("b"));
    let only = vec![sample_public_account("nan", Some(f64::INFINITY), None)];
    assert_eq!(preferred_public_codex_account_name(&only).as_deref(), Some("nan"));
    assert_eq!(
        sanitize_remaining_percent(RemainingPercent::Broken),
        (100.0_f64.to_bits() as i64, true)
    );
    assert_eq!(
        sanitize_remaining_percent(RemainingPercent::Untold),
        (100.0_f64.to_bits() as i64, false)
    );
}

#[test]
fn chart_starts_a_day_before_its_last_bar() {
    let hour = 3_600_000;
    assert_eq!(public_usage_chart_window_start(30 * hour + 5), 7 * hour);
    assert_eq!(public_usage_chart_window_start(0), -23 * hour);
    assert_eq!(public_usage_chart_window_start(-1), -24 * hour);
}

#[test]
fn time_ranges_are_never_empty() {
    assert_eq!(normalize_usage_time_range(Some(10), Some(10)), (Some(10), Some(11)));
    assert_eq!(normalize_usage_time_range(Some(10), Some(5)), (Some(10), Some(11)));
    assert_eq!(normalize_usage_time_range(Some(5), Some(10)), (Some(5), Some(10)));
    assert_eq!(normalize_usage_time_range(Some(0), Some(-3)), (None, None));
    assert_eq!(
        normalize_usage_time_range(Some(i64::MAX), Some(1)),
        (Some(i64::MAX), Some(i64::MAX))
    );
}

fn request() -> PublicLlmGatewayUsageLookupRequest {
    PublicLlmGatewayUsageLookupRequest {
        api_key: " sk ".to_string(),
        limit: Some(500),
        offset: None,
        start_ms: Some(20),
        end_ms: Some(10),
    }
}

fn pair(name: &str, value: &str) -> (String, String) {
    (name.to_string(), value.to_string())
}

#[test]
fn usage_questions_carry_their_bounds() {
    assert_eq!(usage_page_params("k", &request()), vec![
        pair("key_id", "k"),
        pair("source", "all"),
        pair("limit", "20"),
        pair("offset", "0"),
        pair("start_ms", "20"),
        pair("end_ms", "21"),
    ]);
    let mut bare = request();
    bare.limit = Some(0);
    bare.offset = Some(40);
    bare.start_ms = None;
    bare.end_ms = None;
    assert_eq!(usage_page_params("k", &bare), vec![
        pair("key_id", "k"),
        pair("source", "all"),
        pair("limit", "1"),
        pair("offset", "40"),
    ]);
    assert_eq!(usage_chart_params("k", 23 * 3_600_000), vec![
        pair("key_id", "k"),
        pair("start_ms", "0"),
        pair("bucket_ms", "3600000"),
        pair("bucket_count", "24"),
    ]);
    assert_eq!(usage_worker_url("http://w//", "/x"), "http://w/x");
}

#[test]
fn only_active_keys_are_looked_up() {
    assert_eq!(presented_key(" sk "), Ok("sk".to_string()));
    assert_eq!(
        presented_key(" "),
        Err(PublicError { status: 400, message: "api_key is required" })
    );
    assert_eq!(check_lookup_key(&FoundKey::Status("active")), Ok(()));
    let hidden = PublicError { status: 404, message: "queryable key not found" };
    assert_eq!(check_lookup_key(&FoundKey::Status("disabled")), Err(hidden));
    assert_eq!(check_lookup_key(&FoundKey::Nothing), Err(hidden));
    assert_eq!(
        check_lookup_key(&FoundKey::Failed),
        Err(PublicError { status: 500, message: "public usage store error" })
    );
}

#[test]
fn worker_answers_must_be_readable_successes() {
    let gone = PublicError { status: 503, message: "usage worker is unavailable" };
    assert_eq!(check_worker_answer(WorkerAnswer::Unreachable), Err(gone));
    let answer = |status, readable| check_worker_answer(WorkerAnswer::Answered { status, readable });
    assert_eq!(answer(204, true), Ok(()));
    assert_eq!(answer(200, false), Err(gone));
    assert_eq!(answer(500, true), Err(gone));
    assert_eq!(
        check_worker_answer(WorkerAnswer::Unprepared),
        Err(PublicError { status: 500, message: "public usage store error" })
    );
}

#[test]
fn usage_questions_take_their_course() {
    let mut lookup = UsageLookup { request: request(), key_id: String::new(), now_ms: 0 };
    lookup.request.api_key = " sk ".to_string();
    let step = post_llm_gateway_public_usage_query(&mut lookup, &LookupEvent::Asked);
    assert!(matches!(step, LookupStep::FindKey { secret } if secret == "sk"));
    let now_ms = 23 * 3_600_000;
    let hidden = LookupEvent::Found { key: FoundKey::Status("disabled"), key_id: "k", now_ms };
    let step = post_llm_gateway_public_usage_query(&mut lookup, &hidden);
    assert!(matches!(step, LookupStep::Refused { error } if error.status == 404));
    let found = LookupEvent::Found { key: FoundKey::Status("active"), key_id: "k", now_ms };
    let LookupStep::Ask { path, params } = post_llm_gateway_public_usage_query(&mut lookup, &found)
    else {
        panic!("the chart is asked for");
    };
    assert_eq!(path, "/admin/llm-access/usage/chart");
    assert_eq!(params, usage_chart_params("k", now_ms));
    let ok = WorkerAnswer::Answered { status: 200, readable: true };
    let chart = LookupEvent::Chart { answer: ok };
    let LookupStep::Ask { path, params } = post_llm_gateway_public_usage_query(&mut lookup, &chart)
    else {
        panic!("the page is asked for");
    };
    assert_eq!(path, "/admin/llm-gateway/usage");
    assert_eq!(params, usage_page_params("k", &lookup.request));
    let gone = LookupEvent::Page { answer: WorkerAnswer::Unreachable };
    let step = post_llm_gateway_public_usage_query(&mut lookup, &gone);
    assert!(matches!(step, LookupStep::Refused { error } if error.status == 503));
    let page = LookupEvent::Page { answer: ok };
    let step = post_llm_gateway_public_usage_query(&mut lookup, &page);
    assert!(matches!(step, LookupStep::Answer { generated_at } if generated_at == now_ms));
    lookup.request.api_key = " ".to_string();
    let step = post_llm_gateway_public_usage_query(&mut lookup, &LookupEvent::Asked);
    assert!(matches!(step, LookupStep::Refused { error } if error.status == 400));
}

fn headers(entries: &[(&str, Option<&str>)]) -> Headers {
    Headers {
        entries: entries
            .iter()
            .map(|(name, value)| (name.to_string(), value.map(str::to_string)))
            .collect(),
    }
}

#[test]
fn origin_follows_the_forwarded_host() {
    let forwarded = headers(&[
        ("Host", Some("inner")),
        ("X-Forwarded-Host", Some(" outer ")),
        ("x-forwarded-proto", Some("https")),
    ]);
    assert_eq!(external_origin(&forwarded).as_deref(), Some("https://outer"));
    assert_eq!(external_origin(&headers(&[("host", Some("h"))])).as_deref(), Some("http://h"));
    let unreadable = headers(&[("host", Some("h")), ("x-forwarded-host", None)]);
    assert_eq!(external_origin(&unreadable), None);
    let access = llm_gateway_access(&forwarded, 30);
    assert_eq!(access.base_url, "https://outer/api/llm-gateway/v1");
    assert_eq!(
        access.model_catalog_path.as_deref(),
        Some("/api/llm-gateway/model-catalog.json")
    );
    let kiro = kiro_gateway_access(&headers(&[]), 30);
    assert_eq!(kiro.base_url, "/api/kiro-gateway");
    assert_eq!(kiro.auth_cache_ttl_seconds, 30);
}

#[test]
fn configured_seconds_are_not_negative() {
    assert_eq!(configured_seconds(Some(-5), 60), 0);
    assert_eq!(configured_seconds(Some(5), 60), 5);
    assert_eq!(configured_seconds(None, 60), 60);
}

#[test]
fn support_page_shows_its_pictures() {
    let config = || LlmAccessSupportConfig {
        base_dir: "/s".to_string(),
        owner_display_name: "o".to_string(),
        sponsor_title: "t".to_string(),
        sponsor_intro: "i".to_string(),
        group_name: "g".to_string(),
        qq_group_number: "1".to_string(),
        group_invite_text: "x".to_string(),
        payment_email_subject: "s".to_string(),
        payment_email_signature: "b".to_string(),
        reply_to_email: None,
    };
    let view = build_llm_gateway_support_config_response(config(), &Vec::new(), 9);
    assert_eq!(view.alipay_qr_url, "/api/llm-gateway/support-assets/alipay_qr.png");
    assert_eq!(view.wechat_qr_url, "/api/llm-gateway/support-assets/wechat_qr.png");
    assert_eq!(view.qq_group_qr_url, None);
    assert_eq!(view.generated_at, 9);
    let files = vec!["/s/qq_group_qr.png".to_string()];
    let view = build_llm_gateway_support_config_response(config(), &files, 9);
    assert_eq!(
        view.qq_group_qr_url.as_deref(),
        Some("/api/llm-gateway/support-assets/qq_group_qr.png")
    );
}
