use llm_access::email::{
    access_path_for, build_llm_access_url, build_llm_gateway_base_url, check_url_parts,
    contribution_issued_mail, llm_access_url, llm_gateway_base_url,
    send_user_llm_account_contribution_issued_notification,
    send_user_llm_token_issued_notification, token_issued_mail, validate_frontend_url,
    GrantedContribution, GrantedToken, IssuedKey, PageUrlError,
};

fn key() -> IssuedKey {
    IssuedKey {
        id: "key-1".to_string(),
        name: "name {}".to_string(),
        secret: "sk-x".to_string(),
    }
}

fn token(page: Option<&str>) -> GrantedToken {
    GrantedToken {
        request_id: "req-1".to_string(),
        status: "issued".to_string(),
        requested_quota_billable_limit: 5000,
        request_reason: "why not".to_string(),
        frontend_page_url: page.map(str::to_string),
    }
}

#[test]
fn gateway_address_lies_on_the_site_of_the_page() {
    assert_eq!(
        build_llm_gateway_base_url("https://example.org/some/page?x=1#frag"),
        Ok("https://example.org/api/llm-gateway/v1".to_string())
    );
    assert_eq!(
        llm_gateway_base_url(Some("https://example.org:8443/p"), None),
        "https://example.org:8443/api/llm-gateway/v1"
    );
}

#[test]
fn access_page_keeps_the_prefix_of_the_site() {
    assert_eq!(
        build_llm_access_url("https://example.org/static_flow/page?a=b"),
        Ok("https://example.org/static_flow/llm-access".to_string())
    );
    assert_eq!(
        llm_access_url(Some("http://example.org/static_flowers")).as_deref(),
        Some("http://example.org/llm-access")
    );
    assert_eq!(access_path_for("/static_flow"), "/static_flow/llm-access");
    assert_eq!(access_path_for("/static_flow/x"), "/static_flow/llm-access");
    assert_eq!(access_path_for("/"), "/llm-access");
    assert_eq!(llm_access_url(None), None);
}

#[test]
fn pages_off_the_web_are_refused() {
    assert_eq!(validate_frontend_url("https://example.org"), Ok(()));
    assert_eq!(validate_frontend_url("not a url"), Err(PageUrlError::Unreadable));
    assert_eq!(validate_frontend_url("ftp://example.org/x"), Err(PageUrlError::NotHttp));
    assert_eq!(check_url_parts("http", None), Err(PageUrlError::NoHost));
    assert_eq!(check_url_parts("mailto", None), Err(PageUrlError::NotHttp));
    assert_eq!(build_llm_access_url("mailto:a@b"), Err(PageUrlError::NotHttp));
    assert_eq!(llm_access_url(Some("nowhere")), None);
}

#[test]
fn gateway_address_falls_back_to_the_configured_site() {
    assert_eq!(
        llm_gateway_base_url(Some("nowhere"), Some("https://site.example//")),
        "https://site.example/api/llm-gateway/v1"
    );
    assert_eq!(llm_gateway_base_url(None, None), "/api/llm-gateway/v1");
}

#[test]
fn token_mail_names_what_was_granted() {
    let mail = token_issued_mail(&token(None), &key(), "https://g", Some("https://a"));
    assert!(mail.contains("req-1") && mail.contains("5000") && mail.contains("sk-x"));
    assert!(mail.contains("name {}"));
    assert!(mail.contains("why not"));
    assert!(mail.contains("[https://a](https://a)"));
    assert!(!token_issued_mail(&token(None), &key(), "g", None).contains("LLM Access: ["));
}

#[test]
fn token_notification_takes_the_addresses_from_the_page() {
    let (subject, body) = send_user_llm_token_issued_notification(
        &token(Some("https://example.org/static_flow/x")),
        &key(),
        Some("https://ignored"),
    );
    assert_eq!(subject, "[StaticFlow] 你的 LLM Token 许愿已通过");
    assert!(body.contains("https://example.org/api/llm-gateway/v1"));
    assert!(body.contains("https://example.org/static_flow/llm-access"));
    assert!(!body.contains("ignored"));
}

#[test]
fn contribution_mail_prefers_the_imported_name() {
    let mut request = GrantedContribution {
        request_id: "req-2".to_string(),
        status: "issued".to_string(),
        account_name: "asked".to_string(),
        imported_account_name: Some("imported".to_string()),
        account_id: None,
        github_id: Some("octo".to_string()),
        contributor_message: "hello".to_string(),
        frontend_page_url: None,
    };
    let mail = contribution_issued_mail(&request, &key(), "https://g", None);
    assert!(mail.contains("imported") && !mail.contains("asked"));
    assert!(mail.contains("octo") && mail.contains("hello"));
    request.imported_account_name = None;
    let (subject, body) =
        send_user_llm_account_contribution_issued_notification(&request, &key(), None);
    assert_eq!(subject, "[StaticFlow] 你的 Codex 账号贡献已审核通过");
    assert!(body.contains("asked") && body.contains("/api/llm-gateway/v1"));
}
