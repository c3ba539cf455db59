use llm_access::kiro_headers::{
    add_kiro_headers, add_kiro_mcp_headers, add_kiro_upstream_headers, kiro_headers_with_id,
    KiroAuthFacts, KiroAwsService, KiroClientVersions, KiroHeaderConfig, KiroHeaderError,
};

const VERSIONS: KiroClientVersions<'static> =
    KiroClientVersions { kiro: "0.9.2", system: "darwin#24.0.0", node: "22.21.1" };

fn facts(method: &str, provider: Option<&str>, machine: Option<&str>) -> KiroAuthFacts {
    KiroAuthFacts {
        auth_method: method.to_string(),
        provider: provider.map(|p| p.to_string()),
        machine_id: machine.map(|m| m.to_string()),
    }
}

fn runtime_config() -> KiroHeaderConfig<'static> {
    KiroHeaderConfig {
        upstream_host: "127.0.0.1:19090",
        access_token: "token",
        service: KiroAwsService::Runtime,
        client_version: "1.0.0",
        sdk_request: "attempt=1; max=1",
        content_type: None,
        accept: None,
        connection_close: false,
        agent_mode: None,
        include_opt_out: false,
    }
}

fn value<'a>(list: &'a [(String, String)], name: &str) -> Option<&'a str> {
    list.iter().find(|(key, _)| key == name).map(|(_, value)| value.as_str())
}

#[test]
fn external_idp_internal_headers_are_detected_from_auth_record() {
    let machine = "a".repeat(64);
    let auth = facts("external_idp", Some("Internal"), Some(&machine));
    let list = add_kiro_headers(&auth, &runtime_config(), &VERSIONS).ok().expect("headers");
    assert_eq!(value(&list, "TokenType"), Some("EXTERNAL_IDP"));
    assert_eq!(value(&list, "redirect-for-internal"), Some("true"));
}

#[test]
fn ordinary_accounts_have_no_special_headers() {
    let auth = facts("social", Some("Google"), Some("m1"));
    let list = kiro_headers_with_id(&auth, &runtime_config(), &VERSIONS, "id-1").ok().expect("list");
    assert_eq!(value(&list, "TokenType"), None);
    assert_eq!(value(&list, "redirect-for-internal"), None);
    assert_eq!(value(&list, "host"), Some("127.0.0.1:19090"));
    assert_eq!(value(&list, "amz-sdk-invocation-id"), Some("id-1"));
    assert_eq!(value(&list, "x-amz-user-agent"), Some("aws-sdk-js/1.0.0 KiroIDE-0.9.2-m1"));
    assert_eq!(
        value(&list, "user-agent"),
        Some(
            "aws-sdk-js/1.0.0 ua/2.1 os/darwin#24.0.0 lang/js md/nodejs#22.21.1 \
             api/codewhispererruntime#1.0.0 KiroIDE-0.9.2-m1"
        )
    );
    assert_eq!(list.last(), Some(&("authorization".to_string(), "Bearer token".to_string())));
}

#[test]
fn invocation_ids_are_fresh() {
    let auth = facts("social", None, Some("m1"));
    let first = add_kiro_headers(&auth, &runtime_config(), &VERSIONS).ok().expect("first");
    let second = add_kiro_headers(&auth, &runtime_config(), &VERSIONS).ok().expect("second");
    let id = value(&first, "amz-sdk-invocation-id").expect("id");
    assert_eq!(id.len(), 36);
    assert_ne!(Some(id), value(&second, "amz-sdk-invocation-id"));
}

#[test]
fn streaming_and_tool_calls_ask_for_their_kind() {
    let auth = Some(facts("social", None, Some("m1")));
    let host = Ok("q.example".to_string());
    let streamed = add_kiro_upstream_headers(&auth, &host, "t", "1.0.27", &VERSIONS);
    let streamed = streamed.ok().expect("streamed");
    assert_eq!(value(&streamed, "accept"), Some("application/vnd.amazon.eventstream"));
    assert_eq!(value(&streamed, "x-amzn-kiro-agent-mode"), Some("vibe"));
    assert_eq!(value(&streamed, "x-amzn-codewhisperer-optout"), Some("true"));
    let tool = add_kiro_mcp_headers(&auth, &host, Some(" arn:1 "), "t", "1.0.27", &VERSIONS);
    let tool = tool.ok().expect("tool");
    assert_eq!(value(&tool, "accept"), None);
    assert_eq!(value(&tool, "x-amzn-kiro-profile-arn"), Some("arn:1"));
    let bare = add_kiro_mcp_headers(&auth, &host, Some("  "), "t", "1.0.27", &VERSIONS);
    assert_eq!(value(&bare.ok().expect("bare"), "x-amzn-kiro-profile-arn"), None);
}

#[test]
fn every_missing_part_has_its_error() {
    let host: Result<String, String> = Ok("q.example".to_string());
    let nameless = facts("social", None, None);
    let Err(error) = add_kiro_headers(&nameless, &runtime_config(), &VERSIONS) else {
        panic!("no machine id");
    };
    assert!(matches!(error, KiroHeaderError::NoMachineId));
    assert_eq!(error.message(), "failed to derive kiro machine id");
    let Err(error) = add_kiro_upstream_headers(&None, &host, "t", "1", &VERSIONS) else {
        panic!("no auth record");
    };
    assert_eq!(error.message(), "invalid kiro auth record");
    let nowhere: Result<String, String> = Err("upstream url has no host".to_string());
    let known = Some(facts("social", None, Some("m1")));
    let Err(error) = add_kiro_mcp_headers(&known, &nowhere, None, "t", "1", &VERSIONS) else {
        panic!("no host");
    };
    assert_eq!(error.message(), "upstream url has no host");
}
