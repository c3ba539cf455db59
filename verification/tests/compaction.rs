use llm_access::compaction::{
    compaction_guard, contains_ignore_ascii_case, estimate_effective_input_tokens,
    request_is_compaction_summary, AnchorTokenCounts,
};
use llm_access::json::Json;
use llm_access::kiro_model::{Message, MessagesRequest, SystemMessage};

fn text(text: &str) -> Json {
    Json::str(text)
}

fn blocks(text: &str) -> Json {
    let block = Json::new_object().with("type", Json::str("text")).with("text", Json::str(text));
    Json::Array(vec![block])
}

fn request(system: Option<Vec<&str>>, messages: Vec<(&str, Json)>) -> MessagesRequest {
    MessagesRequest {
        model: "opus-4-8".to_string(),
        messages: messages
            .into_iter()
            .map(|(role, content)| Message { role: role.to_string(), content })
            .collect(),
        stream: false,
        system: system.map(|texts| {
            texts.into_iter().map(|text| SystemMessage { text: text.to_string() }).collect()
        }),
        thinking: None,
        output_config: None,
    }
}

#[test]
fn detects_summary_instruction_in_last_user_message() {
    let req = request(None, vec![
        ("user", text("help me write a function")),
        ("assistant", text("sure")),
        (
            "user",
            text(
                "Your task is to create a detailed summary of this conversation. This summary \
                 will be placed at the start of a continuing session."
            ),
        ),
    ]);
    assert!(request_is_compaction_summary(&req));
}

#[test]
fn detects_summary_instruction_in_content_blocks() {
    let req = request(None, vec![(
        "user",
        blocks("create a detailed summary of the conversation so far, paying close attention to the user's requests"),
    )]);
    assert!(request_is_compaction_summary(&req));
}

#[test]
fn detects_summary_instruction_in_system() {
    let req = request(
        Some(vec!["Your task is to create a detailed summary of this conversation."]),
        vec![("user", text("anything"))],
    );
    assert!(request_is_compaction_summary(&req));
}

#[test]
fn normal_request_is_not_compaction() {
    let req = request(Some(vec!["You are a helpful coding assistant."]), vec![
        ("user", text("refactor this module")),
        ("assistant", blocks("done")),
    ]);
    assert!(!request_is_compaction_summary(&req));
}

#[test]
fn post_compaction_continuation_text_is_not_matched() {
    let req = request(None, vec![(
        "user",
        text(
            "This session is being continued from a previous conversation that ran out of \
             context. The summary below covers the earlier portion of the conversation."
        ),
    )]);
    assert!(!request_is_compaction_summary(&req));
}

#[test]
fn earlier_history_summary_phrase_does_not_exempt_later_turn() {
    let req = request(None, vec![
        ("user", text("Your task is to create a detailed summary of this conversation.")),
        ("assistant", text("(summary)")),
        ("user", text("now add pagination to the /users endpoint")),
    ]);
    assert!(!request_is_compaction_summary(&req));
}

#[test]
fn effective_tokens_falls_back_to_local_without_cache() {
    assert_eq!(estimate_effective_input_tokens(640_000, None), 640_000);
}

#[test]
fn effective_tokens_adds_current_delta_to_recovered_real() {
    let recovered = Some(AnchorTokenCounts {
        real_input_tokens: 760_000,
        local_input_tokens: 740_000,
    });
    assert_eq!(estimate_effective_input_tokens(770_000, recovered), 790_000);
}

#[test]
fn effective_tokens_ignores_shrunk_local_delta() {
    let recovered = Some(AnchorTokenCounts {
        real_input_tokens: 800_000,
        local_input_tokens: 790_000,
    });
    assert_eq!(estimate_effective_input_tokens(500_000, recovered), 800_000);
}

#[test]
fn case_does_not_matter_in_the_instruction() {
    assert!(contains_ignore_ascii_case("a DETAILED Summary", "detailed summary"));
    assert!(!contains_ignore_ascii_case("a detailed list", "detailed summary"));
    assert!(contains_ignore_ascii_case("anything", ""));
}

#[test]
fn estimate_grows_with_the_local_count() {
    let recovered = Some(AnchorTokenCounts { real_input_tokens: 100, local_input_tokens: 90 });
    assert_eq!(estimate_effective_input_tokens(90, recovered), 100);
    assert_eq!(estimate_effective_input_tokens(95, recovered), 105);
    assert_eq!(estimate_effective_input_tokens(i32::MAX, recovered), i32::MAX);
}

#[test]
fn only_long_ordinary_requests_are_turned_away() {
    let ordinary = request(None, vec![("user", text("go on"))]);
    let summary = request(
        None,
        vec![("user", text("Your task is to create a detailed summary of this conversation."))],
    );
    assert_eq!(compaction_guard(1000, 1500, &ordinary), Some(1000));
    assert_eq!(compaction_guard(1000, 1000, &ordinary), Some(1000));
    assert_eq!(compaction_guard(1000, 999, &ordinary), None);
    assert_eq!(compaction_guard(0, 1500, &ordinary), None);
    assert_eq!(compaction_guard(1000, 1500, &summary), None);
}
