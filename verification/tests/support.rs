use llm_access::support::{
    is_within_base_dir, load_support_asset, load_support_config_from_dir, normalize_required,
    render_payment_email_markdown, resolve_support_dir, LlmAccessSupportConfig,
    RawLlmAccessSupportConfig,
};

fn raw() -> RawLlmAccessSupportConfig {
    RawLlmAccessSupportConfig {
        sponsor_title: " Title ".to_string(),
        sponsor_intro: "Intro".to_string(),
        group_name: "Group".to_string(),
        qq_group_number: "123".to_string(),
        group_invite_text: "Join".to_string(),
        payment_email_subject: "Subject".to_string(),
        payment_email_signature: "Bye".to_string(),
        owner_display_name: "Owner".to_string(),
        reply_to_email: Some("  ".to_string()),
    }
}

fn config() -> LlmAccessSupportConfig {
    match load_support_config_from_dir("/srv/support".to_string(), raw()) {
        Ok(config) => config,
        Err(message) => panic!("{message}"),
    }
}

#[test]
fn settings_are_trimmed() {
    let config = config();
    assert_eq!(config.base_dir, "/srv/support");
    assert_eq!(config.sponsor_title, "Title");
    assert_eq!(config.reply_to_email, None);
    assert_eq!(config.payment_template_path(), "/srv/support/payment_email.md");
    assert_eq!(config.asset_path("x.png"), "/srv/support/x.png");
}

#[test]
fn first_blank_setting_is_named() {
    let mut blank = raw();
    blank.sponsor_intro = " ".to_string();
    blank.owner_display_name = "".to_string();
    let error = load_support_config_from_dir("/srv".to_string(), blank).err();
    assert_eq!(error.as_deref(), Some("owner_display_name is required"));
    let mut blank = raw();
    blank.payment_email_signature = "\n".to_string();
    let error = load_support_config_from_dir("/srv".to_string(), blank).err();
    assert_eq!(error.as_deref(), Some("payment_email_signature is required"));
    assert_eq!(normalize_required(" v ".to_string(), "f"), Ok("v".to_string()));
    assert_eq!(normalize_required(" ".to_string(), "f"), Err("f is required".to_string()));
}

#[test]
fn group_picture_counts_only_where_it_exists() {
    let config = config();
    assert!(config.has_group_qr(&vec!["/srv/support/qq_group_qr.png".to_string()]));
    assert!(!config.has_group_qr(&vec!["/srv/qq_group_qr.png".to_string()]));
}

#[test]
fn support_dir_prefers_the_configured_one() {
    assert_eq!(resolve_support_dir(Some(" /x "), true, true), "/x");
    assert_eq!(
        resolve_support_dir(Some(" "), true, true),
        "crates/backend/.local/llm_access_support"
    );
    assert_eq!(resolve_support_dir(None, false, true), ".local/llm_access_support");
    assert_eq!(
        resolve_support_dir(None, false, false),
        "crates/backend/.local/llm_access_support"
    );
}

#[test]
fn payment_mail_fills_every_hole() {
    let template = "Dear {{ owner_display_name }}: {{ sponsor_title }}/{{ sponsor_intro }}/\
                    {{ group_name }}/{{ qq_group_number }}/{{ group_invite_text }}/\
                    {{ payment_email_signature }} {{ other }}";
    assert_eq!(
        render_payment_email_markdown(&config(), template),
        "Dear Owner: Title/Intro/Group/123/Join/Bye {{ other }}"
    );
}

#[test]
fn only_known_assets_are_served() {
    let config = config();
    assert_eq!(
        load_support_asset(&config, "alipay_qr.png"),
        Ok(("/srv/support/alipay_qr.png".to_string(), "image/png"))
    );
    assert_eq!(
        load_support_asset(&config, "../secret"),
        Err("unsupported support asset: ../secret".to_string())
    );
}

#[test]
fn assets_lie_under_the_base_directory() {
    assert!(is_within_base_dir("/srv/support", "/srv/support/alipay_qr.png"));
    assert!(!is_within_base_dir("/srv/support", "/srv/supporting/alipay_qr.png"));
}
