//! The page that tells the public how to support the service.

use vstd::prelude::*;
use crate::paths::{inside, is_under, join_path, lies_under};
use crate::text::{concat2, fill, filled, hole_views, list_has, nonempty_trim, opt_text, same_text,
    texts, trim, trimmed_nonempty};

verus! {

/// Checked settings of the page.
pub struct LlmAccessSupportConfig {
    pub base_dir: String,
    pub owner_display_name: String,
    pub sponsor_title: String,
    pub sponsor_intro: String,
    pub group_name: String,
    pub qq_group_number: String,
    pub group_invite_text: String,
    pub payment_email_subject: String,
    pub payment_email_signature: String,
    pub reply_to_email: Option<String>,
}

/// The settings as they stand in the file.
pub struct RawLlmAccessSupportConfig {
    pub sponsor_title: String,
    pub sponsor_intro: String,
    pub group_name: String,
    pub qq_group_number: String,
    pub group_invite_text: String,
    pub payment_email_subject: String,
    pub payment_email_signature: String,
    pub owner_display_name: String,
    pub reply_to_email: Option<String>,
}

impl LlmAccessSupportConfig {
    pub fn payment_template_path(&self) -> (path: String)
        ensures
            path@ == inside(self.base_dir@, "payment_email.md"@),
    {
        join_path(self.base_dir.as_str(), "payment_email.md")
    }

    pub fn asset_path(&self, file_name: &str) -> (path: String)
        ensures
            path@ == inside(self.base_dir@, file_name@),
    {
        join_path(self.base_dir.as_str(), file_name)
    }

    /// Whether there is a picture for the group. `files` are the files that exist.
    pub fn has_group_qr(&self, files: &Vec<String>) -> (result: bool)
        ensures
            result == texts(files@).contains(inside(self.base_dir@, "qq_group_qr.png"@)),
    {
        let path = self.asset_path("qq_group_qr.png");
        list_has(files, path.as_str())
    }
}

/// A setting that must not be blank.
pub fn normalize_required(value: String, field_name: &str) -> (result: Result<String, String>)
    ensures
        match nonempty_trim(value@) {
            Some(trimmed) => result matches Ok(text) && text@ == trimmed,
            None => result matches Err(message) && message@ == field_name@ + " is required"@,
        },
{
    match trimmed_nonempty(value.as_str()) {
        Some(trimmed) => Ok(trimmed),
        None => Err(concat2(field_name, " is required")),
    }
}

/// The first required setting that is blank.
pub open spec fn missing_setting(raw: RawLlmAccessSupportConfig) -> Option<Seq<char>> {
    if nonempty_trim(raw.owner_display_name@) is None {
        Some("owner_display_name"@)
    } else if nonempty_trim(raw.sponsor_title@) is None {
        Some("sponsor_title"@)
    } else if nonempty_trim(raw.sponsor_intro@) is None {
        Some("sponsor_intro"@)
    } else if nonempty_trim(raw.group_name@) is None {
        Some("group_name"@)
    } else if nonempty_trim(raw.qq_group_number@) is None {
        Some("qq_group_number"@)
    } else if nonempty_trim(raw.group_invite_text@) is None {
        Some("group_invite_text"@)
    } else if nonempty_trim(raw.payment_email_subject@) is None {
        Some("payment_email_subject"@)
    } else if nonempty_trim(raw.payment_email_signature@) is None {
        Some("payment_email_signature"@)
    } else {
        None
    }
}

/// The settings without blanks around them; a blank address to reply to is none.
pub open spec fn is_normalized(
    config: LlmAccessSupportConfig,
    base_dir: String,
    raw: RawLlmAccessSupportConfig,
) -> bool {
    &&& config.base_dir == base_dir
    &&& Some(config.owner_display_name@) == nonempty_trim(raw.owner_display_name@)
    &&& Some(config.sponsor_title@) == nonempty_trim(raw.sponsor_title@)
    &&& Some(config.sponsor_intro@) == nonempty_trim(raw.sponsor_intro@)
    &&& Some(config.group_name@) == nonempty_trim(raw.group_name@)
    &&& Some(config.qq_group_number@) == nonempty_trim(raw.qq_group_number@)
    &&& Some(config.group_invite_text@) == nonempty_trim(raw.group_invite_text@)
    &&& Some(config.payment_email_subject@) == nonempty_trim(raw.payment_email_subject@)
    &&& Some(config.payment_email_signature@) == nonempty_trim(raw.payment_email_signature@)
    &&& opt_text(config.reply_to_email) == match raw.reply_to_email {
        Some(address) => nonempty_trim(address@),
        None => None,
    }
}

/// Checks the settings of a directory.
pub fn load_support_config_from_dir(base_dir: String, raw: RawLlmAccessSupportConfig) -> (result: Result<
    LlmAccessSupportConfig,
    String,
>)
    ensures
        match missing_setting(raw) {
            Some(name) => result matches Err(message) && message@ == name + " is required"@,
            None => result matches Ok(config) && is_normalized(config, base_dir, raw),
        },
{
    let owner_display_name = match normalize_required(raw.owner_display_name, "owner_display_name") {
        Ok(value) => value,
        Err(message) => return Err(message),
    };
    let sponsor_title = match normalize_required(raw.sponsor_title, "sponsor_title") {
        Ok(value) => value,
        Err(message) => return Err(message),
    };
    let sponsor_intro = match normalize_required(raw.sponsor_intro, "sponsor_intro") {
        Ok(value) => value,
        Err(message) => return Err(message),
    };
    let group_name = match normalize_required(raw.group_name, "group_name") {
        Ok(value) => value,
        Err(message) => return Err(message),
    };
    let qq_group_number = match normalize_required(raw.qq_group_number, "qq_group_number") {
        Ok(value) => value,
        Err(message) => return Err(message),
    };
    let group_invite_text = match normalize_required(raw.group_invite_text, "group_invite_text") {
        Ok(value) => value,
        Err(message) => return Err(message),
    };
    let payment_email_subject = match normalize_required(
        raw.payment_email_subject,
        "payment_email_subject",
    ) {
        Ok(value) => value,
        Err(message) => return Err(message),
    };
    let payment_email_signature = match normalize_required(
        raw.payment_email_signature,
        "payment_email_signature",
    ) {
        Ok(value) => value,
        Err(message) => return Err(message),
    };
    let reply_to_email = match raw.reply_to_email {
        Some(address) => trimmed_nonempty(address.as_str()),
        None => None,
    };
    Ok(
        LlmAccessSupportConfig {
            base_dir,
            owner_display_name,
            sponsor_title,
            sponsor_intro,
            group_name,
            qq_group_number,
            group_invite_text,
            payment_email_subject,
            payment_email_signature,
            reply_to_email,
        },
    )
}

/// The directory of the page: the configured one, else the first usual one that exists,
/// else the first usual one.
pub fn resolve_support_dir(configured: Option<&str>, default_exists: bool, fallback_exists: bool) -> (dir:
    String)
    ensures
        dir@ == match configured {
            Some(raw) => match nonempty_trim(raw@) {
                Some(trimmed) => trimmed,
                None => usual_dir(default_exists, fallback_exists),
            },
            None => usual_dir(default_exists, fallback_exists),
        },
{
    if let Some(raw) = configured {
        if let Some(trimmed) = trimmed_nonempty(raw) {
            return trimmed;
        }
    }
    if !default_exists && fallback_exists {
        ".local/llm_access_support".to_owned()
    } else {
        "crates/backend/.local/llm_access_support".to_owned()
    }
}

pub open spec fn usual_dir(default_exists: bool, fallback_exists: bool) -> Seq<char> {
    if !default_exists && fallback_exists {
        ".local/llm_access_support"@
    } else {
        "crates/backend/.local/llm_access_support"@
    }
}

/// The holes of the mail with payment instructions.
pub open spec fn payment_holes(config: LlmAccessSupportConfig) -> Seq<(Seq<char>, Seq<char>)> {
    seq![
        ("{{ owner_display_name }}"@, config.owner_display_name@),
        ("{{ sponsor_title }}"@, config.sponsor_title@),
        ("{{ sponsor_intro }}"@, config.sponsor_intro@),
        ("{{ group_name }}"@, config.group_name@),
        ("{{ qq_group_number }}"@, config.qq_group_number@),
        ("{{ group_invite_text }}"@, config.group_invite_text@),
        ("{{ payment_email_signature }}"@, config.payment_email_signature@),
    ]
}

/// The mail with payment instructions: the template with its holes filled.
pub fn render_payment_email_markdown(config: &LlmAccessSupportConfig, template: &str) -> (markdown:
    String)
    ensures
        markdown@ == filled(template@, payment_holes(*config)),
{
    proof {
        reveal_strlit("{{ owner_display_name }}");
        reveal_strlit("{{ sponsor_title }}");
        reveal_strlit("{{ sponsor_intro }}");
        reveal_strlit("{{ group_name }}");
        reveal_strlit("{{ qq_group_number }}");
        reveal_strlit("{{ group_invite_text }}");
        reveal_strlit("{{ payment_email_signature }}");
    }
    let mut holes: Vec<(&str, String)> = Vec::new();
    holes.push(("{{ owner_display_name }}", config.owner_display_name.clone()));
    holes.push(("{{ sponsor_title }}", config.sponsor_title.clone()));
    holes.push(("{{ sponsor_intro }}", config.sponsor_intro.clone()));
    holes.push(("{{ group_name }}", config.group_name.clone()));
    holes.push(("{{ qq_group_number }}", config.qq_group_number.clone()));
    holes.push(("{{ group_invite_text }}", config.group_invite_text.clone()));
    holes.push(("{{ payment_email_signature }}", config.payment_email_signature.clone()));
    assert(hole_views(holes@) =~= payment_holes(*config));
    fill(template, &holes)
}

pub open spec fn is_asset(file_name: Seq<char>) -> bool {
    file_name == "alipay_qr.png"@ || file_name == "wechat_qr.png"@ || file_name
        == "qq_group_qr.png"@
}

/// Where an asset lies, and its type. Only the pictures of the page are assets.
pub fn load_support_asset(config: &LlmAccessSupportConfig, file_name: &str) -> (result: Result<
    (String, &'static str),
    String,
>)
    ensures
        match result {
            Ok(asset) => is_asset(file_name@) && asset.0@ == inside(config.base_dir@, file_name@)
                && asset.1@ == "image/png"@,
            Err(message) => !is_asset(file_name@) && message@ == "unsupported support asset: "@
                + file_name@,
        },
{
    if same_text(file_name, "alipay_qr.png") || same_text(file_name, "wechat_qr.png") || same_text(
        file_name,
        "qq_group_qr.png",
    ) {
        Ok((config.asset_path(file_name), "image/png"))
    } else {
        Err(concat2("unsupported support asset: ", file_name))
    }
}

/// Whether a file lies in the directory of the page.
pub fn is_within_base_dir(base_dir: &str, candidate: &str) -> (result: bool)
    ensures
        result == is_under(base_dir@, candidate@),
{
    lies_under(base_dir, candidate)
}

// ---------------------------------------------------------------------------
// Laws
// ---------------------------------------------------------------------------

/// Every asset lies in the directory of the page: no name leads out of it.
pub proof fn law_assets_stay_inside(base_dir: Seq<char>, file_name: Seq<char>)
    requires
        is_asset(file_name),
    ensures
        is_under(base_dir, inside(base_dir, file_name)),
{
    reveal_strlit("alipay_qr.png");
    reveal_strlit("wechat_qr.png");
    reveal_strlit("qq_group_qr.png");
    crate::paths::law_joined_path_lies_under(base_dir, file_name);
}

/// A configuration is complete exactly where no setting is blank; what is kept of each has
/// no space around it.
pub proof fn law_blank_settings_are_missing(raw: RawLlmAccessSupportConfig)
    ensures
        missing_setting(raw) is None <==> trim(raw.owner_display_name@).len() > 0 && trim(
            raw.sponsor_title@,
        ).len() > 0 && trim(raw.sponsor_intro@).len() > 0 && trim(raw.group_name@).len() > 0 && trim(
            raw.qq_group_number@,
        ).len() > 0 && trim(raw.group_invite_text@).len() > 0 && trim(
            raw.payment_email_subject@,
        ).len() > 0 && trim(raw.payment_email_signature@).len() > 0,
        trim(raw.owner_display_name@).len() == 0 ==> missing_setting(raw) == Some(
            "owner_display_name"@,
        ),
        forall|config: LlmAccessSupportConfig, base_dir: String|
            #[trigger] is_normalized(config, base_dir, raw) ==> config.owner_display_name@ == trim(
                raw.owner_display_name@,
            ) && config.sponsor_title@ == trim(raw.sponsor_title@)
                && config.payment_email_subject@ == trim(raw.payment_email_subject@)
                && config.base_dir == base_dir,
{
}

/// Every hole of the mail is filled with the setting of its name.
pub proof fn law_the_holes_of_the_mail(config: LlmAccessSupportConfig)
    ensures
        payment_holes(config).len() == 7,
        payment_holes(config)[0] == ("{{ owner_display_name }}"@, config.owner_display_name@),
        payment_holes(config)[1] == ("{{ sponsor_title }}"@, config.sponsor_title@),
        payment_holes(config)[2] == ("{{ sponsor_intro }}"@, config.sponsor_intro@),
        payment_holes(config)[3] == ("{{ group_name }}"@, config.group_name@),
        payment_holes(config)[4] == ("{{ qq_group_number }}"@, config.qq_group_number@),
        payment_holes(config)[5] == ("{{ group_invite_text }}"@, config.group_invite_text@),
        payment_holes(config)[6] == (
            "{{ payment_email_signature }}"@,
            config.payment_email_signature@,
        ),
{
}

/// A configured directory is taken without the space around it; where none is configured the
/// usual one is, and the other one only where it alone exists.
pub proof fn law_which_directory_is_taken(
    configured: Option<&str>,
    default_exists: bool,
    fallback_exists: bool,
    dir: String,
)
    requires
        call_ensures(resolve_support_dir, (configured, default_exists, fallback_exists), dir),
    ensures
        configured matches Some(raw) ==> (crate::text::trim(raw@).len() > 0 ==> dir@
            == crate::text::trim(raw@)),
        configured is None && (default_exists || !fallback_exists) ==> dir@
            == "crates/backend/.local/llm_access_support"@,
        configured is None && !default_exists && fallback_exists ==> dir@
            == ".local/llm_access_support"@,
{
}

} // verus!
