//! The proxy that usage is attributed to.

use vstd::prelude::*;
use crate::json::{optional_json_string_any, parse_text, parsed_text, string_field, Json, JsonView};
use crate::text::{clone_opt, opt_text, same_text, strs, trim, trimmed};
use crate::types::ProviderType;

verus! {

/// The proxy through which the usage of an account went.
pub struct UsageProxyAttribution {
    pub provider_type: ProviderType,
    pub account_name: String,
    pub proxy_source: String,
    pub proxy_config_id: Option<String>,
    pub proxy_config_name: Option<String>,
    pub proxy_url: Option<String>,
}

/// An answer that is kept, with the generation of the routes it was made for.
pub struct CachedAttribution {
    pub generation: i64,
    pub attribution: Option<UsageProxyAttribution>,
}

/// How the proxy of an account shows to an administrator.
pub struct ProxyView {
    pub source: String,
    pub url: Option<String>,
    pub config_name: Option<String>,
}

/// What has happened on the way to an attribution.
pub enum AttributionEvent {
    /// The usage of an account is to be attributed; `cached` where answers are kept.
    Asked { provider: String, account_name: String, cached: bool },
    /// The kept answer was read; it may not be there, or not be readable.
    Looked {
        provider: String,
        account_name: String,
        lookup: Option<CachedAttribution>,
        generation: i64,
    },
    /// The attribution was made; `generation` is there where answers are kept.
    Built { attribution: Option<UsageProxyAttribution>, generation: Option<i64> },
}

/// What is to be done for an attribution.
pub enum AttributionStep {
    LookUp { provider: String, account_name: String },
    /// Make the attribution from the records of the provider; for an unknown provider there
    /// is none.
    Build { provider: Option<ProviderType>, account_name: String },
    /// Keep the answer, and give it.
    Keep { lookup: CachedAttribution },
    Answer { attribution: Option<UsageProxyAttribution> },
}

pub open spec fn named_provider(name: Seq<char>) -> Option<ProviderType> {
    if name == "codex"@ {
        Some(ProviderType::Codex)
    } else if name == "kiro"@ {
        Some(ProviderType::Kiro)
    } else {
        None
    }
}

/// The provider whose records an attribution is made from.
pub fn build_usage_proxy_attribution(provider: &str) -> (result: Option<ProviderType>)
    ensures
        result == named_provider(provider@),
{
    if same_text(provider, "codex") {
        Some(ProviderType::Codex)
    } else if same_text(provider, "kiro") {
        Some(ProviderType::Kiro)
    } else {
        None
    }
}

pub open spec fn builds(step: AttributionStep, provider: Seq<char>, account_name: Seq<char>) -> bool {
    step matches AttributionStep::Build { provider: from, account_name: name } && from
        == named_provider(provider) && name@ == account_name
}

/// What an event on the way to an attribution leads to.
pub open spec fn attribution_step(event: AttributionEvent, step: AttributionStep) -> bool {
    match event {
        AttributionEvent::Asked { provider, account_name, cached } => {
            let provider = trim(provider@);
            let account_name = trim(account_name@);
            if provider.len() == 0 || account_name.len() == 0 {
                step == (AttributionStep::Answer { attribution: None })
            } else if cached {
                step matches AttributionStep::LookUp { provider: p, account_name: a } && p@
                    == provider && a@ == account_name
            } else {
                builds(step, provider, account_name)
            }
        },
        AttributionEvent::Looked { provider, account_name, lookup, generation } => match lookup {
            Some(lookup) => if lookup.generation == generation {
                step == (AttributionStep::Answer { attribution: lookup.attribution })
            } else {
                builds(step, provider@, account_name@)
            },
            None => builds(step, provider@, account_name@),
        },
        AttributionEvent::Built { attribution, generation } => match generation {
            Some(generation) => step == (AttributionStep::Keep {
                lookup: CachedAttribution { generation, attribution },
            }),
            None => step == (AttributionStep::Answer { attribution }),
        },
    }
}

/// Takes an attribution one step further.
pub fn resolve_usage_proxy_attribution(event: AttributionEvent) -> (step: AttributionStep)
    ensures
        attribution_step(event, step),
{
    match event {
        AttributionEvent::Asked { provider, account_name, cached } => {
            let provider = trimmed(provider.as_str());
            let account_name = trimmed(account_name.as_str());
            if provider.as_str().is_empty() || account_name.as_str().is_empty() {
                AttributionStep::Answer { attribution: None }
            } else if cached {
                AttributionStep::LookUp { provider, account_name }
            } else {
                let provider = build_usage_proxy_attribution(provider.as_str());
                AttributionStep::Build { provider, account_name }
            }
        },
        AttributionEvent::Looked { provider, account_name, lookup, generation } => {
            if let Some(lookup) = lookup {
                if lookup.generation == generation {
                    return AttributionStep::Answer { attribution: lookup.attribution };
                }
            }
            let provider = build_usage_proxy_attribution(provider.as_str());
            AttributionStep::Build { provider, account_name }
        },
        AttributionEvent::Built { attribution, generation } => match generation {
            Some(generation) => AttributionStep::Keep {
                lookup: CachedAttribution { generation, attribution },
            },
            None => AttributionStep::Answer { attribution },
        },
    }
}

/// The proxy mode of Kiro credentials: what they say, else fixed where the account names a
/// slot.
pub open spec fn kiro_proxy_mode(auth: JsonView, slot: Option<Seq<char>>) -> Seq<char> {
    match first_string(auth, seq!["proxyMode"@, "proxy_mode"@]) {
        Some(mode) => mode,
        None => if slot is Some {
            "fixed"@
        } else {
            "inherit"@
        },
    }
}

pub open spec fn first_string(auth: JsonView, fields: Seq<Seq<char>>) -> Option<Seq<char>> {
    crate::json::first_field(auth, fields, |v: JsonView, f: Seq<char>| string_field(v, f))
}

/// The slot that an account names: in its record, else in its credentials.
pub open spec fn kiro_proxy_slot(auth: JsonView, slot: Option<Seq<char>>) -> Option<Seq<char>> {
    match slot {
        Some(id) => Some(id),
        None => first_string(auth, seq!["proxyConfigId"@, "proxy_config_id"@]),
    }
}

/// The proxy mode and the slot of a Kiro account.
pub fn kiro_proxy_choice(auth: &Json, slot: &Option<String>) -> (choice: (String, Option<String>))
    ensures
        choice.0@ == kiro_proxy_mode(auth@, opt_text(*slot)),
        opt_text(choice.1) == kiro_proxy_slot(auth@, opt_text(*slot)),
{
    let mode_fields: [&str; 2] = ["proxyMode", "proxy_mode"];
    let id_fields: [&str; 2] = ["proxyConfigId", "proxy_config_id"];
    assert(strs(mode_fields@) =~= seq!["proxyMode"@, "proxy_mode"@]);
    assert(strs(id_fields@) =~= seq!["proxyConfigId"@, "proxy_config_id"@]);
    let mode = match optional_json_string_any(auth, &mode_fields) {
        Some(mode) => mode,
        None => if slot.is_some() {
            "fixed".to_owned()
        } else {
            "inherit".to_owned()
        },
    };
    let id = match slot {
        Some(id) => Some(id.clone()),
        None => optional_json_string_any(auth, &id_fields),
    };
    (mode, id)
}

/// The slot that usage is attributed to: the account's own in fixed mode, else the one
/// that the provider is bound to.
pub open spec fn slot_attributed(
    mode: Seq<char>,
    own: Option<String>,
    bound: Option<String>,
) -> Option<String> {
    if mode == "fixed"@ {
        own
    } else {
        bound
    }
}

pub fn attributed_slot(mode: &str, own: &Option<String>, bound: &Option<String>) -> (slot: Option<
    String,
>)
    ensures
        slot == slot_attributed(mode@, *own, *bound),
{
    if same_text(mode, "fixed") {
        clone_opt(own)
    } else {
        clone_opt(bound)
    }
}

/// The proxy of a Codex account. `mode` and `own` are what its settings say, and `bound` is
/// the slot that the provider is bound to.
pub fn build_codex_usage_proxy_attribution(
    account_name: &str,
    mode: &str,
    own: &Option<String>,
    bound: &Option<String>,
    view: ProxyView,
) -> (attribution: UsageProxyAttribution)
    ensures
        attribution.provider_type == ProviderType::Codex,
        attribution.account_name@ == account_name@,
        attribution.proxy_source == view.source,
        attribution.proxy_url == view.url,
        attribution.proxy_config_name == view.config_name,
        attribution.proxy_config_id == slot_attributed(mode@, *own, *bound),
{
    UsageProxyAttribution {
        provider_type: ProviderType::Codex,
        account_name: account_name.to_owned(),
        proxy_source: view.source,
        proxy_config_id: attributed_slot(mode, own, bound),
        proxy_config_name: view.config_name,
        proxy_url: view.url,
    }
}

/// What the records of a Kiro account say of its proxy; nothing where its credentials are
/// no JSON.
pub fn kiro_account_proxy(auth_json: &str, slot: &Option<String>) -> (choice: Option<
    (String, Option<String>),
>)
    ensures
        match parsed_text(auth_json@) {
            None => choice is None,
            Some(auth) => choice matches Some(choice) && choice.0@ == kiro_proxy_mode(
                auth,
                opt_text(*slot),
            ) && opt_text(choice.1) == kiro_proxy_slot(auth, opt_text(*slot)),
        },
{
    match parse_text(auth_json) {
        None => None,
        Some(auth) => Some(kiro_proxy_choice(&auth, slot)),
    }
}

/// The proxy of a Kiro account. `mode` and `own` are what its records say, and `bound` is
/// the slot that the provider is bound to.
pub fn build_kiro_usage_proxy_attribution(
    account_name: &str,
    mode: &str,
    own: &Option<String>,
    bound: &Option<String>,
    view: ProxyView,
) -> (attribution: UsageProxyAttribution)
    ensures
        attribution.provider_type == ProviderType::Kiro,
        attribution.account_name@ == account_name@,
        attribution.proxy_source == view.source,
        attribution.proxy_url == view.url,
        attribution.proxy_config_name == view.config_name,
        attribution.proxy_config_id == slot_attributed(mode@, *own, *bound),
{
    UsageProxyAttribution {
        provider_type: ProviderType::Kiro,
        account_name: account_name.to_owned(),
        proxy_source: view.source,
        proxy_config_id: attributed_slot(mode, own, bound),
        proxy_config_name: view.config_name,
        proxy_url: view.url,
    }
}

// ---------------------------------------------------------------------------
// Laws
// ---------------------------------------------------------------------------

/// An answer that was kept is given again as long as the routes have not changed, and made
/// anew once they have.
pub proof fn law_kept_answers_last_a_generation(
    attribution: Option<UsageProxyAttribution>,
    made_for: i64,
    provider: String,
    account_name: String,
    generation: i64,
    kept: AttributionStep,
    step: AttributionStep,
)
    requires
        attribution_step(
            AttributionEvent::Built { attribution, generation: Some(made_for) },
            kept,
        ),
        attribution_step(
            AttributionEvent::Looked {
                provider,
                account_name,
                lookup: Some(kept->lookup),
                generation,
            },
            step,
        ),
    ensures
        generation == made_for ==> step == (AttributionStep::Answer { attribution }),
        generation != made_for ==> step is Build,
{
}

/// What an attribution comes to: without a provider or an account there is none; an answer
/// that was kept for the present generation is given; any other is made anew, from the
/// records of its provider.
pub proof fn law_how_an_attribution_is_made(event: AttributionEvent, step: AttributionStep)
    requires
        attribution_step(event, step),
    ensures
        event matches AttributionEvent::Asked { provider, account_name, cached } ==> {
            &&& trim(provider@).len() == 0 || trim(account_name@).len() == 0 ==> step == (
            AttributionStep::Answer { attribution: None })
            &&& trim(provider@).len() > 0 && trim(account_name@).len() > 0 && cached ==> step
                is LookUp
            &&& trim(provider@).len() > 0 && trim(account_name@).len() > 0 && !cached ==> (
            step matches AttributionStep::Build { provider: from, account_name: name } && name@
                == trim(account_name@) && (from == Some(ProviderType::Codex) <==> trim(provider@)
                == "codex"@) && (from == Some(ProviderType::Kiro) <==> trim(provider@) == "kiro"@))
        },
        event matches AttributionEvent::Looked { provider, account_name, lookup, generation } ==> {
            &&& lookup matches Some(kept) ==> (kept.generation == generation ==> step == (
            AttributionStep::Answer { attribution: kept.attribution }))
            &&& lookup matches Some(kept) ==> (kept.generation != generation ==> step is Build)
            &&& lookup is None ==> step is Build
        },
        event matches AttributionEvent::Built { attribution, generation } ==> match generation {
            Some(at) => step matches AttributionStep::Keep { lookup } && lookup.generation == at
                && lookup.attribution == attribution,
            None => step == (AttributionStep::Answer { attribution }),
        },
{
    reveal_strlit("codex");
    reveal_strlit("kiro");
    assert("codex"@.len() == 5 && "kiro"@.len() == 4);
}

/// An account that is fixed to a slot is attributed to it, any other to the slot that its
/// provider is bound to.
pub proof fn law_which_slot_is_attributed(
    mode: Seq<char>,
    own: Option<String>,
    bound: Option<String>,
)
    ensures
        mode == "fixed"@ ==> slot_attributed(mode, own, bound) == own,
        mode != "fixed"@ ==> slot_attributed(mode, own, bound) == bound,
{
}

/// The mode of an account is the one that its credentials name; where they name none, a slot
/// makes it fixed, and without one it is inherited. A slot of its own goes before the one that
/// the credentials name.
pub proof fn law_which_proxy_mode_an_account_has(
    auth: &Json,
    slot: &Option<String>,
    choice: (String, Option<String>),
)
    requires
        call_ensures(kiro_proxy_choice, (auth, slot), choice),
    ensures
        string_field(auth@, "proxyMode"@) matches Some(mode) ==> choice.0@ == mode,
        string_field(auth@, "proxyMode"@) is None ==> (string_field(
            auth@,
            "proxy_mode"@,
        ) matches Some(mode) ==> choice.0@ == mode),
        string_field(auth@, "proxyMode"@) is None && string_field(auth@, "proxy_mode"@) is None
            ==> choice.0@ == (if *slot is Some {
            "fixed"@
        } else {
            "inherit"@
        }),
        *slot is Some ==> opt_text(choice.1) == opt_text(*slot),
        *slot is None ==> (string_field(auth@, "proxyConfigId"@) matches Some(id) ==> opt_text(
            choice.1,
        ) == Some(id)),
        *slot is None && string_field(auth@, "proxyConfigId"@) is None ==> opt_text(choice.1)
            == string_field(auth@, "proxy_config_id"@),
{
    let read = |v: JsonView, f: Seq<char>| string_field(v, f);
    let modes = seq!["proxyMode"@, "proxy_mode"@];
    let slots = seq!["proxyConfigId"@, "proxy_config_id"@];
    assert(modes.drop_first() =~= seq!["proxy_mode"@]);
    assert(slots.drop_first() =~= seq!["proxy_config_id"@]);
    assert(modes.drop_first().drop_first() =~= Seq::<Seq<char>>::empty());
    assert(slots.drop_first().drop_first() =~= Seq::<Seq<char>>::empty());
    reveal_with_fuel(crate::json::first_field, 3);
    assert(first_string(auth@, modes) == crate::json::first_field(auth@, modes, read));
    assert(first_string(auth@, slots) == crate::json::first_field(auth@, slots, read));
}

} // verus!
