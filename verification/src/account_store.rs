//! The accounts behind a key: which of them it may use, and how their records change.

use vstd::prelude::*;
use crate::json::{parse_text, parsed_text, Json, JsonView};
use crate::name_map::NameMap;
use crate::text::{clone_list, clone_opt, concat3, opt_text, same_text, texts, trim,
    trimmed_nonempty};
use crate::types::{ProviderCodexRoute, ProviderKiroRoute, ProviderProxyConfig, RouteStrategy};
use crate::usage_meta::{saturating_sum, sum_i64};

verus! {

// ---------------------------------------------------------------------------
// Groups
// ---------------------------------------------------------------------------

/// A named group of accounts of one provider.
pub struct AdminAccountGroup {
    pub id: String,
    pub provider_type: String,
    pub name: String,
    pub account_names: Vec<String>,
    pub created_at: i64,
    pub updated_at: i64,
}

pub struct AdminAccountGroupPatch {
    pub name: Option<String>,
    pub account_names: Option<Vec<String>>,
    pub updated_at_ms: i64,
}

pub fn patch_admin_account_group(group: &mut AdminAccountGroup, patch: &AdminAccountGroupPatch)
    ensures
        *final(group) == (AdminAccountGroup {
            name: match patch.name {
                Some(name) => name,
                None => old(group).name,
            },
            account_names: final(group).account_names,
            updated_at: patch.updated_at_ms,
            ..*old(group)
        }),
        texts(final(group).account_names@) == match patch.account_names {
            Some(names) => texts(names@),
            None => texts(old(group).account_names@),
        },
{
    if let Some(name) = &patch.name {
        group.name = name.clone();
    }
    if let Some(names) = &patch.account_names {
        group.account_names = clone_list(names);
    }
    group.updated_at = patch.updated_at_ms;
}

/// The rows that a page asks the database for: at least one.
pub fn page_limit(limit: usize) -> (rows: usize)
    ensures
        rows == if limit == 0 {
            1
        } else {
            limit
        },
{
    if limit == 0 {
        1
    } else {
        limit
    }
}

/// The number of rows that a count query gave.
pub fn page_total(total: i64) -> (result: Option<u64>)
    ensures
        match result {
            Some(count) => total >= 0 && count == total,
            None => total < 0,
        },
{
    if total < 0 {
        None
    } else {
        Some(total as u64)
    }
}

// ---------------------------------------------------------------------------
// Account names
// ---------------------------------------------------------------------------

/// How a key chooses among accounts.
pub struct KeyRouteConfig {
    pub route_strategy: Option<String>,
    pub account_group_id: Option<String>,
    pub fixed_account_name: Option<String>,
    pub auto_account_names_json: Option<String>,
}

/// Why a key has no accounts.
pub enum RouteError {
    GroupMissing { group_id: String },
    GroupOfOtherProvider,
    FixedGroupNotSingle,
    FixedWithoutAccount,
    UnsupportedStrategy { strategy: String },
}

impl RouteError {
    pub open spec fn text(self) -> Seq<char> {
        match self {
            RouteError::GroupMissing { group_id } => "configured account_group_id `"@ + group_id@
                + "` does not exist"@,
            RouteError::GroupOfOtherProvider => "configured account_group_id belongs to a different provider"@,
            RouteError::FixedGroupNotSingle => "fixed route_strategy requires an account group with exactly one account"@,
            RouteError::FixedWithoutAccount => "fixed route_strategy requires account_group_id"@,
            RouteError::UnsupportedStrategy { strategy } => "unsupported route strategy `"@
                + strategy@ + "`"@,
        }
    }

    pub fn message(&self) -> (message: String)
        ensures
            message@ == self.text(),
    {
        match self {
            RouteError::GroupMissing { group_id } => concat3(
                "configured account_group_id `",
                group_id.as_str(),
                "` does not exist",
            ),
            RouteError::GroupOfOtherProvider => "configured account_group_id belongs to a different provider".to_owned(),
            RouteError::FixedGroupNotSingle => "fixed route_strategy requires an account group with exactly one account".to_owned(),
            RouteError::FixedWithoutAccount => "fixed route_strategy requires account_group_id".to_owned(),
            RouteError::UnsupportedStrategy { strategy } => concat3(
                "unsupported route strategy `",
                strategy.as_str(),
                "`",
            ),
        }
    }
}

/// The texts of an array that holds nothing but texts.
pub open spec fn text_items(items: Seq<JsonView>) -> Option<Seq<Seq<char>>>
    decreases items.len(),
{
    if items.len() == 0 {
        Some(Seq::empty())
    } else {
        match (text_items(items.drop_last()), items.last().as_str()) {
            (Some(front), Some(text)) => Some(front.push(text)),
            _ => None,
        }
    }
}

pub open spec fn text_list(value: JsonView) -> Option<Seq<Seq<char>>> {
    match value {
        JsonView::Array(items) => text_items(items),
        _ => None,
    }
}

proof fn lemma_text_items_fail(items: Seq<JsonView>, n: int)
    requires
        0 <= n <= items.len(),
        text_items(items.take(n)) is None,
    ensures
        text_items(items) is None,
    decreases items.len(),
{
    if n == items.len() {
        assert(items.take(n) =~= items);
    } else {
        assert(items.drop_last().take(n) =~= items.take(n));
        lemma_text_items_fail(items.drop_last(), n);
    }
}

pub fn text_list_of(value: &Json) -> (result: Option<Vec<String>>)
    ensures
        match result {
            Some(list) => text_list(value@) == Some(texts(list@)),
            None => text_list(value@) is None,
        },
{
    match value {
        Json::Array(items) => {
            let mut list: Vec<String> = Vec::new();
            let mut i: usize = 0;
            let ghost views = crate::json::array_view(items@);
            proof {
                crate::json::lemma_array_view(items@);
            }
            assert(views.take(0) =~= Seq::<JsonView>::empty());
            assert(texts(list@) =~= Seq::<Seq<char>>::empty());
            while i < items.len()
                invariant
                    i <= items.len(),
                    views.len() == items.len(),
                    *value == Json::Array(*items),
                    views == crate::json::array_view(items@),
                    forall|k: int| 0 <= k < views.len() ==> #[trigger] views[k] == items@[k]@,
                    text_items(views.take(i as int)) == Some(texts(list@)),
                decreases items.len() - i,
            {
                let ghost head = views.take(i + 1);
                assert(head.drop_last() =~= views.take(i as int));
                assert(head.last() == items@[i as int]@);
                match items[i].as_str() {
                    Some(text) => {
                        let ghost before = texts(list@);
                        list.push(text.to_owned());
                        assert(texts(list@) =~= before.push(text@));
                    },
                    None => {
                        proof {
                            lemma_text_items_fail(views, i + 1);
                        }
                        return None;
                    },
                }
                i += 1;
            }
            assert(views.take(i as int) =~= views);
            Some(list)
        },
        _ => None,
    }
}

pub open spec fn names_of_group(group: AdminAccountGroup) -> Seq<Seq<char>> {
    texts(group.account_names@)
}

/// What is wrong with the group that a key names.
pub open spec fn group_error(
    group_id: Seq<char>,
    group: Option<AdminAccountGroup>,
    provider: Seq<char>,
) -> Option<Seq<char>> {
    match group {
        None => Some("configured account_group_id `"@ + group_id + "` does not exist"@),
        Some(group) => if group.provider_type@ != provider {
            Some("configured account_group_id belongs to a different provider"@)
        } else {
            None
        },
    }
}

/// The accounts of a key with a fixed account.
pub open spec fn fixed_names(
    route: KeyRouteConfig,
    group: Option<AdminAccountGroup>,
    provider: Seq<char>,
) -> Result<Seq<Seq<char>>, Seq<char>> {
    match route.account_group_id {
        Some(group_id) => match group_error(group_id@, group, provider) {
            Some(error) => Err(error),
            None => if names_of_group(group->0).len() != 1 {
                Err("fixed route_strategy requires an account group with exactly one account"@)
            } else {
                Ok(names_of_group(group->0))
            },
        },
        None => match route.fixed_account_name {
            Some(name) => if trim(name@).len() > 0 {
                Ok(seq![name@])
            } else {
                Err("fixed route_strategy requires account_group_id"@)
            },
            None => Err("fixed route_strategy requires account_group_id"@),
        },
    }
}

/// The accounts that the key itself lists, or all active ones.
pub open spec fn listed_names(listed: Option<Seq<Seq<char>>>, defaults: Seq<Seq<char>>) -> Seq<
    Seq<char>,
> {
    match listed {
        Some(names) => if names.len() > 0 {
            names
        } else {
            defaults
        },
        None => defaults,
    }
}

/// The accounts of a key that takes any: those of its group, else its own list, else all
/// active ones.
pub open spec fn auto_names(
    route: KeyRouteConfig,
    group: Option<AdminAccountGroup>,
    provider: Seq<char>,
    listed: Option<Seq<Seq<char>>>,
    defaults: Seq<Seq<char>>,
) -> Result<Seq<Seq<char>>, Seq<char>> {
    match route.account_group_id {
        Some(group_id) => match group_error(group_id@, group, provider) {
            Some(error) => Err(error),
            None => if names_of_group(group->0).len() > 0 {
                Ok(names_of_group(group->0))
            } else {
                Ok(listed_names(listed, defaults))
            },
        },
        None => Ok(listed_names(listed, defaults)),
    }
}

/// The accounts that a key may use. `listed` is the list that the key itself holds.
pub open spec fn route_names(
    provider: Seq<char>,
    route: KeyRouteConfig,
    group: Option<AdminAccountGroup>,
    listed: Option<Seq<Seq<char>>>,
    defaults: Seq<Seq<char>>,
) -> Result<Seq<Seq<char>>, Seq<char>> {
    let strategy = match route.route_strategy {
        Some(strategy) => strategy@,
        None => "auto"@,
    };
    if strategy == "fixed"@ {
        fixed_names(route, group, provider)
    } else if strategy == "auto"@ {
        auto_names(route, group, provider, listed, defaults)
    } else {
        Err("unsupported route strategy `"@ + strategy + "`"@)
    }
}

fn usable_group<'a>(group_id: &str, group: &'a Option<AdminAccountGroup>, provider_type: &str) -> (result:
    Result<&'a AdminAccountGroup, RouteError>)
    ensures
        match result {
            Ok(found) => group_error(group_id@, *group, provider_type@) is None && *group == Some(
                *found,
            ),
            Err(error) => group_error(group_id@, *group, provider_type@) == Some(error.text()),
        },
{
    match group {
        None => Err(RouteError::GroupMissing { group_id: group_id.to_owned() }),
        Some(group) => if !same_text(group.provider_type.as_str(), provider_type) {
            Err(RouteError::GroupOfOtherProvider)
        } else {
            Ok(group)
        },
    }
}

pub open spec fn opt_texts(list: Option<Vec<String>>) -> Option<Seq<Seq<char>>> {
    match list {
        Some(list) => Some(texts(list@)),
        None => None,
    }
}

/// The accounts that a key may use. `group` is the group that the key names, `listed` the
/// list that the key itself holds.
pub fn route_account_names(
    provider_type: &str,
    route: &KeyRouteConfig,
    group: &Option<AdminAccountGroup>,
    listed: Option<Vec<String>>,
    default_active_account_names: Vec<String>,
) -> (result: Result<Vec<String>, RouteError>)
    ensures
        match route_names(
            provider_type@,
            *route,
            *group,
            opt_texts(listed),
            texts(default_active_account_names@),
        ) {
            Ok(names) => result matches Ok(list) && texts(list@) == names,
            Err(message) => result matches Err(error) && error.text() == message,
        },
{
    let strategy = match &route.route_strategy {
        Some(strategy) => strategy.as_str(),
        None => "auto",
    };
    if same_text(strategy, "fixed") {
        if let Some(group_id) = &route.account_group_id {
            let group = match usable_group(group_id.as_str(), group, provider_type) {
                Ok(group) => group,
                Err(error) => return Err(error),
            };
            if group.account_names.len() != 1 {
                return Err(RouteError::FixedGroupNotSingle);
            }
            return Ok(clone_list(&group.account_names));
        }
        return match &route.fixed_account_name {
            Some(name) => if trimmed_nonempty(name.as_str()).is_some() {
                let mut list: Vec<String> = Vec::new();
                list.push(name.clone());
                assert(texts(list@) =~= seq![name@]);
                Ok(list)
            } else {
                Err(RouteError::FixedWithoutAccount)
            },
            None => Err(RouteError::FixedWithoutAccount),
        };
    }
    if !same_text(strategy, "auto") {
        return Err(RouteError::UnsupportedStrategy { strategy: strategy.to_owned() });
    }
    if let Some(group_id) = &route.account_group_id {
        let group = match usable_group(group_id.as_str(), group, provider_type) {
            Ok(group) => group,
            Err(error) => return Err(error),
        };
        if group.account_names.len() > 0 {
            return Ok(clone_list(&group.account_names));
        }
    }
    if let Some(names) = listed {
        if names.len() > 0 {
            return Ok(names);
        }
    }
    Ok(default_active_account_names)
}

/// The list that a key holds as JSON text; nothing where the text is no list of texts.
pub open spec fn listed_in(text: Option<Seq<char>>) -> Option<Seq<Seq<char>>> {
    match text {
        Some(text) => match parsed_text(text) {
            Some(value) => text_list(value),
            None => None,
        },
        None => None,
    }
}

/// The accounts that a key may use.
pub fn resolve_route_account_names(
    provider_type: &str,
    route: &KeyRouteConfig,
    group: &Option<AdminAccountGroup>,
    default_active_account_names: Vec<String>,
) -> (result: Result<Vec<String>, RouteError>)
    ensures
        match route_names(
            provider_type@,
            *route,
            *group,
            listed_in(opt_text(route.auto_account_names_json)),
            texts(default_active_account_names@),
        ) {
            Ok(names) => result matches Ok(list) && texts(list@) == names,
            Err(message) => result matches Err(error) && error.text() == message,
        },
{
    let listed = match &route.auto_account_names_json {
        Some(text) => match parse_text(text.as_str()) {
            Some(value) => text_list_of(&value),
            None => None,
        },
        None => None,
    };
    route_account_names(provider_type, route, group, listed, default_active_account_names)
}

// ---------------------------------------------------------------------------
// Codex routes
// ---------------------------------------------------------------------------

/// What is cached of a Codex account.
pub struct CodexAccountView {
    pub account_name: String,
    pub status: String,
    pub map_gpt53_codex_to_spark: bool,
    pub auth_refresh_enabled: bool,
    pub request_max_concurrency: Option<u64>,
    pub request_min_start_interval_ms: Option<u64>,
    pub cached_error_message: Option<String>,
    pub terminal_auth_error: bool,
    pub proxy: Option<ProviderProxyConfig>,
}

/// What is cached of a Codex key.
pub struct CodexKeySnapshot {
    pub provider_type: String,
    pub route_strategy: String,
    pub account_group_id_at_event: Option<String>,
    pub selected_account_names: Vec<String>,
    pub codex_fast_enabled: bool,
    pub request_max_concurrency: Option<u64>,
    pub request_min_start_interval_ms: Option<u64>,
}

pub open spec fn strategy_named(name: Seq<char>) -> RouteStrategy {
    if name == "fixed"@ {
        RouteStrategy::Fixed
    } else {
        RouteStrategy::Auto
    }
}

pub fn route_strategy_of(name: &str) -> (strategy: RouteStrategy)
    ensures
        strategy == strategy_named(name@),
{
    if same_text(name, "fixed") {
        RouteStrategy::Fixed
    } else {
        RouteStrategy::Auto
    }
}

fn copy_proxy(proxy: &Option<ProviderProxyConfig>) -> (result: Option<ProviderProxyConfig>)
    ensures
        result == *proxy,
{
    match proxy {
        Some(proxy) => Some(
            ProviderProxyConfig {
                proxy_url: proxy.proxy_url.clone(),
                proxy_username: clone_opt(&proxy.proxy_username),
                proxy_password: clone_opt(&proxy.proxy_password),
            },
        ),
        None => None,
    }
}

/// The route to an account for a key; the credentials come later.
pub open spec fn is_codex_candidate(
    route: ProviderCodexRoute,
    snapshot: CodexKeySnapshot,
    view: CodexAccountView,
) -> bool {
    &&& route == (ProviderCodexRoute {
        account_name: view.account_name,
        account_group_id_at_event: snapshot.account_group_id_at_event,
        route_strategy_at_event: strategy_named(snapshot.route_strategy@),
        auth_json: route.auth_json,
        map_gpt53_codex_to_spark: view.map_gpt53_codex_to_spark,
        auth_refresh_enabled: view.auth_refresh_enabled,
        codex_fast_enabled: snapshot.codex_fast_enabled,
        request_max_concurrency: snapshot.request_max_concurrency,
        request_min_start_interval_ms: snapshot.request_min_start_interval_ms,
        account_request_max_concurrency: view.request_max_concurrency,
        account_request_min_start_interval_ms: view.request_min_start_interval_ms,
        cached_error_message: view.cached_error_message,
        terminal_auth_error: view.terminal_auth_error,
        proxy: view.proxy,
    })
    &&& route.auth_json@.len() == 0
}

/// The views of the selected accounts that can be used, in the order of the selection.
pub open spec fn active_codex_views(
    names: Seq<Seq<char>>,
    views: Map<Seq<char>, CodexAccountView>,
) -> Seq<CodexAccountView>
    decreases names.len(),
{
    if names.len() == 0 {
        Seq::empty()
    } else {
        let front = active_codex_views(names.drop_last(), views);
        if views.dom().contains(names.last()) && views[names.last()].status@ == "active"@ {
            front.push(views[names.last()])
        } else {
            front
        }
    }
}

/// The views that the routes of a key are made from: none for a key of another provider.
pub open spec fn codex_candidate_views(
    snapshot: CodexKeySnapshot,
    views: Map<Seq<char>, CodexAccountView>,
) -> Seq<CodexAccountView> {
    if snapshot.provider_type@ == "codex"@ {
        active_codex_views(texts(snapshot.selected_account_names@), views)
    } else {
        Seq::empty()
    }
}

/// The routes of a Codex key, one for each selected account that is active. They stand in
/// the order of the selection, before they are ordered by the quota that is left.
pub fn unordered_codex_routes(
    snapshot: &CodexKeySnapshot,
    views: &NameMap<CodexAccountView>,
) -> (routes: Vec<ProviderCodexRoute>)
    ensures
        routes.len() == codex_candidate_views(*snapshot, views@).len(),
        forall|i: int|
            0 <= i < routes.len() ==> is_codex_candidate(
                #[trigger] routes@[i],
                *snapshot,
                codex_candidate_views(*snapshot, views@)[i],
            ),
{
    let mut routes: Vec<ProviderCodexRoute> = Vec::new();
    if !same_text(snapshot.provider_type.as_str(), "codex") {
        return routes;
    }
    let names = &snapshot.selected_account_names;
    let ghost all = texts(names@);
    let mut i: usize = 0;
    assert(all.take(0) =~= Seq::<Seq<char>>::empty());
    while i < names.len()
        invariant
            i <= names.len(),
            all == texts(names@),
            routes.len() == active_codex_views(all.take(i as int), views@).len(),
            forall|k: int|
                0 <= k < routes.len() ==> is_codex_candidate(
                    #[trigger] routes@[k],
                    *snapshot,
                    active_codex_views(all.take(i as int), views@)[k],
                ),
        decreases names.len() - i,
    {
        let ghost head = all.take(i + 1);
        assert(head.drop_last() =~= all.take(i as int));
        assert(head.last() == names@[i as int]@);
        if let Some(view) = views.get(names[i].as_str()) {
            if same_text(view.status.as_str(), "active") {
                proof {
                    reveal_strlit("");
                }
                let route = ProviderCodexRoute {
                    account_name: view.account_name.clone(),
                    account_group_id_at_event: clone_opt(&snapshot.account_group_id_at_event),
                    route_strategy_at_event: route_strategy_of(snapshot.route_strategy.as_str()),
                    auth_json: "".to_owned(),
                    map_gpt53_codex_to_spark: view.map_gpt53_codex_to_spark,
                    auth_refresh_enabled: view.auth_refresh_enabled,
                    codex_fast_enabled: snapshot.codex_fast_enabled,
                    request_max_concurrency: snapshot.request_max_concurrency,
                    request_min_start_interval_ms: snapshot.request_min_start_interval_ms,
                    account_request_max_concurrency: view.request_max_concurrency,
                    account_request_min_start_interval_ms: view.request_min_start_interval_ms,
                    cached_error_message: clone_opt(&view.cached_error_message),
                    terminal_auth_error: view.terminal_auth_error,
                    proxy: copy_proxy(&view.proxy),
                };
                routes.push(route);
            }
        }
        i += 1;
    }
    assert(all.take(i as int) =~= all);
    routes
}

/// `order` names each of `count` positions once.
pub open spec fn is_order(order: Seq<usize>, count: nat) -> bool {
    &&& order.len() == count
    &&& forall|i: int| 0 <= i < count ==> (#[trigger] order[i]) < count
    &&& forall|i: int, j: int| 0 <= i < j < count ==> #[trigger] order[i] != #[trigger] order[j]
}

/// The routes in a given order, which names the position of each.
pub fn order_codex_routes(routes: Vec<ProviderCodexRoute>, order: &Vec<usize>) -> (ordered: Vec<
    ProviderCodexRoute,
>)
    requires
        is_order(order@, routes@.len()),
    ensures
        ordered.len() == routes.len(),
        forall|i: int| 0 <= i < ordered.len() ==> #[trigger] ordered@[i] == routes@[order@[i] as int],
{
    let ghost all = routes@;
    let count: usize = routes.len();
    let mut rest = routes;
    let mut slots: Vec<Option<ProviderCodexRoute>> = Vec::new();
    while rest.len() > 0
        invariant
            rest.len() + slots.len() == count,
            count == all.len(),
            forall|k: int| 0 <= k < rest.len() ==> #[trigger] rest@[k] == all[k],
            forall|k: int| 0 <= k < slots.len() ==> #[trigger] slots@[k] == Some(all[count - 1 - k]),
        decreases rest.len(),
    {
        let route = rest.pop();
        slots.push(route);
    }
    let mut ordered: Vec<ProviderCodexRoute> = Vec::new();
    let mut i: usize = 0;
    while i < count
        invariant
            i <= count,
            is_order(order@, count as nat),
            count == all.len(),
            slots.len() == count,
            ordered.len() == i,
            forall|k: int| 0 <= k < i ==> #[trigger] ordered@[k] == all[order@[k] as int],
            forall|k: int|
                i <= k < count ==> slots@[count - 1 - #[trigger] order@[k]] == Some(
                    all[order@[k] as int],
                ),
        decreases count - i,
    {
        assert(order@[i as int] < count);
        let at: usize = count - 1 - order[i];
        let mut taken: Option<ProviderCodexRoute> = None;
        let ghost before = slots@;
        std::mem::swap(&mut taken, &mut slots[at]);
        assert(slots@ =~= before.update(at as int, None));
        if let Some(route) = taken {
            ordered.push(route);
        }
        i += 1;
    }
    ordered
}

/// The routes of a Codex key in the order in which they are tried. `order` ranks the
/// unordered routes by the quota that is left.
pub fn resolve_codex_route_candidates(
    snapshot: &CodexKeySnapshot,
    views: &NameMap<CodexAccountView>,
    order: &Vec<usize>,
) -> (routes: Vec<ProviderCodexRoute>)
    requires
        is_order(order@, codex_candidate_views(*snapshot, views@).len()),
    ensures
        routes.len() == codex_candidate_views(*snapshot, views@).len(),
        forall|i: int|
            0 <= i < routes.len() ==> is_codex_candidate(
                #[trigger] routes@[i],
                *snapshot,
                codex_candidate_views(*snapshot, views@)[order@[i] as int],
            ),
{
    let unordered = unordered_codex_routes(snapshot, views);
    let ghost before = unordered@;
    let routes = order_codex_routes(unordered, order);
    assert forall|i: int| 0 <= i < routes.len() implies is_codex_candidate(
        #[trigger] routes@[i],
        *snapshot,
        codex_candidate_views(*snapshot, views@)[order@[i] as int],
    ) by {
        assert(order@[i] < before.len());
        assert(is_codex_candidate(
            before[order@[i] as int],
            *snapshot,
            codex_candidate_views(*snapshot, views@)[order@[i] as int],
        ));
    }
    routes
}

/// The route to one account, whatever the key; none where the account is not active.
pub fn resolve_codex_account_route(view: &CodexAccountView, auth_json: Option<&str>) -> (result: Option<
    ProviderCodexRoute,
>)
    ensures
        result is Some == (view.status@ == "active"@ && auth_json is Some),
        result matches Some(route) ==> route.auth_json@ == (auth_json->0)@ && route == (
        ProviderCodexRoute {
            account_name: view.account_name,
            account_group_id_at_event: None,
            route_strategy_at_event: RouteStrategy::Auto,
            auth_json: route.auth_json,
            map_gpt53_codex_to_spark: view.map_gpt53_codex_to_spark,
            auth_refresh_enabled: view.auth_refresh_enabled,
            codex_fast_enabled: true,
            request_max_concurrency: None,
            request_min_start_interval_ms: None,
            account_request_max_concurrency: view.request_max_concurrency,
            account_request_min_start_interval_ms: view.request_min_start_interval_ms,
            cached_error_message: view.cached_error_message,
            terminal_auth_error: view.terminal_auth_error,
            proxy: view.proxy,
        }),
{
    if !same_text(view.status.as_str(), "active") {
        return None;
    }
    let auth_json = match auth_json {
        Some(auth_json) => auth_json,
        None => return None,
    };
    Some(
        ProviderCodexRoute {
            account_name: view.account_name.clone(),
            account_group_id_at_event: None,
            route_strategy_at_event: RouteStrategy::Auto,
            auth_json: auth_json.to_owned(),
            map_gpt53_codex_to_spark: view.map_gpt53_codex_to_spark,
            auth_refresh_enabled: view.auth_refresh_enabled,
            codex_fast_enabled: true,
            request_max_concurrency: None,
            request_min_start_interval_ms: None,
            account_request_max_concurrency: view.request_max_concurrency,
            account_request_min_start_interval_ms: view.request_min_start_interval_ms,
            cached_error_message: clone_opt(&view.cached_error_message),
            terminal_auth_error: view.terminal_auth_error,
            proxy: copy_proxy(&view.proxy),
        },
    )
}

// ---------------------------------------------------------------------------
// Kiro routes
// ---------------------------------------------------------------------------

/// What is cached of a Kiro account. Credit amounts stand here as the integers by which
/// they are ordered.
pub struct KiroAccountView {
    pub account_name: String,
    pub status: String,
    pub disabled: bool,
    pub profile_arn: Option<String>,
    pub api_region: String,
    pub request_max_concurrency: Option<u64>,
    pub request_min_start_interval_ms: Option<u64>,
    pub proxy: Option<ProviderProxyConfig>,
    pub routing_identity: String,
    pub cached_status: Option<String>,
    pub cached_remaining_order: Option<i64>,
    /// Whether the cached balance is used up, or below the account's minimum.
    pub credits_exhausted: bool,
}

/// What the operator configured for Kiro requests.
pub struct KiroSettings {
    pub request_validation_enabled: bool,
    pub cache_estimation_enabled: bool,
    pub zero_cache_debug_enabled: bool,
    pub full_request_logging_enabled: bool,
    pub remote_media_resolution_enabled: bool,
    pub latency_routing_enabled: bool,
    pub model_name_map_json: String,
    pub cache_kmodels_json: String,
    pub cache_policy_json: String,
    pub context_usage_min_request_tokens: u64,
    pub prefix_cache_mode: String,
    pub prefix_cache_max_tokens: u64,
    pub prefix_cache_entry_ttl_seconds: u64,
    pub conversation_anchor_max_entries: u64,
    pub conversation_anchor_ttl_seconds: u64,
    pub billable_model_multipliers_json: String,
    pub status_refresh_interval_seconds: u64,
    pub compact_trigger_tokens: u64,
}

/// What is cached of a Kiro key.
pub struct KiroKeySnapshot {
    pub provider_type: String,
    pub route_strategy: String,
    pub account_group_id_at_event: Option<String>,
    pub selected_account_names: Vec<String>,
    pub request_max_concurrency: Option<u64>,
    pub request_min_start_interval_ms: Option<u64>,
    pub settings: KiroSettings,
}

/// The route to a Kiro account.
pub open spec fn is_kiro_route(
    route: ProviderKiroRoute,
    view: KiroAccountView,
    settings: KiroSettings,
    strategy: RouteStrategy,
    group_id: Option<String>,
    max_concurrency: Option<u64>,
    min_start_interval_ms: Option<u64>,
    auth_json: Seq<char>,
) -> bool {
    &&& route == (ProviderKiroRoute {
        account_name: view.account_name,
        account_group_id_at_event: group_id,
        route_strategy_at_event: strategy,
        auth_json: route.auth_json,
        profile_arn: view.profile_arn,
        api_region: view.api_region,
        request_validation_enabled: settings.request_validation_enabled,
        cache_estimation_enabled: settings.cache_estimation_enabled,
        zero_cache_debug_enabled: settings.zero_cache_debug_enabled,
        full_request_logging_enabled: settings.full_request_logging_enabled,
        remote_media_resolution_enabled: settings.remote_media_resolution_enabled,
        latency_routing_enabled: settings.latency_routing_enabled,
        model_name_map_json: settings.model_name_map_json,
        cache_kmodels_json: settings.cache_kmodels_json,
        cache_policy_json: settings.cache_policy_json,
        context_usage_min_request_tokens: settings.context_usage_min_request_tokens,
        prefix_cache_mode: settings.prefix_cache_mode,
        prefix_cache_max_tokens: settings.prefix_cache_max_tokens,
        prefix_cache_entry_ttl_seconds: settings.prefix_cache_entry_ttl_seconds,
        conversation_anchor_max_entries: settings.conversation_anchor_max_entries,
        conversation_anchor_ttl_seconds: settings.conversation_anchor_ttl_seconds,
        billable_model_multipliers_json: settings.billable_model_multipliers_json,
        request_max_concurrency: max_concurrency,
        request_min_start_interval_ms: min_start_interval_ms,
        account_request_max_concurrency: view.request_max_concurrency,
        account_request_min_start_interval_ms: view.request_min_start_interval_ms,
        proxy: view.proxy,
        routing_identity: view.routing_identity,
        cached_status: view.cached_status,
        cached_remaining_order: view.cached_remaining_order,
        status_refresh_interval_seconds: settings.status_refresh_interval_seconds,
        compact_trigger_tokens: settings.compact_trigger_tokens,
    })
    &&& route.auth_json@ == auth_json
}

fn make_kiro_route(
    view: &KiroAccountView,
    settings: &KiroSettings,
    strategy: RouteStrategy,
    group_id: &Option<String>,
    max_concurrency: Option<u64>,
    min_start_interval_ms: Option<u64>,
    auth_json: &str,
) -> (route: ProviderKiroRoute)
    ensures
        is_kiro_route(
            route,
            *view,
            *settings,
            strategy,
            *group_id,
            max_concurrency,
            min_start_interval_ms,
            auth_json@,
        ),
{
    ProviderKiroRoute {
        account_name: view.account_name.clone(),
        account_group_id_at_event: clone_opt(group_id),
        route_strategy_at_event: strategy,
        auth_json: auth_json.to_owned(),
        profile_arn: clone_opt(&view.profile_arn),
        api_region: view.api_region.clone(),
        request_validation_enabled: settings.request_validation_enabled,
        cache_estimation_enabled: settings.cache_estimation_enabled,
        zero_cache_debug_enabled: settings.zero_cache_debug_enabled,
        full_request_logging_enabled: settings.full_request_logging_enabled,
        remote_media_resolution_enabled: settings.remote_media_resolution_enabled,
        latency_routing_enabled: settings.latency_routing_enabled,
        model_name_map_json: settings.model_name_map_json.clone(),
        cache_kmodels_json: settings.cache_kmodels_json.clone(),
        cache_policy_json: settings.cache_policy_json.clone(),
        context_usage_min_request_tokens: settings.context_usage_min_request_tokens,
        prefix_cache_mode: settings.prefix_cache_mode.clone(),
        prefix_cache_max_tokens: settings.prefix_cache_max_tokens,
        prefix_cache_entry_ttl_seconds: settings.prefix_cache_entry_ttl_seconds,
        conversation_anchor_max_entries: settings.conversation_anchor_max_entries,
        conversation_anchor_ttl_seconds: settings.conversation_anchor_ttl_seconds,
        billable_model_multipliers_json: settings.billable_model_multipliers_json.clone(),
        request_max_concurrency: max_concurrency,
        request_min_start_interval_ms: min_start_interval_ms,
        account_request_max_concurrency: view.request_max_concurrency,
        account_request_min_start_interval_ms: view.request_min_start_interval_ms,
        proxy: copy_proxy(&view.proxy),
        routing_identity: view.routing_identity.clone(),
        cached_status: clone_opt(&view.cached_status),
        cached_remaining_order: view.cached_remaining_order,
        status_refresh_interval_seconds: settings.status_refresh_interval_seconds,
        compact_trigger_tokens: settings.compact_trigger_tokens,
    }
}

/// Whether an account can serve requests: it is active, not disabled, not used up.
pub open spec fn kiro_usable(view: KiroAccountView) -> bool {
    &&& view.status@ == "active"@
    &&& !view.disabled
    &&& !(view.cached_status matches Some(status) && (status@ == "disabled"@ || status@
        == "quota_exhausted"@))
    &&& !view.credits_exhausted
}

fn is_kiro_usable(view: &KiroAccountView) -> (result: bool)
    ensures
        result == kiro_usable(*view),
{
    if !same_text(view.status.as_str(), "active") || view.disabled {
        return false;
    }
    if let Some(status) = &view.cached_status {
        if same_text(status.as_str(), "disabled") || same_text(status.as_str(), "quota_exhausted") {
            return false;
        }
    }
    !view.credits_exhausted
}

/// The views of the selected accounts that can be used, in the order of the selection.
pub open spec fn usable_kiro_views(
    names: Seq<Seq<char>>,
    views: Map<Seq<char>, KiroAccountView>,
) -> Seq<KiroAccountView>
    decreases names.len(),
{
    if names.len() == 0 {
        Seq::empty()
    } else {
        let front = usable_kiro_views(names.drop_last(), views);
        if views.dom().contains(names.last()) && kiro_usable(views[names.last()]) {
            front.push(views[names.last()])
        } else {
            front
        }
    }
}

/// The route to an account for a key; the credentials come later.
pub open spec fn is_kiro_candidate(
    route: ProviderKiroRoute,
    snapshot: KiroKeySnapshot,
    view: KiroAccountView,
) -> bool {
    is_kiro_route(
        route,
        view,
        snapshot.settings,
        strategy_named(snapshot.route_strategy@),
        snapshot.account_group_id_at_event,
        snapshot.request_max_concurrency,
        snapshot.request_min_start_interval_ms,
        Seq::empty(),
    )
}

/// The routes of a Kiro key, one for each selected account that can be used, in the order
/// of the selection.
pub fn resolve_kiro_route_candidates(
    snapshot: &KiroKeySnapshot,
    views: &NameMap<KiroAccountView>,
) -> (routes: Vec<ProviderKiroRoute>)
    ensures
        snapshot.provider_type@ != "kiro"@ ==> routes.len() == 0,
        snapshot.provider_type@ == "kiro"@ ==> {
            let usable = usable_kiro_views(texts(snapshot.selected_account_names@), views@);
            &&& routes.len() == usable.len()
            &&& forall|i: int|
                0 <= i < routes.len() ==> is_kiro_candidate(
                    #[trigger] routes@[i],
                    *snapshot,
                    usable[i],
                )
        },
{
    let mut routes: Vec<ProviderKiroRoute> = Vec::new();
    if !same_text(snapshot.provider_type.as_str(), "kiro") {
        return routes;
    }
    let names = &snapshot.selected_account_names;
    let ghost all = texts(names@);
    let mut i: usize = 0;
    assert(all.take(0) =~= Seq::<Seq<char>>::empty());
    while i < names.len()
        invariant
            i <= names.len(),
            all == texts(names@),
            routes.len() == usable_kiro_views(all.take(i as int), views@).len(),
            forall|k: int|
                0 <= k < routes.len() ==> is_kiro_candidate(
                    #[trigger] routes@[k],
                    *snapshot,
                    usable_kiro_views(all.take(i as int), views@)[k],
                ),
        decreases names.len() - i,
    {
        let ghost head = all.take(i + 1);
        assert(head.drop_last() =~= all.take(i as int));
        assert(head.last() == names@[i as int]@);
        if let Some(view) = views.get(names[i].as_str()) {
            if is_kiro_usable(view) {
                proof {
                    reveal_strlit("");
                    assert(""@ =~= Seq::<char>::empty());
                }
                let route = make_kiro_route(
                    view,
                    &snapshot.settings,
                    route_strategy_of(snapshot.route_strategy.as_str()),
                    &snapshot.account_group_id_at_event,
                    snapshot.request_max_concurrency,
                    snapshot.request_min_start_interval_ms,
                    "",
                );
                routes.push(route);
            }
        }
        i += 1;
    }
    assert(all.take(i as int) =~= all);
    routes
}

/// What the runtime configuration stores for Kiro requests.
pub struct KiroRuntimeConfig {
    pub kiro_cache_kmodels_json: String,
    pub kiro_cache_policy_json: String,
    pub kiro_context_usage_min_request_tokens: i64,
    pub kiro_prefix_cache_mode: String,
    pub kiro_prefix_cache_max_tokens: i64,
    pub kiro_prefix_cache_entry_ttl_seconds: i64,
    pub kiro_conversation_anchor_max_entries: i64,
    pub kiro_conversation_anchor_ttl_seconds: i64,
    pub kiro_billable_model_multipliers_json: String,
    pub kiro_status_refresh_max_interval_seconds: i64,
    pub kiro_compact_trigger_tokens: i64,
}

pub open spec fn count(value: i64) -> u64 {
    if value < 0 {
        0
    } else {
        value as u64
    }
}

/// A stored number as a count: a negative one counts as zero.
pub fn count_of(value: i64) -> (result: u64)
    ensures
        result == count(value),
{
    if value < 0 {
        0
    } else {
        value as u64
    }
}

/// The settings for a request that belongs to no key.
pub open spec fn is_keyless_settings(settings: KiroSettings, config: KiroRuntimeConfig) -> bool {
    &&& settings == (KiroSettings {
        request_validation_enabled: true,
        cache_estimation_enabled: true,
        zero_cache_debug_enabled: false,
        full_request_logging_enabled: false,
        remote_media_resolution_enabled: false,
        latency_routing_enabled: true,
        model_name_map_json: settings.model_name_map_json,
        cache_kmodels_json: config.kiro_cache_kmodels_json,
        cache_policy_json: config.kiro_cache_policy_json,
        context_usage_min_request_tokens: count(config.kiro_context_usage_min_request_tokens),
        prefix_cache_mode: config.kiro_prefix_cache_mode,
        prefix_cache_max_tokens: count(config.kiro_prefix_cache_max_tokens),
        prefix_cache_entry_ttl_seconds: count(config.kiro_prefix_cache_entry_ttl_seconds),
        conversation_anchor_max_entries: count(config.kiro_conversation_anchor_max_entries),
        conversation_anchor_ttl_seconds: count(config.kiro_conversation_anchor_ttl_seconds),
        billable_model_multipliers_json: config.kiro_billable_model_multipliers_json,
        status_refresh_interval_seconds: count(config.kiro_status_refresh_max_interval_seconds),
        compact_trigger_tokens: count(config.kiro_compact_trigger_tokens),
    })
    &&& settings.model_name_map_json@ == "{}"@
}

pub fn keyless_settings(config: &KiroRuntimeConfig) -> (settings: KiroSettings)
    ensures
        is_keyless_settings(settings, *config),
{
    KiroSettings {
        request_validation_enabled: true,
        cache_estimation_enabled: true,
        zero_cache_debug_enabled: false,
        full_request_logging_enabled: false,
        remote_media_resolution_enabled: false,
        latency_routing_enabled: true,
        model_name_map_json: "{}".to_owned(),
        cache_kmodels_json: config.kiro_cache_kmodels_json.clone(),
        cache_policy_json: config.kiro_cache_policy_json.clone(),
        context_usage_min_request_tokens: count_of(config.kiro_context_usage_min_request_tokens),
        prefix_cache_mode: config.kiro_prefix_cache_mode.clone(),
        prefix_cache_max_tokens: count_of(config.kiro_prefix_cache_max_tokens),
        prefix_cache_entry_ttl_seconds: count_of(config.kiro_prefix_cache_entry_ttl_seconds),
        conversation_anchor_max_entries: count_of(config.kiro_conversation_anchor_max_entries),
        conversation_anchor_ttl_seconds: count_of(config.kiro_conversation_anchor_ttl_seconds),
        billable_model_multipliers_json: config.kiro_billable_model_multipliers_json.clone(),
        status_refresh_interval_seconds: count_of(config.kiro_status_refresh_max_interval_seconds),
        compact_trigger_tokens: count_of(config.kiro_compact_trigger_tokens),
    }
}

/// The route to one account, whatever the key; none where the account is not active.
pub fn resolve_kiro_account_route(
    view: &KiroAccountView,
    auth_json: Option<&str>,
    config: &KiroRuntimeConfig,
) -> (result: Option<ProviderKiroRoute>)
    ensures
        result is Some == (view.status@ == "active"@ && auth_json is Some),
        result matches Some(route) ==> exists|settings: KiroSettings| #[trigger]
            is_keyless_settings(settings, *config) && is_kiro_route(
                route,
                *view,
                settings,
                RouteStrategy::Auto,
                None,
                None,
                None,
                (auth_json->0)@,
            ),
{
    if !same_text(view.status.as_str(), "active") {
        return None;
    }
    let auth_json = match auth_json {
        Some(auth_json) => auth_json,
        None => return None,
    };
    let settings = keyless_settings(config);
    Some(make_kiro_route(view, &settings, RouteStrategy::Auto, &None, None, None, auth_json))
}

// ---------------------------------------------------------------------------
// Records
// ---------------------------------------------------------------------------

/// A Kiro account as it is stored, as far as a refresh of its credentials changes it.
pub struct KiroAccountRecord {
    pub account_name: String,
    pub auth_json: String,
    pub auth_method: String,
    pub account_id: Option<String>,
    pub profile_arn: Option<String>,
    pub user_id: Option<String>,
    pub status: String,
    pub last_refresh_at_ms: Option<i64>,
    pub last_error: Option<String>,
    pub updated_at_ms: i64,
}

/// The result of a refresh of a Kiro account's credentials.
pub struct ProviderKiroAuthUpdate {
    pub auth_json: String,
    pub auth_method: String,
    pub account_id: Option<String>,
    pub profile_arn: Option<String>,
    pub user_id: Option<String>,
    pub status: String,
    pub last_error: Option<String>,
    pub refreshed_at_ms: i64,
}

pub fn save_kiro_auth_update(record: &mut KiroAccountRecord, update: &ProviderKiroAuthUpdate)
    ensures
        *final(record) == (KiroAccountRecord {
            account_name: old(record).account_name,
            auth_json: update.auth_json,
            auth_method: update.auth_method,
            account_id: update.account_id,
            profile_arn: update.profile_arn,
            user_id: update.user_id,
            status: update.status,
            last_refresh_at_ms: Some(update.refreshed_at_ms),
            last_error: update.last_error,
            updated_at_ms: update.refreshed_at_ms,
        }),
{
    record.auth_json = update.auth_json.clone();
    record.auth_method = update.auth_method.clone();
    record.account_id = clone_opt(&update.account_id);
    record.profile_arn = clone_opt(&update.profile_arn);
    record.user_id = clone_opt(&update.user_id);
    record.status = update.status.clone();
    record.last_refresh_at_ms = Some(update.refreshed_at_ms);
    record.last_error = clone_opt(&update.last_error);
    record.updated_at_ms = update.refreshed_at_ms;
}

/// A Codex account as it is stored, as far as a refresh of its credentials changes it.
pub struct CodexAccountRecord {
    pub account_name: String,
    pub auth_json: String,
    pub account_id: Option<String>,
    pub status: String,
    pub auth_refresh_enabled: bool,
    pub last_refresh_at_ms: Option<i64>,
    pub last_error: Option<String>,
    pub updated_at_ms: i64,
}

/// The result of a refresh of a Codex account's credentials.
pub struct ProviderCodexAuthUpdate {
    pub auth_json: String,
    pub account_id: Option<String>,
    pub status: String,
    pub last_error: Option<String>,
    pub refreshed_at_ms: i64,
}

/// Stores new credentials. An update without an account id keeps the one that is known.
pub fn save_codex_auth_update(record: &mut CodexAccountRecord, update: &ProviderCodexAuthUpdate)
    ensures
        *final(record) == (CodexAccountRecord {
            auth_json: update.auth_json,
            account_id: match update.account_id {
                Some(id) => Some(id),
                None => old(record).account_id,
            },
            status: update.status,
            last_refresh_at_ms: Some(update.refreshed_at_ms),
            last_error: update.last_error,
            updated_at_ms: update.refreshed_at_ms,
            ..*old(record)
        }),
{
    record.auth_json = update.auth_json.clone();
    if update.account_id.is_some() {
        record.account_id = clone_opt(&update.account_id);
    }
    record.status = update.status.clone();
    record.last_refresh_at_ms = Some(update.refreshed_at_ms);
    record.last_error = clone_opt(&update.last_error);
    record.updated_at_ms = update.refreshed_at_ms;
}

/// Switches the automatic refresh of an account. Says whether anything changed: only then
/// is the record written.
pub fn set_codex_account_auto_refresh_enabled(
    record: &mut CodexAccountRecord,
    enabled: bool,
    updated_at_ms: i64,
) -> (changed: bool)
    ensures
        changed == (old(record).auth_refresh_enabled != enabled),
        !changed ==> *final(record) == *old(record),
        changed ==> *final(record) == (CodexAccountRecord {
            auth_refresh_enabled: enabled,
            updated_at_ms,
            ..*old(record)
        }),
{
    if record.auth_refresh_enabled == enabled {
        return false;
    }
    record.auth_refresh_enabled = enabled;
    record.updated_at_ms = updated_at_ms;
    true
}

/// The error of an update of an account that is not there.
pub fn account_not_configured(provider: &str, account_name: &str) -> (message: String)
    ensures
        message@ == provider@ + " account `"@ + account_name@ + "` is not configured"@,
{
    let mut message = concat3(provider, " account `", account_name);
    message.append("` is not configured");
    message
}

/// What is noted of a Kiro account's status.
pub struct KiroStatusNote {
    pub account_name: String,
    pub status: String,
    pub refresh_interval_seconds: u64,
    pub last_checked_at: Option<i64>,
    pub last_success_at: Option<i64>,
    pub error_message: Option<String>,
    pub refreshed_at_ms: i64,
    pub expires_at_ms: i64,
    pub last_error: Option<String>,
}

/// `seconds` after `start`, in milliseconds, as far as the type reaches.
pub open spec fn seconds_after(start: i64, seconds: u64) -> i64 {
    saturating_sum(
        start,
        if seconds as i64 * 1000 > i64::MAX {
            i64::MAX
        } else {
            (seconds as i64 * 1000) as i64
        },
    )
}

/// Notes that an account's quota is used up, until its next refresh. `max_interval_seconds`
/// is how long refreshes may be apart.
pub fn mark_kiro_account_quota_exhausted(
    account_name: &str,
    error_message: &str,
    checked_at_ms: i64,
    max_interval_seconds: i64,
) -> (note: KiroStatusNote)
    ensures
        note == (KiroStatusNote {
            account_name: note.account_name,
            status: note.status,
            refresh_interval_seconds: count(max_interval_seconds),
            last_checked_at: Some(checked_at_ms),
            last_success_at: Some(checked_at_ms),
            error_message: note.error_message,
            refreshed_at_ms: checked_at_ms,
            expires_at_ms: seconds_after(checked_at_ms, count(max_interval_seconds)),
            last_error: note.last_error,
        }),
        note.account_name@ == account_name@,
        note.status@ == "quota_exhausted"@,
        opt_text(note.error_message) == Some(error_message@),
        opt_text(note.last_error) == Some(error_message@),
{
    let interval: u64 = count_of(max_interval_seconds);
    let wide: i128 = interval as i128 * 1000;
    let millis: i64 = if wide > 9223372036854775807 {
        i64::MAX
    } else {
        wide as i64
    };
    KiroStatusNote {
        account_name: account_name.to_owned(),
        status: "quota_exhausted".to_owned(),
        refresh_interval_seconds: interval,
        last_checked_at: Some(checked_at_ms),
        last_success_at: Some(checked_at_ms),
        error_message: Some(error_message.to_owned()),
        refreshed_at_ms: checked_at_ms,
        expires_at_ms: sum_i64(checked_at_ms, millis),
        last_error: Some(error_message.to_owned()),
    }
}

// ---------------------------------------------------------------------------
// Laws
// ---------------------------------------------------------------------------

/// Ordering loses no account: each candidate has its place in every order.
pub proof fn law_every_candidate_keeps_a_place(order: Seq<usize>, count: nat, position: int)
    requires
        is_order(order, count),
        0 <= position < count,
    ensures
        exists|i: int| 0 <= i < count && #[trigger] order[i] == position,
{
    let places = order.map_values(|place: usize| place as int);
    assert(places.no_duplicates()) by {
        assert forall|i: int, j: int| 0 <= i < places.len() && 0 <= j < places.len() && i
            != j implies places[i] != places[j] by {
            if i < j {
                assert(order[i] != order[j]);
            } else {
                assert(order[j] != order[i]);
            }
        }
    }
    places.unique_seq_to_set();
    vstd::set_lib::lemma_int_range(0, count as int);
    let range = vstd::set_lib::set_int_range(0, count as int);
    assert(places.to_set().subset_of(range)) by {
        assert forall|place: int| places.to_set().contains(place) implies range.contains(place) by {
            let i = places.index_of(place);
            assert(places.contains(place));
            assert(order[i] < count);
        }
    }
    vstd::set_lib::lemma_subset_equality(places.to_set(), range);
    assert(places.to_set().contains(position));
    assert(places.contains(position));
    let i = places.index_of(position);
    assert(order[i] == position);
}

/// A key with a fixed account never uses more than one account.
pub proof fn law_fixed_key_uses_one_account(
    provider: Seq<char>,
    route: KeyRouteConfig,
    group: Option<AdminAccountGroup>,
    listed: Option<Seq<Seq<char>>>,
    defaults: Seq<Seq<char>>,
)
    requires
        route.route_strategy matches Some(strategy) && strategy@ == "fixed"@,
    ensures
        route_names(provider, route, group, listed, defaults) matches Ok(names) ==> names.len() == 1,
{
}

/// A group of another provider is never used.
pub proof fn law_group_keeps_to_its_provider(
    provider: Seq<char>,
    route: KeyRouteConfig,
    group: AdminAccountGroup,
    listed: Option<Seq<Seq<char>>>,
    defaults: Seq<Seq<char>>,
)
    requires
        route.account_group_id is Some,
        group.provider_type@ != provider,
    ensures
        route_names(provider, route, Some(group), listed, defaults) is Err,
{
}

proof fn lemma_usable_views(names: Seq<Seq<char>>, views: Map<Seq<char>, KiroAccountView>)
    ensures
        usable_kiro_views(names, views).len() <= names.len(),
        forall|i: int|
            0 <= i < usable_kiro_views(names, views).len() ==> kiro_usable(
                #[trigger] usable_kiro_views(names, views)[i],
            ),
    decreases names.len(),
{
    if names.len() > 0 {
        lemma_usable_views(names.drop_last(), views);
    }
}

/// No candidate is disabled or used up, and there are no more of them than selected
/// accounts.
pub proof fn law_candidates_are_usable(
    names: Seq<Seq<char>>,
    views: Map<Seq<char>, KiroAccountView>,
    i: int,
)
    requires
        0 <= i < usable_kiro_views(names, views).len(),
    ensures
        kiro_usable(usable_kiro_views(names, views)[i]),
        usable_kiro_views(names, views).len() <= names.len(),
{
    lemma_usable_views(names, views);
}

/// The accounts of a key that chooses by itself: those of its group where it has one with
/// accounts, else those that it lists, else the default ones. A group that does not exist or
/// serves another provider is an error.
pub proof fn law_where_the_accounts_of_a_key_come_from(
    provider: Seq<char>,
    route: KeyRouteConfig,
    group: Option<AdminAccountGroup>,
    listed: Option<Seq<Seq<char>>>,
    defaults: Seq<Seq<char>>,
)
    requires
        route.route_strategy matches Some(strategy) ==> strategy@ == "auto"@,
    ensures
        ({
            let names = route_names(provider, route, group, listed, defaults);
            &&& route.account_group_id is None || (group matches Some(group)
                && group.provider_type@ == provider && group.account_names@.len() == 0) ==> {
                &&& listed matches Some(list) ==> (list.len() > 0 ==> names == Ok::<
                    Seq<Seq<char>>,
                    Seq<char>,
                >(list))
                &&& listed is None || (listed->0).len() == 0 ==> names == Ok::<
                    Seq<Seq<char>>,
                    Seq<char>,
                >(defaults)
            }
            &&& route.account_group_id is Some ==> (group matches Some(group) ==> (
            group.provider_type@ == provider && group.account_names@.len() > 0 ==> names == Ok::<
                Seq<Seq<char>>,
                Seq<char>,
            >(texts(group.account_names@))))
            &&& route.account_group_id is Some ==> (names is Err <==> group is None
                || (group->0).provider_type@ != provider)
            &&& route.account_group_id is None ==> names is Ok
        }),
{
    reveal_strlit("auto");
    reveal_strlit("fixed");
    assert("auto"@.len() == 4 && "fixed"@.len() == 5);
}

/// A key that is fixed to an account has exactly one: that of its group, which must have one
/// alone, or the one that it names. A strategy of another name is an error.
pub proof fn law_what_a_fixed_key_is_fixed_to(
    provider: Seq<char>,
    route: KeyRouteConfig,
    group: Option<AdminAccountGroup>,
    listed: Option<Seq<Seq<char>>>,
    defaults: Seq<Seq<char>>,
    strategy: String,
)
    requires
        route.route_strategy == Some(strategy),
    ensures
        ({
            let names = route_names(provider, route, group, listed, defaults);
            &&& strategy@ == "fixed"@ && route.account_group_id is Some ==> (
            group matches Some(group) ==> (group.provider_type@ == provider
                && group.account_names@.len() == 1 ==> names == Ok::<Seq<Seq<char>>, Seq<char>>(
                seq![group.account_names@[0]@],
            )))
            &&& strategy@ == "fixed"@ && route.account_group_id is Some ==> (
            group matches Some(group) ==> (group.account_names@.len() != 1 ==> names is Err))
            &&& strategy@ == "fixed"@ && route.account_group_id is None ==> (
            route.fixed_account_name matches Some(name) ==> (trim(name@).len() > 0 ==> names
                == Ok::<Seq<Seq<char>>, Seq<char>>(seq![name@])) && (trim(name@).len() == 0
                ==> names is Err))
            &&& strategy@ == "fixed"@ && route.account_group_id is None
                && route.fixed_account_name is None ==> names is Err
            &&& strategy@ != "fixed"@ && strategy@ != "auto"@ ==> names is Err
        }),
{
    reveal_strlit("auto");
    reveal_strlit("fixed");
    assert("auto"@.len() == 4 && "fixed"@.len() == 5);
    if let Some(group) = group {
        if group.account_names@.len() == 1 {
            assert(texts(group.account_names@) =~= seq![group.account_names@[0]@]);
        }
    }
}

/// Every selected account that is active is a candidate of a Codex key, and no other is.
pub proof fn law_the_active_accounts_are_candidates(
    names: Seq<Seq<char>>,
    views: Map<Seq<char>, CodexAccountView>,
)
    ensures
        forall|i: int|
            0 <= i < names.len() && views.dom().contains(#[trigger] names[i])
                && views[names[i]].status@ == "active"@ ==> active_codex_views(
                names,
                views,
            ).contains(views[names[i]]),
        forall|k: int|
            0 <= k < active_codex_views(names, views).len() ==> (
            #[trigger] active_codex_views(names, views)[k]).status@ == "active"@,
        active_codex_views(names, views).len() <= names.len(),
    decreases names.len(),
{
    if names.len() > 0 {
        let head = names.drop_last();
        let front = active_codex_views(head, views);
        let all = active_codex_views(names, views);
        law_the_active_accounts_are_candidates(head, views);
        assert forall|i: int|
            0 <= i < names.len() && views.dom().contains(#[trigger] names[i])
                && views[names[i]].status@ == "active"@ implies all.contains(views[names[i]]) by {
            if i < head.len() {
                assert(head[i] == names[i]);
                let k = choose|k: int| 0 <= k < front.len() && front[k] == views[names[i]];
                assert(all[k] == front[k]);
            } else {
                assert(all[all.len() - 1] == views[names[i]]);
            }
        }
        assert forall|k: int| 0 <= k < all.len() implies (#[trigger] all[k]).status@
            == "active"@ by {
            if k < front.len() {
                assert(all[k] == front[k]);
            }
        }
    }
}

/// The same of a Kiro key: an account must also be switched on, have credits left, and not
/// have been seen disabled or used up.
pub proof fn law_the_usable_accounts_are_candidates(
    names: Seq<Seq<char>>,
    views: Map<Seq<char>, KiroAccountView>,
)
    ensures
        forall|i: int|
            0 <= i < names.len() && views.dom().contains(#[trigger] names[i])
                && views[names[i]].status@ == "active"@ && !views[names[i]].disabled
                && !views[names[i]].credits_exhausted && views[names[i]].cached_status is None
                ==> usable_kiro_views(names, views).contains(views[names[i]]),
        forall|k: int|
            0 <= k < usable_kiro_views(names, views).len() ==> {
                let view = #[trigger] usable_kiro_views(names, views)[k];
                &&& view.status@ == "active"@
                &&& !view.disabled
                &&& !view.credits_exhausted
                &&& view.cached_status matches Some(status) ==> status@ != "disabled"@ && status@
                    != "quota_exhausted"@
            },
        usable_kiro_views(names, views).len() <= names.len(),
    decreases names.len(),
{
    if names.len() > 0 {
        let head = names.drop_last();
        let front = usable_kiro_views(head, views);
        let all = usable_kiro_views(names, views);
        law_the_usable_accounts_are_candidates(head, views);
        assert forall|i: int|
            0 <= i < names.len() && views.dom().contains(#[trigger] names[i])
                && views[names[i]].status@ == "active"@ && !views[names[i]].disabled
                && !views[names[i]].credits_exhausted
                && views[names[i]].cached_status is None implies all.contains(views[names[i]]) by {
            if i < head.len() {
                assert(head[i] == names[i]);
                let k = choose|k: int| 0 <= k < front.len() && front[k] == views[names[i]];
                assert(all[k] == front[k]);
            } else {
                assert(all[all.len() - 1] == views[names[i]]);
            }
        }
        assert forall|k: int| 0 <= k < all.len() implies {
            let view = #[trigger] all[k];
            &&& view.status@ == "active"@
            &&& !view.disabled
            &&& !view.credits_exhausted
            &&& view.cached_status matches Some(status) ==> status@ != "disabled"@ && status@
                != "quota_exhausted"@
        } by {
            if k < front.len() {
                assert(all[k] == front[k]);
            }
        }
    }
}

/// A candidate carries the limits of its key and, apart from them, those of its account; its
/// credentials are not there yet.
pub proof fn law_a_candidate_carries_both_limits(
    codex: ProviderCodexRoute,
    codex_key: CodexKeySnapshot,
    codex_view: CodexAccountView,
    kiro: ProviderKiroRoute,
    kiro_key: KiroKeySnapshot,
    kiro_view: KiroAccountView,
)
    requires
        is_codex_candidate(codex, codex_key, codex_view),
        is_kiro_candidate(kiro, kiro_key, kiro_view),
    ensures
        codex.account_name == codex_view.account_name,
        codex.request_max_concurrency == codex_key.request_max_concurrency,
        codex.request_min_start_interval_ms == codex_key.request_min_start_interval_ms,
        codex.account_request_max_concurrency == codex_view.request_max_concurrency,
        codex.account_request_min_start_interval_ms == codex_view.request_min_start_interval_ms,
        codex.proxy == codex_view.proxy,
        codex.terminal_auth_error == codex_view.terminal_auth_error,
        codex.auth_json@.len() == 0,
        codex.route_strategy_at_event == RouteStrategy::Fixed <==> codex_key.route_strategy@
            == "fixed"@,
        kiro.account_name == kiro_view.account_name,
        kiro.routing_identity == kiro_view.routing_identity,
        kiro.request_max_concurrency == kiro_key.request_max_concurrency,
        kiro.request_min_start_interval_ms == kiro_key.request_min_start_interval_ms,
        kiro.account_request_max_concurrency == kiro_view.request_max_concurrency,
        kiro.account_request_min_start_interval_ms == kiro_view.request_min_start_interval_ms,
        kiro.proxy == kiro_view.proxy,
        kiro.cached_remaining_order == kiro_view.cached_remaining_order,
        kiro.compact_trigger_tokens == kiro_key.settings.compact_trigger_tokens,
        kiro.model_name_map_json == kiro_key.settings.model_name_map_json,
        kiro.auth_json@.len() == 0,
{
}

/// A list of texts is read where every item is one, and holds them in their order.
pub proof fn law_a_list_of_texts_is_read_whole(items: Seq<JsonView>)
    ensures
        text_items(items) is Some <==> forall|i: int|
            0 <= i < items.len() ==> #[trigger] items[i] is Str,
        text_items(items) matches Some(list) ==> list.len() == items.len() && forall|i: int|
            0 <= i < items.len() ==> JsonView::Str(list[i]) == #[trigger] items[i],
    decreases items.len(),
{
    if items.len() > 0 {
        let head = items.drop_last();
        law_a_list_of_texts_is_read_whole(head);
        assert forall|i: int| 0 <= i < head.len() implies head[i] == items[i] by {
        }
        if text_items(items) is Some {
            assert forall|i: int| 0 <= i < items.len() implies JsonView::Str(
                (text_items(items)->0)[i],
            ) == #[trigger] items[i] by {
                if i < head.len() {
                    assert(head[i] == items[i]);
                }
            }
        } else if forall|i: int| 0 <= i < items.len() ==> #[trigger] items[i] is Str {
            assert forall|i: int| 0 <= i < head.len() implies #[trigger] head[i] is Str by {
                assert(items[i] is Str);
            }
            assert(items[items.len() - 1] is Str);
        }
    }
}

/// A note of spent credits holds until the account is to be looked at again: so many seconds
/// after the look, where the time can tell it.
pub proof fn law_a_note_lasts_until_the_next_look(
    account_name: &str,
    error_message: &str,
    checked_at_ms: i64,
    max_interval_seconds: i64,
    note: KiroStatusNote,
)
    requires
        call_ensures(
            mark_kiro_account_quota_exhausted,
            (account_name, error_message, checked_at_ms, max_interval_seconds),
            note,
        ),
        0 <= max_interval_seconds,
        max_interval_seconds * 1000 <= i64::MAX,
        checked_at_ms + max_interval_seconds * 1000 <= i64::MAX,
    ensures
        note.expires_at_ms == checked_at_ms + max_interval_seconds * 1000,
        note.refreshed_at_ms == checked_at_ms,
        note.last_checked_at == Some(checked_at_ms),
        note.refresh_interval_seconds == max_interval_seconds,
        note.account_name@ == account_name@,
        note.status@ == "quota_exhausted"@,
        opt_text(note.error_message) == Some(error_message@),
{
}

/// A route that no key asks for checks requests, estimates the cached part and goes by
/// latency; it keeps no full requests and renames no model.
pub proof fn law_how_a_route_without_a_key_is_set(config: &KiroRuntimeConfig, settings: KiroSettings)
    requires
        call_ensures(keyless_settings, (config,), settings),
    ensures
        settings.request_validation_enabled,
        settings.cache_estimation_enabled,
        settings.latency_routing_enabled,
        !settings.zero_cache_debug_enabled,
        !settings.full_request_logging_enabled,
        !settings.remote_media_resolution_enabled,
        settings.model_name_map_json@ == "{}"@,
        settings.cache_policy_json == config.kiro_cache_policy_json,
        config.kiro_compact_trigger_tokens >= 0 ==> settings.compact_trigger_tokens
            == config.kiro_compact_trigger_tokens,
        config.kiro_prefix_cache_max_tokens >= 0 ==> settings.prefix_cache_max_tokens
            == config.kiro_prefix_cache_max_tokens,
        config.kiro_prefix_cache_entry_ttl_seconds >= 0 ==> settings.prefix_cache_entry_ttl_seconds
            == config.kiro_prefix_cache_entry_ttl_seconds,
        config.kiro_context_usage_min_request_tokens < 0
            ==> settings.context_usage_min_request_tokens == 0,
{
}

/// An account has a route exactly where it is active and has credentials.
pub proof fn law_only_active_accounts_have_a_route(
    view: &KiroAccountView,
    auth_json: Option<&str>,
    config: &KiroRuntimeConfig,
    result: Option<ProviderKiroRoute>,
)
    requires
        call_ensures(resolve_kiro_account_route, (view, auth_json, config), result),
    ensures
        result is Some <==> view.status@ == "active"@ && auth_json is Some,
        result matches Some(route) ==> (auth_json matches Some(auth) ==> route.auth_json@ == auth@),
        result matches Some(route) ==> route.account_name@ == view.account_name@,
{
}

} // verus!
