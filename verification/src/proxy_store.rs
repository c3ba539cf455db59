//! Proxy configurations: node overrides, endpoint checks, bindings, and which proxy an
//! account uses.

use vstd::prelude::*;
use crate::json::{parse_text, parsed_text, write_text, written_text, Json, JsonView};
use crate::text::{clone_opt, concat2, concat3, nonempty_trim, opt_str, opt_text, same_text, strs,
    trimmed_nonempty};
use crate::types::ProviderProxyConfig;

verus! {

/// The result of calling a provider's endpoint through a proxy.
pub struct EndpointCheck {
    pub target_url: String,
    pub reachable: bool,
    pub status_code: Option<i32>,
    pub latency_ms: i64,
    pub error_message: Option<String>,
    pub checked_at_ms: i64,
}

impl EndpointCheck {
    pub fn duplicate(&self) -> (result: EndpointCheck)
        ensures
            result == *self,
    {
        EndpointCheck {
            target_url: self.target_url.clone(),
            reachable: self.reachable,
            status_code: self.status_code,
            latency_ms: self.latency_ms,
            error_message: clone_opt(&self.error_message),
            checked_at_ms: self.checked_at_ms,
        }
    }
}

/// An endpoint check with the proxy and the provider that it belongs to.
pub struct ProxyEndpointCheckRow {
    pub proxy_config_id: String,
    pub provider_type: String,
    pub check: EndpointCheck,
}

/// A proxy slot as an administrator sees it.
pub struct AdminProxyConfig {
    pub id: String,
    pub name: String,
    pub proxy_url: String,
    pub proxy_username: Option<String>,
    pub proxy_password: Option<String>,
    pub status: String,
    pub created_at: i64,
    pub updated_at: i64,
    pub scope_node_id: Option<String>,
    pub effective_source: String,
    pub has_node_override: bool,
    pub can_edit_slot_metadata: bool,
    pub latest_codex_check: Option<EndpointCheck>,
    pub latest_kiro_check: Option<EndpointCheck>,
}

/// What one node uses in place of a slot's own values.
pub struct ProxyConfigNodeOverride {
    pub proxy_url: String,
    pub proxy_username: Option<String>,
    pub proxy_password: Option<String>,
    pub status: String,
    pub created_at_ms: i64,
    pub updated_at_ms: i64,
}

/// Changes to a slot. An inner nothing clears the value.
pub struct AdminProxyConfigPatch {
    pub name: Option<String>,
    pub proxy_url: Option<String>,
    pub proxy_username: Option<Option<String>>,
    pub proxy_password: Option<Option<String>>,
    pub status: Option<String>,
    pub updated_at_ms: i64,
}

/// The node that a request to the store comes from.
pub struct ProxyScope {
    pub scope_node_id: Option<String>,
    pub can_edit_slot_metadata: bool,
}

/// The proxy that all accounts of a provider share.
pub struct AdminProxyBinding {
    pub provider_type: String,
    pub effective_source: String,
    pub bound_proxy_config_id: Option<String>,
    pub effective_proxy_config_name: Option<String>,
    pub effective_proxy_url: Option<String>,
    pub effective_proxy_username: Option<String>,
    pub effective_proxy_password: Option<String>,
    pub binding_updated_at: Option<i64>,
    pub error_message: Option<String>,
}

/// What is known of the proxies when an account's proxy is looked up.
pub struct ProviderProxyResolutionContext {
    pub proxy_configs: Vec<AdminProxyConfig>,
    pub binding: AdminProxyBinding,
}

pub fn provider_proxy_from_admin_proxy(proxy: &AdminProxyConfig) -> (result: ProviderProxyConfig)
    ensures
        result == (ProviderProxyConfig {
            proxy_url: proxy.proxy_url,
            proxy_username: proxy.proxy_username,
            proxy_password: proxy.proxy_password,
        }),
{
    ProviderProxyConfig {
        proxy_url: proxy.proxy_url.clone(),
        proxy_username: clone_opt(&proxy.proxy_username),
        proxy_password: clone_opt(&proxy.proxy_password),
    }
}

// ---------------------------------------------------------------------------
// Overrides and scope
// ---------------------------------------------------------------------------

/// The slot with a node's values.
pub open spec fn overridden(proxy: AdminProxyConfig, row: ProxyConfigNodeOverride) -> AdminProxyConfig {
    AdminProxyConfig {
        proxy_url: row.proxy_url,
        proxy_username: row.proxy_username,
        proxy_password: row.proxy_password,
        status: row.status,
        updated_at: row.updated_at_ms,
        ..proxy
    }
}

pub fn apply_proxy_config_node_override(
    proxy: &mut AdminProxyConfig,
    override_row: &ProxyConfigNodeOverride,
)
    ensures
        *final(proxy) == overridden(*old(proxy), *override_row),
{
    proxy.proxy_url = override_row.proxy_url.clone();
    proxy.proxy_username = clone_opt(&override_row.proxy_username);
    proxy.proxy_password = clone_opt(&override_row.proxy_password);
    proxy.status = override_row.status.clone();
    proxy.updated_at = override_row.updated_at_ms;
}

pub fn apply_proxy_scope_metadata(
    proxy: &mut AdminProxyConfig,
    scope: &ProxyScope,
    effective_source: &str,
    has_node_override: bool,
)
    ensures
        *final(proxy) == (AdminProxyConfig {
            scope_node_id: scope.scope_node_id,
            effective_source: final(proxy).effective_source,
            has_node_override,
            can_edit_slot_metadata: scope.can_edit_slot_metadata,
            ..*old(proxy)
        }),
        final(proxy).effective_source@ == effective_source@,
{
    proxy.scope_node_id = clone_opt(&scope.scope_node_id);
    proxy.effective_source = effective_source.to_owned();
    proxy.has_node_override = has_node_override;
    proxy.can_edit_slot_metadata = scope.can_edit_slot_metadata;
}

/// Whether a node's override counts: not on the core node.
pub open spec fn override_counts(scope: ProxyScope, row: Option<ProxyConfigNodeOverride>) -> bool {
    !scope.can_edit_slot_metadata && row is Some
}

/// A slot as the node sees it.
pub open spec fn is_seen_from(
    before: AdminProxyConfig,
    after: AdminProxyConfig,
    scope: ProxyScope,
    row: Option<ProxyConfigNodeOverride>,
) -> bool {
    let values = if override_counts(scope, row) {
        overridden(before, row->0)
    } else {
        before
    };
    &&& after == (AdminProxyConfig {
        scope_node_id: scope.scope_node_id,
        effective_source: after.effective_source,
        has_node_override: override_counts(scope, row),
        can_edit_slot_metadata: scope.can_edit_slot_metadata,
        ..values
    })
    &&& after.effective_source@ == if override_counts(scope, row) {
        "node_override"@
    } else {
        "core"@
    }
}

/// Turns a slot into what the node sees of it. `row` is the node's override.
pub fn apply_node_view(
    proxy: &mut AdminProxyConfig,
    scope: &ProxyScope,
    row: &Option<ProxyConfigNodeOverride>,
)
    ensures
        is_seen_from(*old(proxy), *final(proxy), *scope, *row),
{
    if scope.can_edit_slot_metadata {
        apply_proxy_scope_metadata(proxy, scope, "core", false);
        return;
    }
    match row {
        Some(override_row) => {
            apply_proxy_config_node_override(proxy, override_row);
            apply_proxy_scope_metadata(proxy, scope, "node_override", true);
        },
        None => apply_proxy_scope_metadata(proxy, scope, "core", false),
    }
}

// ---------------------------------------------------------------------------
// Endpoint checks
// ---------------------------------------------------------------------------

/// The check of a provider: the last one listed.
pub open spec fn latest_check(rows: Seq<ProxyEndpointCheckRow>, provider: Seq<char>) -> Option<
    EndpointCheck,
>
    decreases rows.len(),
{
    if rows.len() == 0 {
        None
    } else if rows.last().provider_type@ == provider {
        Some(rows.last().check)
    } else {
        latest_check(rows.drop_last(), provider)
    }
}

pub fn apply_proxy_endpoint_checks(proxy: &mut AdminProxyConfig, rows: &Vec<ProxyEndpointCheckRow>)
    ensures
        *final(proxy) == (AdminProxyConfig {
            latest_codex_check: latest_check(rows@, "codex"@),
            latest_kiro_check: latest_check(rows@, "kiro"@),
            ..*old(proxy)
        }),
{
    proof {
        reveal_strlit("codex");
        reveal_strlit("kiro");
        assert("codex"@.len() != "kiro"@.len());
    }
    let mut codex: Option<EndpointCheck> = None;
    let mut kiro: Option<EndpointCheck> = None;
    let mut i: usize = 0;
    assert(rows@.take(0) =~= Seq::<ProxyEndpointCheckRow>::empty());
    while i < rows.len()
        invariant
            i <= rows.len(),
            "codex"@ != "kiro"@,
            codex == latest_check(rows@.take(i as int), "codex"@),
            kiro == latest_check(rows@.take(i as int), "kiro"@),
        decreases rows.len() - i,
    {
        let ghost head = rows@.take(i + 1);
        assert(head.drop_last() =~= rows@.take(i as int));
        assert(head.last() == rows@[i as int]);
        if same_text(rows[i].provider_type.as_str(), "codex") {
            codex = Some(rows[i].check.duplicate());
        } else if same_text(rows[i].provider_type.as_str(), "kiro") {
            kiro = Some(rows[i].check.duplicate());
        }
        i += 1;
    }
    assert(rows@.take(i as int) =~= rows@);
    proxy.latest_codex_check = codex;
    proxy.latest_kiro_check = kiro;
}

/// The rows that belong to a proxy, in their order.
pub open spec fn rows_of(rows: Seq<ProxyEndpointCheckRow>, proxy_id: Seq<char>) -> Seq<
    ProxyEndpointCheckRow,
>
    decreases rows.len(),
{
    if rows.len() == 0 {
        Seq::empty()
    } else if rows.last().proxy_config_id@ == proxy_id {
        rows_of(rows.drop_last(), proxy_id).push(rows.last())
    } else {
        rows_of(rows.drop_last(), proxy_id)
    }
}

fn select_rows(rows: &Vec<ProxyEndpointCheckRow>, proxy_id: &str) -> (result: Vec<
    ProxyEndpointCheckRow,
>)
    ensures
        result@ == rows_of(rows@, proxy_id@),
{
    let mut result: Vec<ProxyEndpointCheckRow> = Vec::new();
    let mut i: usize = 0;
    assert(rows@.take(0) =~= Seq::<ProxyEndpointCheckRow>::empty());
    while i < rows.len()
        invariant
            i <= rows.len(),
            result@ == rows_of(rows@.take(i as int), proxy_id@),
        decreases rows.len() - i,
    {
        let ghost head = rows@.take(i + 1);
        assert(head.drop_last() =~= rows@.take(i as int));
        assert(head.last() == rows@[i as int]);
        if same_text(rows[i].proxy_config_id.as_str(), proxy_id) {
            result.push(
                ProxyEndpointCheckRow {
                    proxy_config_id: rows[i].proxy_config_id.clone(),
                    provider_type: rows[i].provider_type.clone(),
                    check: rows[i].check.duplicate(),
                },
            );
        }
        i += 1;
    }
    assert(rows@.take(i as int) =~= rows@);
    result
}

/// A slot with the latest checks of its endpoint.
pub open spec fn with_checks(
    proxy: AdminProxyConfig,
    rows: Seq<ProxyEndpointCheckRow>,
) -> AdminProxyConfig {
    AdminProxyConfig {
        latest_codex_check: latest_check(rows_of(rows, proxy.id@), "codex"@),
        latest_kiro_check: latest_check(rows_of(rows, proxy.id@), "kiro"@),
        ..proxy
    }
}

/// Sets the checks of one proxy, out of those of all proxies.
pub fn apply_proxy_endpoint_checks_to_config(
    proxy: &mut AdminProxyConfig,
    rows: &Vec<ProxyEndpointCheckRow>,
)
    ensures
        *final(proxy) == with_checks(*old(proxy), rows@),
{
    let own = select_rows(rows, proxy.id.as_str());
    apply_proxy_endpoint_checks(proxy, &own);
}

/// Turns a slot into the row that the node shows: what the node sees of it, with the latest
/// checks of its endpoint. `row` is the node's override.
pub fn get_admin_proxy_config_row(
    proxy: &mut AdminProxyConfig,
    scope: &ProxyScope,
    row: &Option<ProxyConfigNodeOverride>,
    checks: &Vec<ProxyEndpointCheckRow>,
)
    ensures
        exists|seen: AdminProxyConfig| #[trigger]
            is_seen_from(*old(proxy), seen, *scope, *row) && *final(proxy) == with_checks(
                seen,
                checks@,
            ),
{
    apply_node_view(proxy, scope, row);
    assert(is_seen_from(*old(proxy), *proxy, *scope, *row));
    apply_proxy_endpoint_checks_to_config(proxy, checks);
}

/// A proxy after the checks of all proxies came in: without a check of its own it stays as
/// it is.
pub open spec fn checked(proxy: AdminProxyConfig, rows: Seq<ProxyEndpointCheckRow>) -> AdminProxyConfig {
    if rows_of(rows, proxy.id@).len() == 0 {
        proxy
    } else {
        with_checks(proxy, rows)
    }
}

pub fn apply_proxy_endpoint_checks_to_configs(
    proxies: &mut Vec<AdminProxyConfig>,
    rows: &Vec<ProxyEndpointCheckRow>,
)
    ensures
        final(proxies)@ == old(proxies)@.map_values(|proxy: AdminProxyConfig| checked(proxy, rows@)),
{
    let mut i: usize = 0;
    while i < proxies.len()
        invariant
            i <= proxies.len(),
            proxies.len() == old(proxies).len(),
            forall|k: int| 0 <= k < i ==> #[trigger] proxies@[k] == checked(old(proxies)@[k], rows@),
            forall|k: int| i <= k < proxies.len() ==> #[trigger] proxies@[k] == old(proxies)@[k],
        decreases proxies.len() - i,
    {
        let own = select_rows(rows, proxies[i].id.as_str());
        if own.len() > 0 {
            let mut proxy = proxies.remove(i);
            apply_proxy_endpoint_checks(&mut proxy, &own);
            proxies.insert(i, proxy);
        }
        i += 1;
    }
    assert(proxies@ =~= old(proxies)@.map_values(|proxy: AdminProxyConfig| checked(proxy, rows@)));
}

// ---------------------------------------------------------------------------
// Changes
// ---------------------------------------------------------------------------

/// Why a proxy slot cannot be changed or used.
pub enum ProxyError {
    CreateOffCore,
    DeleteOffCore,
    RenameOffCore,
    UnsupportedProvider { provider: String },
    FixedWithoutId,
    FixedMissing { id: String },
    FixedDisabled { name: String },
    BindingInvalid { message: String },
    AuthUnreadable,
    AuthUnwritable,
    MigrationAuthUnreadable,
    NoFreeId,
}

impl ProxyError {
    pub open spec fn text(self) -> Seq<char> {
        match self {
            ProxyError::CreateOffCore => "proxy slots can only be created on the core node"@,
            ProxyError::DeleteOffCore => "proxy slots can only be deleted on the core node"@,
            ProxyError::RenameOffCore => "proxy slot names can only be changed on the core node"@,
            ProxyError::UnsupportedProvider { provider } => "unsupported proxy endpoint check provider `"@
                + provider@ + "`"@,
            ProxyError::FixedWithoutId => "fixed proxy mode requires proxy_config_id"@,
            ProxyError::FixedMissing { id } => "fixed proxy config `"@ + id@ + "` is missing"@,
            ProxyError::FixedDisabled { name } => "fixed proxy config `"@ + name@ + "` is disabled"@,
            ProxyError::BindingInvalid { message } => "provider proxy binding is invalid: "@ + message@,
            ProxyError::AuthUnreadable => "parse postgres kiro auth json for legacy proxy cleanup"@,
            ProxyError::AuthUnwritable => "serialize postgres kiro auth json after proxy cleanup"@,
            ProxyError::MigrationAuthUnreadable => "parse postgres kiro auth json for legacy proxy migration"@,
            ProxyError::NoFreeId => "failed to allocate postgres legacy proxy config id"@,
        }
    }

    pub fn message(&self) -> (message: String)
        ensures
            message@ == self.text(),
    {
        match self {
            ProxyError::CreateOffCore => "proxy slots can only be created on the core node".to_owned(),
            ProxyError::DeleteOffCore => "proxy slots can only be deleted on the core node".to_owned(),
            ProxyError::RenameOffCore => "proxy slot names can only be changed on the core node".to_owned(),
            ProxyError::UnsupportedProvider { provider } => concat3(
                "unsupported proxy endpoint check provider `",
                provider.as_str(),
                "`",
            ),
            ProxyError::FixedWithoutId => "fixed proxy mode requires proxy_config_id".to_owned(),
            ProxyError::FixedMissing { id } => concat3(
                "fixed proxy config `",
                id.as_str(),
                "` is missing",
            ),
            ProxyError::FixedDisabled { name } => concat3(
                "fixed proxy config `",
                name.as_str(),
                "` is disabled",
            ),
            ProxyError::BindingInvalid { message } => concat2(
                "provider proxy binding is invalid: ",
                message.as_str(),
            ),
            ProxyError::AuthUnreadable => "parse postgres kiro auth json for legacy proxy cleanup".to_owned(),
            ProxyError::AuthUnwritable => "serialize postgres kiro auth json after proxy cleanup".to_owned(),
            ProxyError::MigrationAuthUnreadable => "parse postgres kiro auth json for legacy proxy migration".to_owned(),
            ProxyError::NoFreeId => "failed to allocate postgres legacy proxy config id".to_owned(),
        }
    }
}

/// A proxy slot that is to be created.
pub struct NewAdminProxyConfig {
    pub id: String,
    pub name: String,
    pub proxy_url: String,
    pub proxy_username: Option<String>,
    pub proxy_password: Option<String>,
    pub created_at_ms: i64,
}

/// The row of a new slot; only the core node creates slots.
pub fn create_admin_proxy_config(scope: &ProxyScope, proxy: NewAdminProxyConfig) -> (result: Result<
    (NewAdminProxyConfig, String, i64),
    ProxyError,
>)
    ensures
        match result {
            Ok(row) => scope.can_edit_slot_metadata && row.0 == proxy && row.1@ == "active"@ && row.2
                == proxy.created_at_ms,
            Err(error) => !scope.can_edit_slot_metadata && error is CreateOffCore,
        },
{
    if !scope.can_edit_slot_metadata {
        return Err(ProxyError::CreateOffCore);
    }
    let updated_at_ms: i64 = proxy.created_at_ms;
    Ok((proxy, "active".to_owned(), updated_at_ms))
}

/// Only the core node deletes slots.
pub fn delete_admin_proxy_config(scope: &ProxyScope) -> (result: Result<(), ProxyError>)
    ensures
        match result {
            Ok(_) => scope.can_edit_slot_metadata,
            Err(error) => !scope.can_edit_slot_metadata && error is DeleteOffCore,
        },
{
    if scope.can_edit_slot_metadata {
        Ok(())
    } else {
        Err(ProxyError::DeleteOffCore)
    }
}

pub open spec fn patched<T>(value: T, change: Option<T>) -> T {
    match change {
        Some(new) => new,
        None => value,
    }
}

/// A slot after a change on the core node.
pub open spec fn patched_slot(proxy: AdminProxyConfig, patch: AdminProxyConfigPatch) -> AdminProxyConfig {
    AdminProxyConfig {
        name: patched(proxy.name, patch.name),
        proxy_url: patched(proxy.proxy_url, patch.proxy_url),
        proxy_username: patched(proxy.proxy_username, patch.proxy_username),
        proxy_password: patched(proxy.proxy_password, patch.proxy_password),
        status: patched(proxy.status, patch.status),
        updated_at: patch.updated_at_ms,
        ..proxy
    }
}

pub fn patch_admin_proxy_config(proxy: &mut AdminProxyConfig, patch: &AdminProxyConfigPatch)
    ensures
        *final(proxy) == patched_slot(*old(proxy), *patch),
{
    if let Some(name) = &patch.name {
        proxy.name = name.clone();
    }
    if let Some(proxy_url) = &patch.proxy_url {
        proxy.proxy_url = proxy_url.clone();
    }
    if let Some(proxy_username) = &patch.proxy_username {
        proxy.proxy_username = clone_opt(proxy_username);
    }
    if let Some(proxy_password) = &patch.proxy_password {
        proxy.proxy_password = clone_opt(proxy_password);
    }
    if let Some(status) = &patch.status {
        proxy.status = status.clone();
    }
    proxy.updated_at = patch.updated_at_ms;
}

/// The values that an override changes: those of the override so far, or of the slot.
pub open spec fn override_base(base: AdminProxyConfig, existing: Option<ProxyConfigNodeOverride>) -> ProxyConfigNodeOverride {
    match existing {
        Some(row) => row,
        None => ProxyConfigNodeOverride {
            proxy_url: base.proxy_url,
            proxy_username: base.proxy_username,
            proxy_password: base.proxy_password,
            status: base.status,
            created_at_ms: base.created_at,
            updated_at_ms: base.updated_at,
        },
    }
}

/// A node's override after a change.
pub open spec fn patched_override(
    base: AdminProxyConfig,
    existing: Option<ProxyConfigNodeOverride>,
    patch: AdminProxyConfigPatch,
) -> ProxyConfigNodeOverride {
    let before = override_base(base, existing);
    ProxyConfigNodeOverride {
        proxy_url: patched(before.proxy_url, patch.proxy_url),
        proxy_username: patched(before.proxy_username, patch.proxy_username),
        proxy_password: patched(before.proxy_password, patch.proxy_password),
        status: patched(before.status, patch.status),
        created_at_ms: match existing {
            Some(row) => row.created_at_ms,
            None => patch.updated_at_ms,
        },
        updated_at_ms: patch.updated_at_ms,
    }
}

/// A node's override after a change; names belong to the core node.
pub fn patch_admin_proxy_config_node_override(
    base: &AdminProxyConfig,
    existing: &Option<ProxyConfigNodeOverride>,
    patch: &AdminProxyConfigPatch,
) -> (result: Result<ProxyConfigNodeOverride, ProxyError>)
    ensures
        match result {
            Ok(row) => patch.name is None && row == patched_override(*base, *existing, *patch),
            Err(error) => patch.name is Some && error is RenameOffCore,
        },
{
    if patch.name.is_some() {
        return Err(ProxyError::RenameOffCore);
    }
    let mut row = match existing {
        Some(row) => ProxyConfigNodeOverride {
            proxy_url: row.proxy_url.clone(),
            proxy_username: clone_opt(&row.proxy_username),
            proxy_password: clone_opt(&row.proxy_password),
            status: row.status.clone(),
            created_at_ms: row.created_at_ms,
            updated_at_ms: patch.updated_at_ms,
        },
        None => ProxyConfigNodeOverride {
            proxy_url: base.proxy_url.clone(),
            proxy_username: clone_opt(&base.proxy_username),
            proxy_password: clone_opt(&base.proxy_password),
            status: base.status.clone(),
            created_at_ms: patch.updated_at_ms,
            updated_at_ms: patch.updated_at_ms,
        },
    };
    if let Some(proxy_url) = &patch.proxy_url {
        row.proxy_url = proxy_url.clone();
    }
    if let Some(proxy_username) = &patch.proxy_username {
        row.proxy_username = clone_opt(proxy_username);
    }
    if let Some(proxy_password) = &patch.proxy_password {
        row.proxy_password = clone_opt(proxy_password);
    }
    if let Some(status) = &patch.status {
        row.status = status.clone();
    }
    Ok(row)
}

/// Checks exist for the two providers only.
pub fn record_admin_proxy_endpoint_check(provider_type: &str) -> (result: Result<(), ProxyError>)
    ensures
        match result {
            Ok(_) => provider_type@ == "codex"@ || provider_type@ == "kiro"@,
            Err(error) => provider_type@ != "codex"@ && provider_type@ != "kiro"@ && (
            error matches ProxyError::UnsupportedProvider { provider } && provider@
                == provider_type@),
        },
{
    if same_text(provider_type, "codex") || same_text(provider_type, "kiro") {
        Ok(())
    } else {
        Err(ProxyError::UnsupportedProvider { provider: provider_type.to_owned() })
    }
}

// ---------------------------------------------------------------------------
// Bindings
// ---------------------------------------------------------------------------

/// The proxy with an id; of several the last.
pub open spec fn proxy_with_id(proxies: Seq<AdminProxyConfig>, id: Seq<char>) -> Option<
    AdminProxyConfig,
>
    decreases proxies.len(),
{
    if proxies.len() == 0 {
        None
    } else if proxies.last().id@ == id {
        Some(proxies.last())
    } else {
        proxy_with_id(proxies.drop_last(), id)
    }
}

fn find_proxy<'a>(proxies: &'a Vec<AdminProxyConfig>, id: &str) -> (result: Option<
    &'a AdminProxyConfig,
>)
    ensures
        match result {
            Some(proxy) => proxy_with_id(proxies@, id@) == Some(*proxy),
            None => proxy_with_id(proxies@, id@) is None,
        },
{
    let mut n: usize = proxies.len();
    assert(proxies@.take(n as int) =~= proxies@);
    while n > 0
        invariant
            n <= proxies.len(),
            proxy_with_id(proxies@, id@) == proxy_with_id(proxies@.take(n as int), id@),
        decreases n,
    {
        let ghost head = proxies@.take(n as int);
        assert(head.drop_last() =~= proxies@.take(n - 1));
        assert(head.last() == proxies@[n - 1]);
        if same_text(proxies[n - 1].id.as_str(), id) {
            return Some(&proxies[n - 1]);
        }
        n -= 1;
    }
    None
}

/// The row of a binding.
pub struct BindingRow {
    pub provider_type: String,
    pub proxy_config_id: String,
    pub updated_at_ms: i64,
}

/// The first of the default bindings that belongs to a provider.
pub open spec fn default_binding(defaults: Seq<AdminProxyBinding>, provider: Seq<char>) -> Option<
    AdminProxyBinding,
>
    decreases defaults.len(),
{
    if defaults.len() == 0 {
        None
    } else if defaults[0].provider_type@ == provider {
        Some(defaults[0])
    } else {
        default_binding(defaults.drop_first(), provider)
    }
}

/// A binding to nothing.
pub open spec fn is_unbound(binding: AdminProxyBinding, provider: Seq<char>) -> bool {
    &&& binding == (AdminProxyBinding {
        provider_type: binding.provider_type,
        effective_source: binding.effective_source,
        bound_proxy_config_id: None,
        effective_proxy_config_name: None,
        effective_proxy_url: None,
        effective_proxy_username: None,
        effective_proxy_password: None,
        binding_updated_at: None,
        error_message: None,
    })
    &&& binding.provider_type@ == provider
    &&& binding.effective_source@ == "none"@
}

/// The binding that a row stands for.
pub open spec fn is_bound(
    binding: AdminProxyBinding,
    row: BindingRow,
    proxies: Seq<AdminProxyConfig>,
) -> bool {
    let found = proxy_with_id(proxies, row.proxy_config_id@);
    let usable = found matches Some(proxy) && proxy.status@ == "active"@;
    &&& binding == (AdminProxyBinding {
        provider_type: row.provider_type,
        effective_source: binding.effective_source,
        bound_proxy_config_id: Some(
            match found {
                Some(proxy) => proxy.id,
                None => row.proxy_config_id,
            },
        ),
        effective_proxy_config_name: match found {
            Some(proxy) => Some(proxy.name),
            None => None,
        },
        effective_proxy_url: if usable {
            Some((found->0).proxy_url)
        } else {
            None
        },
        effective_proxy_username: if usable {
            (found->0).proxy_username
        } else {
            None
        },
        effective_proxy_password: if usable {
            (found->0).proxy_password
        } else {
            None
        },
        binding_updated_at: Some(row.updated_at_ms),
        error_message: binding.error_message,
    })
    &&& binding.effective_source@ == if usable {
        "binding"@
    } else {
        "invalid"@
    }
    &&& opt_text(binding.error_message) == match found {
        None => Some("bound proxy config is missing"@),
        Some(proxy) => if usable {
            None
        } else {
            Some("bound proxy config is disabled"@)
        },
    }
}

fn copy_binding(binding: &AdminProxyBinding) -> (result: AdminProxyBinding)
    ensures
        result == *binding,
{
    AdminProxyBinding {
        provider_type: binding.provider_type.clone(),
        effective_source: binding.effective_source.clone(),
        bound_proxy_config_id: clone_opt(&binding.bound_proxy_config_id),
        effective_proxy_config_name: clone_opt(&binding.effective_proxy_config_name),
        effective_proxy_url: clone_opt(&binding.effective_proxy_url),
        effective_proxy_username: clone_opt(&binding.effective_proxy_username),
        effective_proxy_password: clone_opt(&binding.effective_proxy_password),
        binding_updated_at: binding.binding_updated_at,
        error_message: clone_opt(&binding.error_message),
    }
}

fn find_default<'a>(defaults: &'a Vec<AdminProxyBinding>, provider: &str) -> (result: Option<
    &'a AdminProxyBinding,
>)
    ensures
        match result {
            Some(binding) => default_binding(defaults@, provider@) == Some(*binding),
            None => default_binding(defaults@, provider@) is None,
        },
{
    let mut i: usize = 0;
    assert(defaults@.skip(0) =~= defaults@);
    while i < defaults.len()
        invariant
            i <= defaults.len(),
            default_binding(defaults@, provider@) == default_binding(
                defaults@.skip(i as int),
                provider@,
            ),
        decreases defaults.len() - i,
    {
        assert(defaults@.skip(i as int).drop_first() =~= defaults@.skip(i + 1));
        if same_text(defaults[i].provider_type.as_str(), provider) {
            return Some(&defaults[i]);
        }
        i += 1;
    }
    None
}

/// The binding of a provider. Without a row it is the provider's default, or unbound.
pub fn load_admin_proxy_binding_from_configs(
    provider_type: &str,
    row: &Option<BindingRow>,
    proxies: &Vec<AdminProxyConfig>,
    defaults: &Vec<AdminProxyBinding>,
) -> (binding: AdminProxyBinding)
    ensures
        match *row {
            Some(row) => is_bound(binding, row, proxies@),
            None => match default_binding(defaults@, provider_type@) {
                Some(default) => binding == default,
                None => is_unbound(binding, provider_type@),
            },
        },
{
    let row = match row {
        Some(row) => row,
        None => {
            return match find_default(defaults, provider_type) {
                Some(binding) => copy_binding(binding),
                None => AdminProxyBinding {
                    provider_type: provider_type.to_owned(),
                    effective_source: "none".to_owned(),
                    bound_proxy_config_id: None,
                    effective_proxy_config_name: None,
                    effective_proxy_url: None,
                    effective_proxy_username: None,
                    effective_proxy_password: None,
                    binding_updated_at: None,
                    error_message: None,
                },
            };
        },
    };
    let proxy = match find_proxy(proxies, row.proxy_config_id.as_str()) {
        Some(proxy) => proxy,
        None => {
            return AdminProxyBinding {
                provider_type: row.provider_type.clone(),
                effective_source: "invalid".to_owned(),
                bound_proxy_config_id: Some(row.proxy_config_id.clone()),
                effective_proxy_config_name: None,
                effective_proxy_url: None,
                effective_proxy_username: None,
                effective_proxy_password: None,
                binding_updated_at: Some(row.updated_at_ms),
                error_message: Some("bound proxy config is missing".to_owned()),
            };
        },
    };
    if !same_text(proxy.status.as_str(), "active") {
        return AdminProxyBinding {
            provider_type: row.provider_type.clone(),
            effective_source: "invalid".to_owned(),
            bound_proxy_config_id: Some(proxy.id.clone()),
            effective_proxy_config_name: Some(proxy.name.clone()),
            effective_proxy_url: None,
            effective_proxy_username: None,
            effective_proxy_password: None,
            binding_updated_at: Some(row.updated_at_ms),
            error_message: Some("bound proxy config is disabled".to_owned()),
        };
    }
    AdminProxyBinding {
        provider_type: row.provider_type.clone(),
        effective_source: "binding".to_owned(),
        bound_proxy_config_id: Some(proxy.id.clone()),
        effective_proxy_config_name: Some(proxy.name.clone()),
        effective_proxy_url: Some(proxy.proxy_url.clone()),
        effective_proxy_username: clone_opt(&proxy.proxy_username),
        effective_proxy_password: clone_opt(&proxy.proxy_password),
        binding_updated_at: Some(row.updated_at_ms),
        error_message: None,
    }
}

// ---------------------------------------------------------------------------
// Resolution
// ---------------------------------------------------------------------------

/// The proxy of an account, or the text of what is wrong with it.
pub open spec fn resolved_proxy(
    mode: Seq<char>,
    id: Option<Seq<char>>,
    context: ProviderProxyResolutionContext,
) -> Result<Option<ProviderProxyConfig>, Seq<char>> {
    if mode == "none"@ || mode == "direct"@ {
        Ok(None)
    } else if mode == "fixed"@ {
        match id {
            None => Err("fixed proxy mode requires proxy_config_id"@),
            Some(id) => match proxy_with_id(context.proxy_configs@, id) {
                None => Err("fixed proxy config `"@ + id + "` is missing"@),
                Some(proxy) => if proxy.status@ != "active"@ {
                    Err("fixed proxy config `"@ + proxy.name@ + "` is disabled"@)
                } else {
                    Ok(
                        Some(
                            ProviderProxyConfig {
                                proxy_url: proxy.proxy_url,
                                proxy_username: proxy.proxy_username,
                                proxy_password: proxy.proxy_password,
                            },
                        ),
                    )
                },
            },
        }
    } else {
        match context.binding.error_message {
            Some(message) => Err("provider proxy binding is invalid: "@ + message@),
            None => match context.binding.effective_proxy_url {
                None => Ok(None),
                Some(proxy_url) => Ok(
                    Some(
                        ProviderProxyConfig {
                            proxy_url,
                            proxy_username: context.binding.effective_proxy_username,
                            proxy_password: context.binding.effective_proxy_password,
                        },
                    ),
                ),
            },
        }
    }
}

/// The proxy that an account uses: none, a slot of its own, or that of the provider.
pub fn resolve_provider_proxy_config_from_context(
    proxy_mode: &str,
    proxy_config_id: Option<&str>,
    context: &ProviderProxyResolutionContext,
) -> (result: Result<Option<ProviderProxyConfig>, ProxyError>)
    ensures
        match resolved_proxy(proxy_mode@, opt_str(proxy_config_id), *context) {
            Ok(proxy) => result matches Ok(found) && found == proxy,
            Err(message) => result matches Err(error) && error.text() == message,
        },
{
    if same_text(proxy_mode, "none") || same_text(proxy_mode, "direct") {
        return Ok(None);
    }
    if same_text(proxy_mode, "fixed") {
        let id = match proxy_config_id {
            Some(id) => id,
            None => return Err(ProxyError::FixedWithoutId),
        };
        let proxy = match find_proxy(&context.proxy_configs, id) {
            Some(proxy) => proxy,
            None => return Err(ProxyError::FixedMissing { id: id.to_owned() }),
        };
        if !same_text(proxy.status.as_str(), "active") {
            return Err(ProxyError::FixedDisabled { name: proxy.name.clone() });
        }
        return Ok(Some(provider_proxy_from_admin_proxy(proxy)));
    }
    if let Some(message) = &context.binding.error_message {
        return Err(ProxyError::BindingInvalid { message: message.clone() });
    }
    match &context.binding.effective_proxy_url {
        Some(proxy_url) => Ok(
            Some(
                ProviderProxyConfig {
                    proxy_url: proxy_url.clone(),
                    proxy_username: clone_opt(&context.binding.effective_proxy_username),
                    proxy_password: clone_opt(&context.binding.effective_proxy_password),
                },
            ),
        ),
        None => Ok(None),
    }
}

// ---------------------------------------------------------------------------
// Proxies inside account credentials
// ---------------------------------------------------------------------------

/// The first of `keys` under which a text stands.
pub open spec fn first_text(value: JsonView, keys: Seq<Seq<char>>) -> Option<Seq<char>>
    decreases keys.len(),
{
    if keys.len() == 0 {
        None
    } else {
        match value.get_str(keys[0]) {
            Some(text) => Some(text),
            None => first_text(value, keys.drop_first()),
        }
    }
}

/// That text without blanks around it; nothing where it is blank.
pub open spec fn legacy_text(value: JsonView, keys: Seq<Seq<char>>) -> Option<Seq<char>> {
    match first_text(value, keys) {
        Some(text) => nonempty_trim(text),
        None => None,
    }
}

pub fn legacy_proxy_json_string(value: &Json, keys: &[&str]) -> (result: Option<String>)
    ensures
        opt_text(result) == legacy_text(value@, strs(keys@)),
{
    let mut i: usize = 0;
    assert(strs(keys@).skip(0) =~= strs(keys@));
    while i < keys.len()
        invariant
            i <= keys.len(),
            first_text(value@, strs(keys@)) == first_text(value@, strs(keys@).skip(i as int)),
        decreases keys.len() - i,
    {
        assert(strs(keys@).skip(i as int).drop_first() =~= strs(keys@).skip(i + 1));
        assert(strs(keys@).skip(i as int)[0] == keys@[i as int]@);
        if let Some(text) = value.get_str(keys[i]) {
            return trimmed_nonempty(text);
        }
        i += 1;
    }
    None
}

/// Credentials that name a slot in place of a proxy of their own.
pub open spec fn cleared_auth(value: JsonView, proxy_config_id: Seq<char>) -> JsonView {
    value.without("proxyUrl"@).without("proxy_url"@).without("proxyUsername"@).without(
        "proxy_username"@,
    ).without("proxyPassword"@).without("proxy_password"@).with(
        "proxyMode"@,
        JsonView::Str("fixed"@),
    ).with("proxyConfigId"@, JsonView::Str(proxy_config_id))
}

pub fn clear_legacy_proxy(value: Json, proxy_config_id: &str) -> (result: Json)
    ensures
        result@ == cleared_auth(value@, proxy_config_id@),
{
    value.without("proxyUrl").without("proxy_url").without("proxyUsername").without(
        "proxy_username",
    ).without("proxyPassword").without("proxy_password").with(
        "proxyMode",
        Json::str("fixed"),
    ).with("proxyConfigId", Json::str(proxy_config_id))
}

pub fn clear_legacy_kiro_proxy_json(auth_json: &str, proxy_config_id: &str) -> (result: Result<
    String,
    ProxyError,
>)
    ensures
        match parsed_text(auth_json@) {
            None => result matches Err(error) && error is AuthUnreadable,
            Some(value) => match written_text(cleared_auth(value, proxy_config_id@)) {
                Some(text) => result matches Ok(written) && written@ == text,
                None => result matches Err(error) && error is AuthUnwritable,
            },
        },
{
    let value = match parse_text(auth_json) {
        Some(value) => value,
        None => return Err(ProxyError::AuthUnreadable),
    };
    let cleared = clear_legacy_proxy(value, proxy_config_id);
    match write_text(&cleared) {
        Some(text) => Ok(text),
        None => Err(ProxyError::AuthUnwritable),
    }
}

/// What is done to take back the changes of a node.
#[derive(Debug, Clone, Copy, PartialEq, Eq, Structural)]
pub enum OverrideReset {
    /// There is no such slot.
    Unknown,
    /// The node changes the slots themselves: there is nothing to take back.
    Keep,
    /// Forget what the node changed.
    Forget,
}

pub fn reset_admin_proxy_config_override(exists: bool, can_edit_slot_metadata: bool) -> (step:
    OverrideReset)
    ensures
        step == (if !exists {
            OverrideReset::Unknown
        } else if can_edit_slot_metadata {
            OverrideReset::Keep
        } else {
            OverrideReset::Forget
        }),
{
    if !exists {
        OverrideReset::Unknown
    } else if can_edit_slot_metadata {
        OverrideReset::Keep
    } else {
        OverrideReset::Forget
    }
}

// ---------------------------------------------------------------------------
// Laws
// ---------------------------------------------------------------------------

/// No disabled slot is ever used: the proxy of an account in fixed mode belongs to an
/// active slot.
pub proof fn law_fixed_proxy_is_active(
    id: Option<Seq<char>>,
    context: ProviderProxyResolutionContext,
)
    ensures
        resolved_proxy("fixed"@, id, context) matches Ok(proxy) ==> proxy is Some && id is Some && (
        proxy_with_id(context.proxy_configs@, id->0) matches Some(slot) && slot.status@
            == "active"@),
{
    reveal_strlit("fixed");
    reveal_strlit("none");
    reveal_strlit("direct");
    assert("fixed"@.len() == 5 && "none"@.len() == 4 && "direct"@.len() == 6);
}

/// An account that shares the provider's proxy is refused where the binding is broken: it
/// never goes out without a proxy by accident.
pub proof fn law_broken_binding_is_refused(
    mode: Seq<char>,
    id: Option<Seq<char>>,
    context: ProviderProxyResolutionContext,
    row: BindingRow,
)
    requires
        mode != "none"@,
        mode != "direct"@,
        mode != "fixed"@,
        is_bound(context.binding, row, context.proxy_configs@),
    ensures
        resolved_proxy(mode, id, context) is Ok == (proxy_with_id(
            context.proxy_configs@,
            row.proxy_config_id@,
        ) matches Some(slot) && slot.status@ == "active"@),
        resolved_proxy(mode, id, context) matches Ok(proxy) ==> proxy is Some,
{
}

/// Taking the proxy out of credentials leaves nothing to take out: doing it again changes
/// nothing, and no proxy is found in them any more.
pub proof fn law_cleared_auth_stays_clear(value: JsonView, proxy_config_id: Seq<char>)
    ensures
        cleared_auth(cleared_auth(value, proxy_config_id), proxy_config_id) == cleared_auth(
            value,
            proxy_config_id,
        ),
        legacy_text(
            cleared_auth(value, proxy_config_id),
            seq!["proxyUrl"@, "proxy_url"@],
        ) is None,
{
    reveal_strlit("proxyUrl");
    reveal_strlit("proxy_url");
    reveal_strlit("proxyUsername");
    reveal_strlit("proxy_username");
    reveal_strlit("proxyPassword");
    reveal_strlit("proxy_password");
    reveal_strlit("proxyMode");
    reveal_strlit("proxyConfigId");
    assert("proxyMode"@[5] == 'M' && "proxyConfigId"@[5] == 'C' && "proxyUrl"@[5] == 'U'
        && "proxy_url"@[5] == '_' && "proxyUsername"@[5] == 'U' && "proxy_username"@[5] == '_'
        && "proxyPassword"@[5] == 'P' && "proxy_password"@[5] == '_');
    let once = cleared_auth(value, proxy_config_id);
    let keys = seq!["proxyUrl"@, "proxy_url"@];
    assert(keys.drop_first() =~= seq!["proxy_url"@]);
    assert(keys.drop_first().drop_first() =~= Seq::<Seq<char>>::empty());
    reveal_with_fuel(first_text, 3);
    if let JsonView::Object(members) = value {
        let twice = cleared_auth(once, proxy_config_id);
        assert(once->Object_0 =~= twice->Object_0);
        assert(once.get("proxyUrl"@) is None);
        assert(once.get("proxy_url"@) is None);
    }
}

/// Looked at from its own node, a slot shows the values of the node's override; without
/// one, and on the core node, it shows its own.
pub proof fn law_override_shows_only_on_its_node(
    before: AdminProxyConfig,
    after: AdminProxyConfig,
    scope: ProxyScope,
    row: Option<ProxyConfigNodeOverride>,
)
    requires
        is_seen_from(before, after, scope, row),
    ensures
        after.id == before.id,
        after.name == before.name,
        after.has_node_override ==> after.proxy_url == (row->0).proxy_url && after.status == (
        row->0).status,
        !after.has_node_override ==> after.proxy_url == before.proxy_url && after.status
            == before.status,
        scope.can_edit_slot_metadata ==> !after.has_node_override,
{
}

/// An override that changes nothing shows the slot's own values.
pub proof fn law_empty_override_keeps_values(base: AdminProxyConfig, patch: AdminProxyConfigPatch)
    requires
        patch.proxy_url is None,
        patch.proxy_username is None,
        patch.proxy_password is None,
        patch.status is None,
    ensures
        overridden(base, patched_override(base, None, patch)) == (AdminProxyConfig {
            updated_at: patch.updated_at_ms,
            ..base
        }),
{
}

/// What a patch names changes, and nothing else; the time of the change does.
pub proof fn law_a_patch_changes_what_it_names(proxy: AdminProxyConfig, patch: AdminProxyConfigPatch)
    ensures
        ({
            let after = patched_slot(proxy, patch);
            &&& after.updated_at == patch.updated_at_ms
            &&& after.id == proxy.id
            &&& after.created_at == proxy.created_at
            &&& patch.name matches Some(name) ==> after.name == name
            &&& patch.name is None ==> after.name == proxy.name
            &&& patch.proxy_url matches Some(url) ==> after.proxy_url == url
            &&& patch.proxy_url is None ==> after.proxy_url == proxy.proxy_url
            &&& patch.proxy_username matches Some(name) ==> after.proxy_username == name
            &&& patch.proxy_username is None ==> after.proxy_username == proxy.proxy_username
            &&& patch.proxy_password matches Some(word) ==> after.proxy_password == word
            &&& patch.proxy_password is None ==> after.proxy_password == proxy.proxy_password
            &&& patch.status matches Some(status) ==> after.status == status
            &&& patch.status is None ==> after.status == proxy.status
        }),
{
}

/// What a node changes for itself starts from its earlier changes, or else from the slot; the
/// time of the first change stays.
pub proof fn law_a_node_changes_its_own_values(
    base: AdminProxyConfig,
    existing: Option<ProxyConfigNodeOverride>,
    patch: AdminProxyConfigPatch,
)
    ensures
        ({
            let after = patched_override(base, existing, patch);
            &&& after.updated_at_ms == patch.updated_at_ms
            &&& existing matches Some(row) ==> after.created_at_ms == row.created_at_ms
            &&& existing is None ==> after.created_at_ms == patch.updated_at_ms
            &&& patch.proxy_url matches Some(url) ==> after.proxy_url == url
            &&& patch.proxy_url is None ==> (existing matches Some(row) ==> after.proxy_url
                == row.proxy_url)
            &&& patch.proxy_url is None && existing is None ==> after.proxy_url == base.proxy_url
            &&& patch.status matches Some(status) ==> after.status == status
            &&& patch.status is None ==> (existing matches Some(row) ==> after.status == row.status)
            &&& patch.status is None && existing is None ==> after.status == base.status
            &&& patch.proxy_password matches Some(word) ==> after.proxy_password == word
            &&& patch.proxy_password is None && existing is None ==> after.proxy_password
                == base.proxy_password
        }),
{
}

/// The last check of a provider on a slot is the one that is shown, and there is none only
/// where the provider was never checked on it.
pub proof fn law_the_last_check_is_shown(
    rows: Seq<ProxyEndpointCheckRow>,
    proxy_id: Seq<char>,
    provider: Seq<char>,
    i: int,
)
    requires
        0 <= i < rows.len(),
        rows[i].proxy_config_id@ == proxy_id,
        rows[i].provider_type@ == provider,
        forall|k: int|
            i < k < rows.len() ==> !((#[trigger] rows[k]).proxy_config_id@ == proxy_id
                && rows[k].provider_type@ == provider),
    ensures
        latest_check(rows_of(rows, proxy_id), provider) == Some(rows[i].check),
        rows_of(rows, proxy_id).len() > 0,
    decreases rows.len(),
{
    let head = rows.drop_last();
    let last = rows.len() - 1;
    if i < last {
        assert(rows[last] == rows.last());
        assert forall|k: int| i < k < head.len() implies !((
        #[trigger] head[k]).proxy_config_id@ == proxy_id && head[k].provider_type@ == provider) by {
            assert(head[k] == rows[k]);
        }
        assert(head[i] == rows[i]);
        law_the_last_check_is_shown(head, proxy_id, provider, i);
        if rows.last().proxy_config_id@ == proxy_id {
            assert(!(rows[last].proxy_config_id@ == proxy_id && rows[last].provider_type@
                == provider));
            assert(rows_of(rows, proxy_id).drop_last() =~= rows_of(head, proxy_id));
        }
    }
}

/// The checks of a slot come with it, those of other slots do not, and nothing else of the
/// slot changes.
pub proof fn law_checks_come_with_their_slot(
    proxy: AdminProxyConfig,
    rows: Seq<ProxyEndpointCheckRow>,
)
    ensures
        checked(proxy, rows).id == proxy.id,
        checked(proxy, rows).proxy_url == proxy.proxy_url,
        checked(proxy, rows).status == proxy.status,
        rows_of(rows, proxy.id@).len() > 0 ==> checked(proxy, rows).latest_codex_check
            == latest_check(rows_of(rows, proxy.id@), "codex"@),
        rows_of(rows, proxy.id@).len() > 0 ==> checked(proxy, rows).latest_kiro_check
            == latest_check(rows_of(rows, proxy.id@), "kiro"@),
        rows_of(rows, proxy.id@).len() == 0 ==> checked(proxy, rows) == proxy,
{
}

/// A slot is found by its id, where one has it.
pub proof fn law_a_slot_is_found_by_its_id(proxies: Seq<AdminProxyConfig>, id: Seq<char>)
    ensures
        proxy_with_id(proxies, id) matches Some(proxy) ==> proxy.id@ == id && proxies.contains(
            proxy,
        ),
        proxy_with_id(proxies, id) is None ==> forall|i: int|
            0 <= i < proxies.len() ==> (#[trigger] proxies[i]).id@ != id,
    decreases proxies.len(),
{
    if proxies.len() > 0 {
        let head = proxies.drop_last();
        law_a_slot_is_found_by_its_id(head, id);
        if let Some(proxy) = proxy_with_id(proxies, id) {
            if proxies.last().id@ == id {
                assert(proxies[proxies.len() - 1] == proxy);
            } else {
                let i = choose|i: int| 0 <= i < head.len() && head[i] == proxy;
                assert(proxies[i] == proxy);
            }
        } else {
            assert forall|i: int| 0 <= i < proxies.len() implies (#[trigger] proxies[i]).id@
                != id by {
                if i < head.len() {
                    assert(head[i] == proxies[i]);
                }
            }
        }
    }
}

/// A bound slot that is active is in effect with all its values; one that is missing or
/// switched off is not, and says so.
pub proof fn law_a_binding_takes_effect(
    binding: AdminProxyBinding,
    row: BindingRow,
    proxies: Seq<AdminProxyConfig>,
)
    requires
        is_bound(binding, row, proxies),
    ensures
        proxy_with_id(proxies, row.proxy_config_id@) matches Some(proxy) ==> (proxy.status@
            == "active"@ ==> binding.effective_proxy_url == Some(proxy.proxy_url)
            && binding.effective_proxy_username == proxy.proxy_username
            && binding.effective_proxy_password == proxy.proxy_password
            && binding.error_message is None && binding.effective_source@ == "binding"@),
        proxy_with_id(proxies, row.proxy_config_id@) matches Some(proxy) ==> (proxy.status@
            != "active"@ ==> binding.effective_proxy_url is None && binding.error_message is Some),
        proxy_with_id(proxies, row.proxy_config_id@) is None ==> binding.effective_proxy_url is None
            && binding.error_message is Some && binding.bound_proxy_config_id == Some(
            row.proxy_config_id,
        ),
        binding.binding_updated_at == Some(row.updated_at_ms),
        binding.provider_type == row.provider_type,
{
}

/// Which proxy an account takes: none where it says so; the one that it is fixed to, which
/// must be there and active; else the one that its provider is bound to.
pub proof fn law_which_proxy_an_account_takes(
    mode: Seq<char>,
    id: Option<Seq<char>>,
    context: ProviderProxyResolutionContext,
)
    ensures
        mode == "none"@ || mode == "direct"@ ==> resolved_proxy(mode, id, context) == Ok::<
            Option<ProviderProxyConfig>,
            Seq<char>,
        >(None),
        mode == "fixed"@ && id is None ==> resolved_proxy(mode, id, context) is Err,
        mode == "fixed"@ ==> (id matches Some(id) ==> (proxy_with_id(
            context.proxy_configs@,
            id,
        ) matches Some(proxy) ==> (proxy.status@ == "active"@ ==> (resolved_proxy(
            mode,
            Some(id),
            context,
        ) matches Ok(Some(taken)) && taken.proxy_url == proxy.proxy_url && taken.proxy_username
            == proxy.proxy_username && taken.proxy_password == proxy.proxy_password)))),
        mode == "fixed"@ ==> (id matches Some(id) ==> (proxy_with_id(
            context.proxy_configs@,
            id,
        ) is None ==> resolved_proxy(mode, Some(id), context) is Err)),
        mode == "inherit"@ && context.binding.error_message is Some ==> resolved_proxy(
            mode,
            id,
            context,
        ) is Err,
        mode == "inherit"@ && context.binding.error_message is None ==> (
        context.binding.effective_proxy_url matches Some(url) ==> (resolved_proxy(
            mode,
            id,
            context,
        ) matches Ok(Some(taken)) && taken.proxy_url == url && taken.proxy_username
            == context.binding.effective_proxy_username)),
        mode == "inherit"@ && context.binding.error_message is None
            && context.binding.effective_proxy_url is None ==> resolved_proxy(mode, id, context)
            == Ok::<Option<ProviderProxyConfig>, Seq<char>>(None),
{
    reveal_strlit("none");
    reveal_strlit("direct");
    reveal_strlit("fixed");
    reveal_strlit("inherit");
    assert("none"@.len() == 4 && "direct"@.len() == 6 && "fixed"@.len() == 5 && "inherit"@.len()
        == 7);
}

/// The old names of a value are read in their order: the first that holds a text counts.
pub proof fn law_the_first_old_name_counts(value: JsonView, keys: Seq<Seq<char>>, i: int)
    requires
        0 <= i <= keys.len(),
        forall|k: int| 0 <= k < i ==> value.get_str(#[trigger] keys[k]) is None,
        i < keys.len() ==> value.get_str(keys[i]) is Some,
    ensures
        i < keys.len() ==> first_text(value, keys) == value.get_str(keys[i]),
        i == keys.len() ==> first_text(value, keys) is None,
    decreases keys.len(),
{
    if keys.len() > 0 && i > 0 {
        assert(value.get_str(keys[0]) is None);
        assert forall|k: int| 0 <= k < i - 1 implies value.get_str(
            #[trigger] keys.drop_first()[k],
        ) is None by {
            assert(keys[k + 1] == keys.drop_first()[k]);
        }
        law_the_first_old_name_counts(value, keys.drop_first(), i - 1);
    }
}

proof fn lemma_default_binding(defaults: Seq<AdminProxyBinding>, provider: Seq<char>, i: int)
    requires
        0 <= i < defaults.len(),
        defaults[i].provider_type@ == provider,
        forall|j: int| 0 <= j < i ==> (#[trigger] defaults[j]).provider_type@ != provider,
    ensures
        default_binding(defaults, provider) == Some(defaults[i]),
    decreases defaults.len(),
{
    if i > 0 {
        assert(defaults[0].provider_type@ != provider);
        assert(defaults.drop_first()[i - 1] == defaults[i]);
        lemma_default_binding(defaults.drop_first(), provider, i - 1);
    }
}

proof fn lemma_no_default_binding(defaults: Seq<AdminProxyBinding>, provider: Seq<char>)
    requires
        forall|j: int|
            0 <= j < defaults.len() ==> (#[trigger] defaults[j]).provider_type@ != provider,
    ensures
        default_binding(defaults, provider) is None,
    decreases defaults.len(),
{
    if defaults.len() > 0 {
        assert(defaults[0].provider_type@ != provider);
        assert forall|j: int| 0 <= j < defaults.drop_first().len() implies (
        #[trigger] defaults.drop_first()[j]).provider_type@ != provider by {
            assert(defaults.drop_first()[j] == defaults[j + 1]);
        }
        lemma_no_default_binding(defaults.drop_first(), provider);
    }
}

/// A provider that nothing is bound to has the first default of its own name.
pub proof fn law_the_first_default_counts(
    provider_type: &str,
    row: &Option<BindingRow>,
    proxies: &Vec<AdminProxyConfig>,
    defaults: &Vec<AdminProxyBinding>,
    binding: AdminProxyBinding,
    i: int,
)
    requires
        call_ensures(
            load_admin_proxy_binding_from_configs,
            (provider_type, row, proxies, defaults),
            binding,
        ),
        *row is None,
        0 <= i < defaults@.len(),
        defaults@[i].provider_type@ == provider_type@,
        forall|j: int|
            0 <= j < i ==> (#[trigger] defaults@[j]).provider_type@ != provider_type@,
    ensures
        binding == defaults@[i],
{
    lemma_default_binding(defaults@, provider_type@, i);
}

/// A provider that nothing is bound to and that no default names goes out directly.
pub proof fn law_without_a_default_nothing_is_bound(
    provider_type: &str,
    row: &Option<BindingRow>,
    proxies: &Vec<AdminProxyConfig>,
    defaults: &Vec<AdminProxyBinding>,
    binding: AdminProxyBinding,
)
    requires
        call_ensures(
            load_admin_proxy_binding_from_configs,
            (provider_type, row, proxies, defaults),
            binding,
        ),
        *row is None,
        forall|j: int|
            0 <= j < defaults@.len() ==> (#[trigger] defaults@[j]).provider_type@
                != provider_type@,
    ensures
        binding.provider_type@ == provider_type@,
        binding.effective_source@ == "none"@,
        binding.bound_proxy_config_id is None,
        binding.effective_proxy_url is None,
        binding.effective_proxy_username is None,
        binding.effective_proxy_password is None,
        binding.error_message is None,
{
    lemma_no_default_binding(defaults@, provider_type@);
}

} // verus!
