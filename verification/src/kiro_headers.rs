//! The headers of calls to Kiro.

use vstd::prelude::*;
use crate::codex_auth::header_views;
use crate::text::{concat2, concat3, eq_ignore_case, lower, nonempty_trim, opt_str, same_ignore_case,
    same_text, trim, trimmed, trimmed_nonempty};
use crate::usage_event::{is_random_uuid, random_id};

verus! {

/// The service that a call goes to.
#[derive(Debug, Clone, Copy, PartialEq, Eq, Structural)]
pub enum KiroAwsService {
    Streaming,
    Runtime,
}

impl KiroAwsService {
    pub open spec fn name(self) -> Seq<char> {
        match self {
            KiroAwsService::Streaming => "codewhispererstreaming"@,
            KiroAwsService::Runtime => "codewhispererruntime"@,
        }
    }

    pub fn api_name(self) -> (name: &'static str)
        ensures
            name@ == self.name(),
    {
        match self {
            KiroAwsService::Streaming => "codewhispererstreaming",
            KiroAwsService::Runtime => "codewhispererruntime",
        }
    }
}

/// What a call to Kiro needs.
pub struct KiroHeaderConfig<'a> {
    pub upstream_host: &'a str,
    pub access_token: &'a str,
    pub service: KiroAwsService,
    pub client_version: &'a str,
    pub sdk_request: &'a str,
    pub content_type: Option<&'a str>,
    pub accept: Option<&'a str>,
    pub connection_close: bool,
    pub agent_mode: Option<&'a str>,
    pub include_opt_out: bool,
}

/// What is known of the account that calls.
pub struct KiroAuthFacts {
    pub auth_method: String,
    pub provider: Option<String>,
    /// The machine that the account is bound to, where it can be derived.
    pub machine_id: Option<String>,
}

/// The versions that the client claims to have.
pub struct KiroClientVersions<'a> {
    pub kiro: &'a str,
    pub system: &'a str,
    pub node: &'a str,
}

pub struct KiroUserAgents {
    pub x_amz_user_agent: String,
    pub user_agent: String,
}

pub open spec fn short_agent(client: Seq<char>, kiro: Seq<char>, machine: Seq<char>) -> Seq<char> {
    "aws-sdk-js/"@ + client + " KiroIDE-"@ + kiro + "-"@ + machine
}

pub open spec fn long_agent(
    service: Seq<char>,
    client: Seq<char>,
    kiro: Seq<char>,
    system: Seq<char>,
    node: Seq<char>,
    machine: Seq<char>,
) -> Seq<char> {
    "aws-sdk-js/"@ + client + " ua/2.1 os/"@ + system + " lang/js md/nodejs#"@ + node + " api/"@
        + service + "#"@ + client + " KiroIDE-"@ + kiro + "-"@ + machine
}

pub fn kiro_user_agents(
    service: KiroAwsService,
    client_version: &str,
    versions: &KiroClientVersions,
    machine_id: &str,
) -> (agents: KiroUserAgents)
    ensures
        agents.x_amz_user_agent@ == short_agent(client_version@, versions.kiro@, machine_id@),
        agents.user_agent@ == long_agent(
            service.name(),
            client_version@,
            versions.kiro@,
            versions.system@,
            versions.node@,
            machine_id@,
        ),
{
    let mut short = concat3("aws-sdk-js/", client_version, " KiroIDE-");
    short.append(versions.kiro);
    short.append("-");
    short.append(machine_id);
    let mut long = concat3("aws-sdk-js/", client_version, " ua/2.1 os/");
    long.append(versions.system);
    long.append(" lang/js md/nodejs#");
    long.append(versions.node);
    long.append(" api/");
    long.append(service.api_name());
    long.append("#");
    long.append(client_version);
    long.append(" KiroIDE-");
    long.append(versions.kiro);
    long.append("-");
    long.append(machine_id);
    KiroUserAgents { x_amz_user_agent: short, user_agent: long }
}

/// A header, where there is a value for it.
pub open spec fn maybe_header(name: Seq<char>, value: Option<Seq<char>>) -> Seq<(Seq<char>, Seq<char>)> {
    match value {
        Some(value) => seq![(name, value)],
        None => Seq::empty(),
    }
}

pub open spec fn flag_header(name: Seq<char>, value: Seq<char>, set: bool) -> Seq<
    (Seq<char>, Seq<char>),
> {
    maybe_header(
        name,
        if set {
            Some(value)
        } else {
            None
        },
    )
}

/// Whether an account belongs to the operator of the service.
pub open spec fn is_internal(auth: KiroAuthFacts) -> bool {
    auth.provider matches Some(provider) && eq_ignore_case(trim(provider@), "internal"@)
}

/// The headers that only some calls have.
pub open spec fn optional_headers(auth: KiroAuthFacts, config: KiroHeaderConfig) -> Seq<
    (Seq<char>, Seq<char>),
> {
    maybe_header("content-type"@, opt_str(config.content_type)) + maybe_header(
        "accept"@,
        opt_str(config.accept),
    ) + flag_header("connection"@, "close"@, config.connection_close) + maybe_header(
        "x-amzn-kiro-agent-mode"@,
        opt_str(config.agent_mode),
    ) + flag_header("x-amzn-codewhisperer-optout"@, "true"@, config.include_opt_out) + flag_header(
        "TokenType"@,
        "EXTERNAL_IDP"@,
        auth.auth_method@ == "external_idp"@,
    ) + flag_header("redirect-for-internal"@, "true"@, is_internal(auth))
}

/// The headers that every call has.
pub open spec fn common_headers(
    config: KiroHeaderConfig,
    versions: KiroClientVersions,
    machine: Seq<char>,
    invocation_id: Seq<char>,
) -> Seq<(Seq<char>, Seq<char>)> {
    seq![
        ("x-amz-user-agent"@, short_agent(config.client_version@, versions.kiro@, machine)),
        (
            "user-agent"@,
            long_agent(
                config.service.name(),
                config.client_version@,
                versions.kiro@,
                versions.system@,
                versions.node@,
                machine,
            ),
        ),
        ("host"@, config.upstream_host@),
        ("amz-sdk-invocation-id"@, invocation_id),
        ("amz-sdk-request"@, config.sdk_request@),
        ("authorization"@, "Bearer "@ + config.access_token@),
    ]
}

/// The headers of a call, in their order.
pub open spec fn kiro_header_list(
    auth: KiroAuthFacts,
    config: KiroHeaderConfig,
    versions: KiroClientVersions,
    machine: Seq<char>,
    invocation_id: Seq<char>,
) -> Seq<(Seq<char>, Seq<char>)> {
    optional_headers(auth, config) + common_headers(config, versions, machine, invocation_id)
}

fn push_pair(list: &mut Vec<(String, String)>, name: &str, value: &str)
    ensures
        header_views(final(list)@) == header_views(old(list)@).push((name@, value@)),
{
    list.push((name.to_owned(), value.to_owned()));
    assert(header_views(list@) =~= header_views(old(list)@).push((name@, value@)));
}

fn push_maybe(list: &mut Vec<(String, String)>, name: &str, value: Option<&str>)
    ensures
        header_views(final(list)@) == header_views(old(list)@) + maybe_header(name@, opt_str(value)),
{
    if let Some(value) = value {
        push_pair(list, name, value);
    }
    assert(header_views(list@) =~= header_views(old(list)@) + maybe_header(name@, opt_str(value)));
}

fn push_flag(list: &mut Vec<(String, String)>, name: &str, value: &str, set: bool)
    ensures
        header_views(final(list)@) == header_views(old(list)@) + flag_header(name@, value@, set),
{
    push_maybe(
        list,
        name,
        if set {
            Some(value)
        } else {
            None
        },
    );
}

/// Why a call cannot be made.
pub enum KiroHeaderError {
    NoAuthRecord,
    NoMachineId,
    NoHost { error: String },
}

impl KiroHeaderError {
    pub fn message(&self) -> (message: String)
        ensures
            message@ == match *self {
                KiroHeaderError::NoAuthRecord => "invalid kiro auth record"@,
                KiroHeaderError::NoMachineId => "failed to derive kiro machine id"@,
                KiroHeaderError::NoHost { error } => error@,
            },
    {
        match self {
            KiroHeaderError::NoAuthRecord => "invalid kiro auth record".to_owned(),
            KiroHeaderError::NoMachineId => "failed to derive kiro machine id".to_owned(),
            KiroHeaderError::NoHost { error } => error.clone(),
        }
    }
}

fn list_optional(auth: &KiroAuthFacts, config: &KiroHeaderConfig) -> (list: Vec<(String, String)>)
    ensures
        header_views(list@) == optional_headers(*auth, *config),
{
    let mut list: Vec<(String, String)> = Vec::new();
    push_maybe(&mut list, "content-type", config.content_type);
    assert(header_views(list@) =~= maybe_header("content-type"@, opt_str(config.content_type)));
    push_maybe(&mut list, "accept", config.accept);
    push_flag(&mut list, "connection", "close", config.connection_close);
    push_maybe(&mut list, "x-amzn-kiro-agent-mode", config.agent_mode);
    push_flag(&mut list, "x-amzn-codewhisperer-optout", "true", config.include_opt_out);
    push_flag(
        &mut list,
        "TokenType",
        "EXTERNAL_IDP",
        same_text(auth.auth_method.as_str(), "external_idp"),
    );
    let internal = match &auth.provider {
        Some(provider) => same_ignore_case(trimmed(provider.as_str()).as_str(), "internal"),
        None => false,
    };
    push_flag(&mut list, "redirect-for-internal", "true", internal);
    list
}

fn push_common(
    list: &mut Vec<(String, String)>,
    config: &KiroHeaderConfig,
    versions: &KiroClientVersions,
    machine_id: &str,
    invocation_id: &str,
)
    ensures
        header_views(final(list)@) == header_views(old(list)@) + common_headers(
            *config,
            *versions,
            machine_id@,
            invocation_id@,
        ),
{
    let agents = kiro_user_agents(config.service, config.client_version, versions, machine_id);
    push_pair(list, "x-amz-user-agent", agents.x_amz_user_agent.as_str());
    push_pair(list, "user-agent", agents.user_agent.as_str());
    push_pair(list, "host", config.upstream_host);
    push_pair(list, "amz-sdk-invocation-id", invocation_id);
    push_pair(list, "amz-sdk-request", config.sdk_request);
    push_pair(list, "authorization", concat2("Bearer ", config.access_token).as_str());
    assert(header_views(list@) =~= header_views(old(list)@) + common_headers(
        *config,
        *versions,
        machine_id@,
        invocation_id@,
    ));
}

/// The headers of a call with a given invocation id.
pub fn kiro_headers_with_id(
    auth: &KiroAuthFacts,
    config: &KiroHeaderConfig,
    versions: &KiroClientVersions,
    invocation_id: &str,
) -> (result: Result<Vec<(String, String)>, KiroHeaderError>)
    ensures
        match auth.machine_id {
            Some(machine) => result matches Ok(list) && header_views(list@) == kiro_header_list(
                *auth,
                *config,
                *versions,
                machine@,
                invocation_id@,
            ),
            None => result matches Err(error) && error is NoMachineId,
        },
{
    let machine_id = match &auth.machine_id {
        Some(machine_id) => machine_id,
        None => return Err(KiroHeaderError::NoMachineId),
    };
    let mut list = list_optional(auth, config);
    push_common(&mut list, config, versions, machine_id.as_str(), invocation_id);
    Ok(list)
}

/// The headers of a call, with a fresh invocation id.
pub fn add_kiro_headers(
    auth: &KiroAuthFacts,
    config: &KiroHeaderConfig,
    versions: &KiroClientVersions,
) -> (result: Result<Vec<(String, String)>, KiroHeaderError>)
    ensures
        match auth.machine_id {
            Some(machine) => result matches Ok(list) && exists|id: Seq<char>|
                is_random_uuid(id) && header_views(list@) == #[trigger] kiro_header_list(
                    *auth,
                    *config,
                    *versions,
                    machine@,
                    id,
                ),
            None => result matches Err(error) && error is NoMachineId,
        },
{
    let id = random_id();
    kiro_headers_with_id(auth, config, versions, id.as_str())
}

/// What a call that streams an answer needs.
pub open spec fn is_generate_config(
    config: KiroHeaderConfig,
    host: Seq<char>,
    access_token: Seq<char>,
    client_version: Seq<char>,
) -> bool {
    &&& config.upstream_host@ == host
    &&& config.access_token@ == access_token
    &&& config.service == KiroAwsService::Streaming
    &&& config.client_version@ == client_version
    &&& config.sdk_request@ == "attempt=1; max=3"@
    &&& opt_str(config.content_type) == Some("application/json"@)
    &&& opt_str(config.accept) == Some("application/vnd.amazon.eventstream"@)
    &&& !config.connection_close
    &&& opt_str(config.agent_mode) == Some("vibe"@)
    &&& config.include_opt_out
}

/// What a call of a tool needs.
pub open spec fn is_mcp_config(
    config: KiroHeaderConfig,
    host: Seq<char>,
    access_token: Seq<char>,
    client_version: Seq<char>,
) -> bool {
    &&& config.upstream_host@ == host
    &&& config.access_token@ == access_token
    &&& config.service == KiroAwsService::Streaming
    &&& config.client_version@ == client_version
    &&& config.sdk_request@ == "attempt=1; max=3"@
    &&& opt_str(config.content_type) == Some("application/json"@)
    &&& config.accept is None
    &&& !config.connection_close
    &&& config.agent_mode is None
    &&& !config.include_opt_out
}

/// The headers of a call that streams an answer. `host` is the host of the upstream's URL,
/// or why there is none.
pub fn add_kiro_upstream_headers(
    auth: &Option<KiroAuthFacts>,
    host: &Result<String, String>,
    access_token: &str,
    client_version: &str,
    versions: &KiroClientVersions,
) -> (result: Result<Vec<(String, String)>, KiroHeaderError>)
    ensures
        match (*auth, *host) {
            (None, _) => result matches Err(error) && error is NoAuthRecord,
            (Some(_), Err(reason)) => result matches Err(KiroHeaderError::NoHost { error })
                && error == reason,
            (Some(auth), Ok(host)) => match auth.machine_id {
                None => result matches Err(error) && error is NoMachineId,
                Some(machine) => result matches Ok(list) && exists|
                    config: KiroHeaderConfig,
                    id: Seq<char>,
                |
                    is_random_uuid(id) && is_generate_config(
                        config,
                        host@,
                        access_token@,
                        client_version@,
                    ) && header_views(list@) == #[trigger] kiro_header_list(
                        auth,
                        config,
                        *versions,
                        machine@,
                        id,
                    ),
            },
        },
{
    let auth = match auth {
        Some(auth) => auth,
        None => return Err(KiroHeaderError::NoAuthRecord),
    };
    let host = match host {
        Ok(host) => host,
        Err(error) => return Err(KiroHeaderError::NoHost { error: error.clone() }),
    };
    let config = KiroHeaderConfig {
        upstream_host: host.as_str(),
        access_token,
        service: KiroAwsService::Streaming,
        client_version,
        sdk_request: "attempt=1; max=3",
        content_type: Some("application/json"),
        accept: Some("application/vnd.amazon.eventstream"),
        connection_close: false,
        agent_mode: Some("vibe"),
        include_opt_out: true,
    };
    assert(is_generate_config(config, host@, access_token@, client_version@));
    add_kiro_headers(auth, &config, versions)
}

/// The headers of a call of a tool; they name the account's profile where there is one.
pub fn add_kiro_mcp_headers(
    auth: &Option<KiroAuthFacts>,
    host: &Result<String, String>,
    profile_arn: Option<&str>,
    access_token: &str,
    client_version: &str,
    versions: &KiroClientVersions,
) -> (result: Result<Vec<(String, String)>, KiroHeaderError>)
    ensures
        match (*auth, *host) {
            (None, _) => result matches Err(error) && error is NoAuthRecord,
            (Some(_), Err(reason)) => result matches Err(KiroHeaderError::NoHost { error })
                && error == reason,
            (Some(auth), Ok(host)) => match auth.machine_id {
                None => result matches Err(error) && error is NoMachineId,
                Some(machine) => result matches Ok(list) && exists|
                    config: KiroHeaderConfig,
                    id: Seq<char>,
                |
                    is_random_uuid(id) && is_mcp_config(
                        config,
                        host@,
                        access_token@,
                        client_version@,
                    ) && header_views(
                        list@,
                    ) == #[trigger] kiro_header_list(auth, config, *versions, machine@, id)
                        + maybe_header(
                        "x-amzn-kiro-profile-arn"@,
                        match profile_arn {
                            Some(arn) => nonempty_trim(arn@),
                            None => None,
                        },
                    ),
            },
        },
{
    let auth = match auth {
        Some(auth) => auth,
        None => return Err(KiroHeaderError::NoAuthRecord),
    };
    let host = match host {
        Ok(host) => host,
        Err(error) => return Err(KiroHeaderError::NoHost { error: error.clone() }),
    };
    let config = KiroHeaderConfig {
        upstream_host: host.as_str(),
        access_token,
        service: KiroAwsService::Streaming,
        client_version,
        sdk_request: "attempt=1; max=3",
        content_type: Some("application/json"),
        accept: None,
        connection_close: false,
        agent_mode: None,
        include_opt_out: false,
    };
    assert(is_mcp_config(config, host@, access_token@, client_version@));
    let mut list = match add_kiro_headers(auth, &config, versions) {
        Ok(list) => list,
        Err(error) => return Err(error),
    };
    let ghost front = header_views(list@);
    let arn = match profile_arn {
        Some(arn) => trimmed_nonempty(arn),
        None => None,
    };
    match &arn {
        Some(arn) => push_maybe(&mut list, "x-amzn-kiro-profile-arn", Some(arn.as_str())),
        None => push_maybe(&mut list, "x-amzn-kiro-profile-arn", None),
    }
    Ok(list)
}

// ---------------------------------------------------------------------------
// Laws
// ---------------------------------------------------------------------------

/// The last header of every call carries the access token.
pub proof fn law_call_is_authorized(
    auth: KiroAuthFacts,
    config: KiroHeaderConfig,
    versions: KiroClientVersions,
    machine: Seq<char>,
    invocation_id: Seq<char>,
)
    ensures
        kiro_header_list(auth, config, versions, machine, invocation_id).last() == (
            "authorization"@,
            "Bearer "@ + config.access_token@,
        ),
{
}

/// The headers that not every call has: each is there exactly where it is asked for.
pub proof fn law_optional_headers_are_there_where_asked_for(
    auth: KiroAuthFacts,
    config: KiroHeaderConfig,
)
    ensures
        optional_headers(auth, config).contains(("connection"@, "close"@))
            <==> config.connection_close,
        optional_headers(auth, config).contains(("TokenType"@, "EXTERNAL_IDP"@))
            <==> auth.auth_method@ == "external_idp"@,
        optional_headers(auth, config).contains(("x-amzn-codewhisperer-optout"@, "true"@))
            <==> config.include_opt_out,
        optional_headers(auth, config).contains(("redirect-for-internal"@, "true"@)) <==> (
        auth.provider matches Some(provider) && lower(trim(provider@)) == lower("internal"@)),
        opt_str(config.content_type) matches Some(value) ==> optional_headers(
            auth,
            config,
        ).contains(("content-type"@, value)),
        opt_str(config.accept) matches Some(value) ==> optional_headers(auth, config).contains(
            ("accept"@, value),
        ),
        opt_str(config.agent_mode) matches Some(value) ==> optional_headers(auth, config).contains(
            ("x-amzn-kiro-agent-mode"@, value),
        ),
{
    reveal_strlit("content-type");
    reveal_strlit("accept");
    reveal_strlit("connection");
    reveal_strlit("x-amzn-kiro-agent-mode");
    reveal_strlit("x-amzn-codewhisperer-optout");
    reveal_strlit("TokenType");
    reveal_strlit("redirect-for-internal");
    assert("content-type"@.len() == 12 && "accept"@.len() == 6 && "connection"@.len() == 10);
    assert("x-amzn-kiro-agent-mode"@.len() == 22 && "x-amzn-codewhisperer-optout"@.len() == 27);
    assert("TokenType"@.len() == 9 && "redirect-for-internal"@.len() == 21);
    lemma_optional_header(auth, config, ("connection"@, "close"@));
    lemma_optional_header(auth, config, ("TokenType"@, "EXTERNAL_IDP"@));
    lemma_optional_header(auth, config, ("x-amzn-codewhisperer-optout"@, "true"@));
    lemma_optional_header(auth, config, ("redirect-for-internal"@, "true"@));
    if let Some(value) = opt_str(config.content_type) {
        lemma_optional_header(auth, config, ("content-type"@, value));
    }
    if let Some(value) = opt_str(config.accept) {
        lemma_optional_header(auth, config, ("accept"@, value));
    }
    if let Some(value) = opt_str(config.agent_mode) {
        lemma_optional_header(auth, config, ("x-amzn-kiro-agent-mode"@, value));
    }
}

proof fn lemma_among(
    a: Seq<(Seq<char>, Seq<char>)>,
    b: Seq<(Seq<char>, Seq<char>)>,
    entry: (Seq<char>, Seq<char>),
)
    ensures
        (a + b).contains(entry) == (a.contains(entry) || b.contains(entry)),
{
    if a.contains(entry) {
        let i = choose|i: int| 0 <= i < a.len() && a[i] == entry;
        assert((a + b)[i] == entry);
    }
    if b.contains(entry) {
        let i = choose|i: int| 0 <= i < b.len() && b[i] == entry;
        assert((a + b)[a.len() + i] == entry);
    }
    if (a + b).contains(entry) {
        let i = choose|i: int| 0 <= i < (a + b).len() && (a + b)[i] == entry;
        if i < a.len() {
            assert(a[i] == entry);
        } else {
            assert(b[i - a.len()] == entry);
        }
    }
}

proof fn lemma_maybe_header(
    name: Seq<char>,
    value: Option<Seq<char>>,
    entry: (Seq<char>, Seq<char>),
)
    ensures
        maybe_header(name, value).contains(entry) == (entry.0 == name && value == Some(entry.1)),
{
    if let Some(text) = value {
        assert(maybe_header(name, value)[0] == (name, text));
    }
}

/// An entry is among the optional headers exactly where one of them is that entry.
proof fn lemma_optional_header(
    auth: KiroAuthFacts,
    config: KiroHeaderConfig,
    entry: (Seq<char>, Seq<char>),
)
    ensures
        optional_headers(auth, config).contains(entry) == {
            ||| entry.0 == "content-type"@ && opt_str(config.content_type) == Some(entry.1)
            ||| entry.0 == "accept"@ && opt_str(config.accept) == Some(entry.1)
            ||| entry == ("connection"@, "close"@) && config.connection_close
            ||| entry.0 == "x-amzn-kiro-agent-mode"@ && opt_str(config.agent_mode) == Some(entry.1)
            ||| entry == ("x-amzn-codewhisperer-optout"@, "true"@) && config.include_opt_out
            ||| entry == ("TokenType"@, "EXTERNAL_IDP"@) && auth.auth_method@ == "external_idp"@
            ||| entry == ("redirect-for-internal"@, "true"@) && is_internal(auth)
        },
{
    let a = maybe_header("content-type"@, opt_str(config.content_type));
    let b = maybe_header("accept"@, opt_str(config.accept));
    let c = flag_header("connection"@, "close"@, config.connection_close);
    let d = maybe_header("x-amzn-kiro-agent-mode"@, opt_str(config.agent_mode));
    let e = flag_header("x-amzn-codewhisperer-optout"@, "true"@, config.include_opt_out);
    let f = flag_header("TokenType"@, "EXTERNAL_IDP"@, auth.auth_method@ == "external_idp"@);
    let g = flag_header("redirect-for-internal"@, "true"@, is_internal(auth));
    lemma_among(a, b, entry);
    lemma_among(a + b, c, entry);
    lemma_among(a + b + c, d, entry);
    lemma_among(a + b + c + d, e, entry);
    lemma_among(a + b + c + d + e, f, entry);
    lemma_among(a + b + c + d + e + f, g, entry);
    lemma_maybe_header("content-type"@, opt_str(config.content_type), entry);
    lemma_maybe_header("accept"@, opt_str(config.accept), entry);
    lemma_maybe_header("connection"@, chosen("close"@, config.connection_close), entry);
    lemma_maybe_header("x-amzn-kiro-agent-mode"@, opt_str(config.agent_mode), entry);
    lemma_maybe_header(
        "x-amzn-codewhisperer-optout"@,
        chosen("true"@, config.include_opt_out),
        entry,
    );
    lemma_maybe_header(
        "TokenType"@,
        chosen("EXTERNAL_IDP"@, auth.auth_method@ == "external_idp"@),
        entry,
    );
    lemma_maybe_header("redirect-for-internal"@, chosen("true"@, is_internal(auth)), entry);
}

spec fn chosen(value: Seq<char>, set: bool) -> Option<Seq<char>> {
    if set {
        Some(value)
    } else {
        None
    }
}

/// Every call names its host, its attempt and who calls, and two calls with different
/// machines never look the same.
pub proof fn law_every_call_says_who_calls(
    auth: KiroAuthFacts,
    config: KiroHeaderConfig,
    versions: KiroClientVersions,
    machine: Seq<char>,
    other: Seq<char>,
    invocation_id: Seq<char>,
)
    ensures
        ({
            let list = kiro_header_list(auth, config, versions, machine, invocation_id);
            &&& list.contains(("host"@, config.upstream_host@))
            &&& list.contains(("amz-sdk-invocation-id"@, invocation_id))
            &&& list.contains(("amz-sdk-request"@, config.sdk_request@))
            &&& list.contains(("authorization"@, "Bearer "@ + config.access_token@))
        }),
        short_agent(config.client_version@, versions.kiro@, machine) == short_agent(
            config.client_version@,
            versions.kiro@,
            other,
        ) ==> machine == other,
{
    let list = kiro_header_list(auth, config, versions, machine, invocation_id);
    let n = optional_headers(auth, config).len() as int;
    let common = common_headers(config, versions, machine, invocation_id);
    assert(list[n + 2] == common[2]);
    assert(list[n + 3] == common[3]);
    assert(list[n + 4] == common[4]);
    assert(list[n + 5] == common[5]);
    let head = "aws-sdk-js/"@ + config.client_version@ + " KiroIDE-"@ + versions.kiro@ + "-"@;
    assert(short_agent(config.client_version@, versions.kiro@, machine).skip(head.len() as int)
        =~= machine);
    assert(short_agent(config.client_version@, versions.kiro@, other).skip(head.len() as int)
        =~= other);
}

/// A call for messages takes events and says how it may be used; a call of a tool does not.
pub proof fn law_the_two_kinds_of_calls_differ(
    generate: KiroHeaderConfig,
    tool: KiroHeaderConfig,
    host: Seq<char>,
    access_token: Seq<char>,
    client_version: Seq<char>,
)
    requires
        is_generate_config(generate, host, access_token, client_version),
        is_mcp_config(tool, host, access_token, client_version),
    ensures
        opt_str(generate.accept) == Some("application/vnd.amazon.eventstream"@),
        opt_str(generate.agent_mode) == Some("vibe"@),
        generate.include_opt_out,
        tool.accept is None,
        tool.agent_mode is None,
        !tool.include_opt_out,
        generate.access_token@ == access_token && tool.access_token@ == access_token,
        generate.upstream_host@ == host && tool.upstream_host@ == host,
        opt_str(generate.content_type) == opt_str(tool.content_type),
{
}

/// Both names of the caller end in its machine, and the long one names the service.
pub proof fn law_the_long_name_names_the_service(
    service: Seq<char>,
    client: Seq<char>,
    kiro: Seq<char>,
    system: Seq<char>,
    node: Seq<char>,
    machine: Seq<char>,
)
    ensures
        ({
            let name = long_agent(service, client, kiro, system, node, machine);
            &&& name.len() >= machine.len()
            &&& name.skip(name.len() - machine.len()) == machine
        }),
        KiroAwsService::Streaming.name() != KiroAwsService::Runtime.name(),
{
    let head = "aws-sdk-js/"@ + client + " ua/2.1 os/"@ + system + " lang/js md/nodejs#"@ + node
        + " api/"@ + service + "#"@ + client + " KiroIDE-"@ + kiro + "-"@;
    let name = long_agent(service, client, kiro, system, node, machine);
    assert(name == head + machine);
    assert((head + machine).skip(head.len() as int) =~= machine);
    reveal_strlit("codewhispererstreaming");
    reveal_strlit("codewhispererruntime");
    assert("codewhispererstreaming"@.len() == 22 && "codewhispererruntime"@.len() == 20);
}

} // verus!
