//! The mails that are sent when a request is granted.

use vstd::prelude::*;
use crate::text::{concat2, decimal, decimal_of, format_text, formatted, opt_str, opt_text,
    same_text, starts_with, text_starts_with, texts, trim_end_char, without_trailing};

verus! {

// ---------------------------------------------------------------------------
// URLs
// ---------------------------------------------------------------------------

/// A parsed URL, `url::Url`.
#[verifier::external_type_specification]
#[verifier::external_body]
pub struct ExUrl(url::Url);

/// What `url::Url::parse` makes of a text, where the text is a URL.
pub uninterp spec fn url_of_text(text: Seq<char>) -> Option<url::Url>;

/// What `url::Url::scheme` gives.
pub uninterp spec fn url_scheme(url: url::Url) -> Seq<char>;

/// What `url::Url::host_str` gives.
pub uninterp spec fn url_host(url: url::Url) -> Option<Seq<char>>;

/// What `url::Url::path` gives.
pub uninterp spec fn url_path(url: url::Url) -> Seq<char>;

/// A URL after `url::Url::set_path`.
pub uninterp spec fn url_with_path(url: url::Url, path: Seq<char>) -> url::Url;

/// A URL after `url::Url::set_query` with nothing.
pub uninterp spec fn url_without_query(url: url::Url) -> url::Url;

/// A URL after `url::Url::set_fragment` with nothing.
pub uninterp spec fn url_without_fragment(url: url::Url) -> url::Url;

/// A URL as a text.
pub uninterp spec fn url_text(url: url::Url) -> Seq<char>;

/// `url::Url::parse`: the URL that a text stands for is the named function of the text.
#[verifier::external_body]
fn parse_url(text: &str) -> (url: Option<url::Url>)
    ensures
        url == url_of_text(text@),
{
    url::Url::parse(text).ok()
}

/// `url::Url::scheme`: the named function of the URL.
#[verifier::external_body]
fn scheme_of(url: &url::Url) -> (scheme: String)
    ensures
        scheme@ == url_scheme(*url),
{
    url.scheme().to_owned()
}

/// `url::Url::host_str`: the named function of the URL.
#[verifier::external_body]
fn host_of(url: &url::Url) -> (host: Option<String>)
    ensures
        opt_text(host) == url_host(*url),
{
    url.host_str().map(str::to_owned)
}

/// `url::Url::path`: the named function of the URL.
#[verifier::external_body]
fn path_of(url: &url::Url) -> (path: String)
    ensures
        path@ == url_path(*url),
{
    url.path().to_owned()
}

/// `url::Url::set_path`: the new URL is the named function of the old one and the path.
#[verifier::external_body]
fn set_path(url: &mut url::Url, path: &str)
    ensures
        *final(url) == url_with_path(*old(url), path@),
{
    url.set_path(path)
}

/// `url::Url::set_query` with nothing: the new URL is the named function of the old one.
#[verifier::external_body]
fn clear_query(url: &mut url::Url)
    ensures
        *final(url) == url_without_query(*old(url)),
{
    url.set_query(None)
}

/// `url::Url::set_fragment` with nothing: the new URL is the named function of the old one.
#[verifier::external_body]
fn clear_fragment(url: &mut url::Url)
    ensures
        *final(url) == url_without_fragment(*old(url)),
{
    url.set_fragment(None)
}

/// The text of a `url::Url`, as `String::from` gives it: the named function of the URL.
#[verifier::external_body]
fn text_of(url: url::Url) -> (text: String)
    ensures
        text@ == url_text(url),
{
    url.into()
}

/// Why a page is no place to link to.
#[derive(Debug, Clone, Copy, PartialEq, Eq, Structural)]
pub enum PageUrlError {
    Unreadable,
    NotHttp,
    NoHost,
}

/// What is wrong with the parts of a page's URL, if anything.
pub open spec fn parts_error(scheme: Seq<char>, host: Option<Seq<char>>) -> Option<PageUrlError> {
    if scheme != "http"@ && scheme != "https"@ {
        Some(PageUrlError::NotHttp)
    } else if host is None {
        Some(PageUrlError::NoHost)
    } else {
        None
    }
}

/// Looks at the parts of a page's URL: it must be an address of the web.
pub fn check_url_parts(scheme: &str, host: Option<&str>) -> (result: Result<(), PageUrlError>)
    ensures
        match result {
            Ok(_) => parts_error(scheme@, opt_str(host)) is None,
            Err(error) => parts_error(scheme@, opt_str(host)) == Some(error),
        },
{
    if !same_text(scheme, "http") && !same_text(scheme, "https") {
        return Err(PageUrlError::NotHttp);
    }
    if host.is_none() {
        return Err(PageUrlError::NoHost);
    }
    Ok(())
}

/// What is wrong with a page's URL, if anything.
pub open spec fn page_error(raw: Seq<char>) -> Option<PageUrlError> {
    match url_of_text(raw) {
        None => Some(PageUrlError::Unreadable),
        Some(url) => parts_error(url_scheme(url), url_host(url)),
    }
}

pub fn validate_frontend_url(raw: &str) -> (result: Result<(), PageUrlError>)
    ensures
        match result {
            Ok(_) => page_error(raw@) is None,
            Err(error) => page_error(raw@) == Some(error),
        },
{
    let url = match parse_url(raw) {
        Some(url) => url,
        None => return Err(PageUrlError::Unreadable),
    };
    let scheme = scheme_of(&url);
    match host_of(&url) {
        Some(host) => check_url_parts(scheme.as_str(), Some(host.as_str())),
        None => check_url_parts(scheme.as_str(), None),
    }
}

/// Another place on the site of a page.
pub open spec fn place_on_site(url: url::Url, path: Seq<char>) -> Seq<char> {
    url_text(url_without_fragment(url_without_query(url_with_path(url, path))))
}

fn move_to(url: url::Url, path: &str) -> (text: String)
    ensures
        text@ == place_on_site(url, path@),
{
    let mut url = url;
    set_path(&mut url, path);
    clear_query(&mut url);
    clear_fragment(&mut url);
    text_of(url)
}

/// The address of the gateway on the site of a page.
pub open spec fn gateway_url(page: Seq<char>) -> Option<Seq<char>> {
    if page_error(page) is Some {
        None
    } else {
        Some(place_on_site(url_of_text(page)->0, "/api/llm-gateway/v1"@))
    }
}

pub fn build_llm_gateway_base_url(frontend_page_url: &str) -> (result: Result<String, PageUrlError>)
    ensures
        match result {
            Ok(url) => gateway_url(frontend_page_url@) == Some(url@),
            Err(error) => page_error(frontend_page_url@) == Some(error),
        },
{
    if let Err(error) = validate_frontend_url(frontend_page_url) {
        return Err(error);
    }
    match parse_url(frontend_page_url) {
        Some(url) => Ok(move_to(url, "/api/llm-gateway/v1")),
        None => Err(PageUrlError::Unreadable),
    }
}

/// The path of the access page, on a site that may live under a prefix.
pub open spec fn access_path(path: Seq<char>) -> Seq<char> {
    if path == "/static_flow"@ || starts_with(path, "/static_flow/"@) {
        "/static_flow/llm-access"@
    } else {
        "/llm-access"@
    }
}

pub fn access_path_for(path: &str) -> (target: &'static str)
    ensures
        target@ == access_path(path@),
{
    if same_text(path, "/static_flow") || text_starts_with(path, "/static_flow/") {
        "/static_flow/llm-access"
    } else {
        "/llm-access"
    }
}

/// The address of the access page on the site of a page.
pub open spec fn access_url(page: Seq<char>) -> Option<Seq<char>> {
    if page_error(page) is Some {
        None
    } else {
        let url = url_of_text(page)->0;
        Some(place_on_site(url, access_path(url_path(url))))
    }
}

pub fn build_llm_access_url(frontend_page_url: &str) -> (result: Result<String, PageUrlError>)
    ensures
        match result {
            Ok(url) => access_url(frontend_page_url@) == Some(url@),
            Err(error) => page_error(frontend_page_url@) == Some(error),
        },
{
    if let Err(error) = validate_frontend_url(frontend_page_url) {
        return Err(error);
    }
    match parse_url(frontend_page_url) {
        Some(url) => {
            let path = path_of(&url);
            Ok(move_to(url, access_path_for(path.as_str())))
        },
        None => Err(PageUrlError::Unreadable),
    }
}

/// The address of the gateway: on the site of the page, else on the configured site, else
/// without a site.
pub fn llm_gateway_base_url(frontend_page_url: Option<&str>, site_base_url: Option<&str>) -> (url:
    String)
    ensures
        url@ == match frontend_page_url {
            Some(page) => match gateway_url(page@) {
                Some(url) => url,
                None => site_gateway(opt_str(site_base_url)),
            },
            None => site_gateway(opt_str(site_base_url)),
        },
{
    if let Some(page) = frontend_page_url {
        if let Ok(url) = build_llm_gateway_base_url(page) {
            return url;
        }
    }
    match site_base_url {
        Some(base) => concat2(without_trailing(base, '/').as_str(), "/api/llm-gateway/v1"),
        None => "/api/llm-gateway/v1".to_owned(),
    }
}

pub open spec fn site_gateway(site_base_url: Option<Seq<char>>) -> Seq<char> {
    match site_base_url {
        Some(base) => trim_end_char(base, '/') + "/api/llm-gateway/v1"@,
        None => "/api/llm-gateway/v1"@,
    }
}

/// The address of the access page, where the page's own address is good.
pub fn llm_access_url(frontend_page_url: Option<&str>) -> (url: Option<String>)
    ensures
        opt_text(url) == match frontend_page_url {
            Some(page) => access_url(page@),
            None => None,
        },
{
    match frontend_page_url {
        Some(page) => match build_llm_access_url(page) {
            Ok(url) => Some(url),
            Err(_) => None,
        },
        None => None,
    }
}

// ---------------------------------------------------------------------------
// Mails
// ---------------------------------------------------------------------------

/// The subject of the mail about a token.
pub const TOKEN_SUBJECT: &'static str = "[StaticFlow] 你的 LLM Token 许愿已通过";

/// The mail about a token.
pub const TOKEN_MAIL: &'static str = "你好，\n\n你的 LLM Token 许愿已经审核通过，下面是已经为你创建好的访问凭证。\n\n## 申请信息\n- Request ID: `{}`\n- 状态: `{}`\n- 申请额度: `{}`\n- 实际发放 Key ID: `{}`\n- Key 名称: {}\n\n## 使用信息\n- Base URL: `{}`\n- API Key: `{}`\n\n## 申请缘由\n\n{}\n\n{}\n\n请妥善保管这个 key；如果后续需要调整额度或重新发放，请直接回复管理员。\n";

/// The subject of the mail about a contribution.
pub const CONTRIBUTION_SUBJECT: &'static str = "[StaticFlow] 你的 Codex 账号贡献已审核通过";

/// The mail about a contribution.
pub const CONTRIBUTION_MAIL: &'static str = "你好，\n\n感谢你贡献 Codex 账号给站点共享池。你的申请已经审核通过，系统已经导入账号并为你创建了一把绑定到该账号路由的新 token。\n\n## 贡献信息\n- Request ID: `{}`\n- 状态: `{}`\n- 贡献账号: `{}`\n- Account ID: {}\n- GitHub ID: {}\n- 发放 Key ID: `{}`\n- Key 名称: {}\n\n## 使用信息\n- Base URL: `{}`\n- API Key: `{}`\n- 路由策略: `fixed`\n- 绑定账号: `{}`\n\n## 你的留言\n\n{}\n\n{}\n\n再次感谢你的贡献。以后如果这个账号需要下线、改名或重新发放 key，请直接联系管理员。\n";

/// The link to the access page.
pub const PAGE_LINK: &'static str = "## 查看页面\n- LLM Access: [{}]({})";

/// A key as it is handed out.
pub struct IssuedKey {
    pub id: String,
    pub name: String,
    pub secret: String,
}

/// A token request that was granted.
pub struct GrantedToken {
    pub request_id: String,
    pub status: String,
    pub requested_quota_billable_limit: u64,
    pub request_reason: String,
    pub frontend_page_url: Option<String>,
}

/// A contribution that was granted.
pub struct GrantedContribution {
    pub request_id: String,
    pub status: String,
    pub account_name: String,
    pub imported_account_name: Option<String>,
    pub account_id: Option<String>,
    pub github_id: Option<String>,
    pub contributor_message: String,
    pub frontend_page_url: Option<String>,
}

/// The link to the access page, where there is an address for it.
pub open spec fn page_link(url: Option<Seq<char>>) -> Seq<char> {
    match url {
        Some(url) => formatted(PAGE_LINK@, seq![url, url]),
        None => Seq::empty(),
    }
}

fn link_of(url: Option<&str>) -> (link: String)
    ensures
        link@ == page_link(opt_str(url)),
{
    match url {
        Some(url) => {
            let mut values: Vec<String> = Vec::new();
            values.push(url.to_owned());
            values.push(url.to_owned());
            assert(texts(values@) =~= seq![url@, url@]);
            format_text(PAGE_LINK, &values)
        },
        None => String::new(),
    }
}

pub open spec fn token_values(
    request: GrantedToken,
    key: IssuedKey,
    gateway: Seq<char>,
    access: Option<Seq<char>>,
) -> Seq<Seq<char>> {
    seq![
        request.request_id@,
        request.status@,
        decimal(request.requested_quota_billable_limit as nat),
        key.id@,
        key.name@,
        gateway,
        key.secret@,
        request.request_reason@,
        page_link(access),
    ]
}

/// The mail about a token. `gateway` and `access` are the addresses that it names.
pub fn token_issued_mail(
    request: &GrantedToken,
    key: &IssuedKey,
    gateway: &str,
    access: Option<&str>,
) -> (mail: String)
    ensures
        mail@ == formatted(TOKEN_MAIL@, token_values(*request, *key, gateway@, opt_str(access))),
{
    let mut values: Vec<String> = Vec::new();
    values.push(request.request_id.clone());
    values.push(request.status.clone());
    values.push(decimal_of(request.requested_quota_billable_limit));
    values.push(key.id.clone());
    values.push(key.name.clone());
    values.push(gateway.to_owned());
    values.push(key.secret.clone());
    values.push(request.request_reason.clone());
    values.push(link_of(access));
    assert(texts(values@) =~= token_values(*request, *key, gateway@, opt_str(access)));
    format_text(TOKEN_MAIL, &values)
}

pub open spec fn contributed_name(request: GrantedContribution) -> Seq<char> {
    match request.imported_account_name {
        Some(name) => name@,
        None => request.account_name@,
    }
}

pub open spec fn or_dash(value: Option<String>) -> Seq<char> {
    match value {
        Some(value) => value@,
        None => "-"@,
    }
}

fn text_or_dash(value: &Option<String>) -> (text: String)
    ensures
        text@ == or_dash(*value),
{
    match value {
        Some(value) => value.clone(),
        None => "-".to_owned(),
    }
}

pub open spec fn contribution_values(
    request: GrantedContribution,
    key: IssuedKey,
    gateway: Seq<char>,
    access: Option<Seq<char>>,
) -> Seq<Seq<char>> {
    seq![
        request.request_id@,
        request.status@,
        contributed_name(request),
        or_dash(request.account_id),
        or_dash(request.github_id),
        key.id@,
        key.name@,
        gateway,
        key.secret@,
        contributed_name(request),
        request.contributor_message@,
        page_link(access),
    ]
}

/// The mail about a contribution. `gateway` and `access` are the addresses that it names.
pub fn contribution_issued_mail(
    request: &GrantedContribution,
    key: &IssuedKey,
    gateway: &str,
    access: Option<&str>,
) -> (mail: String)
    ensures
        mail@ == formatted(
            CONTRIBUTION_MAIL@,
            contribution_values(*request, *key, gateway@, opt_str(access)),
        ),
{
    let name = match &request.imported_account_name {
        Some(name) => name.clone(),
        None => request.account_name.clone(),
    };
    let mut values: Vec<String> = Vec::new();
    values.push(request.request_id.clone());
    values.push(request.status.clone());
    values.push(name.clone());
    values.push(text_or_dash(&request.account_id));
    values.push(text_or_dash(&request.github_id));
    values.push(key.id.clone());
    values.push(key.name.clone());
    values.push(gateway.to_owned());
    values.push(key.secret.clone());
    values.push(name);
    values.push(request.contributor_message.clone());
    values.push(link_of(access));
    assert(texts(values@) =~= contribution_values(*request, *key, gateway@, opt_str(access)));
    format_text(CONTRIBUTION_MAIL, &values)
}

fn page_of(url: &Option<String>) -> (page: Option<&str>)
    ensures
        opt_str(page) == opt_text(*url),
{
    match url {
        Some(url) => Some(url.as_str()),
        None => None,
    }
}

/// The address of the gateway that a mail names.
pub open spec fn mail_gateway(page: Option<Seq<char>>, site: Option<Seq<char>>) -> Seq<char> {
    match page {
        Some(page) => match gateway_url(page) {
            Some(url) => url,
            None => site_gateway(site),
        },
        None => site_gateway(site),
    }
}

/// The address of the access page that a mail names.
pub open spec fn mail_access(page: Option<Seq<char>>) -> Option<Seq<char>> {
    match page {
        Some(page) => access_url(page),
        None => None,
    }
}

/// The subject and the body of the mail about a token. `site_base_url` is the configured
/// site.
pub fn send_user_llm_token_issued_notification(
    request: &GrantedToken,
    key: &IssuedKey,
    site_base_url: Option<&str>,
) -> (mail: (String, String))
    ensures
        mail.0@ == TOKEN_SUBJECT@,
        mail.1@ == formatted(
            TOKEN_MAIL@,
            token_values(
                *request,
                *key,
                mail_gateway(opt_text(request.frontend_page_url), opt_str(site_base_url)),
                mail_access(opt_text(request.frontend_page_url)),
            ),
        ),
{
    let gateway = llm_gateway_base_url(page_of(&request.frontend_page_url), site_base_url);
    let access = llm_access_url(page_of(&request.frontend_page_url));
    let body = token_issued_mail(request, key, gateway.as_str(), page_of(&access));
    (TOKEN_SUBJECT.to_owned(), body)
}

/// The subject and the body of the mail about a contribution. `site_base_url` is the
/// configured site.
pub fn send_user_llm_account_contribution_issued_notification(
    request: &GrantedContribution,
    key: &IssuedKey,
    site_base_url: Option<&str>,
) -> (mail: (String, String))
    ensures
        mail.0@ == CONTRIBUTION_SUBJECT@,
        mail.1@ == formatted(
            CONTRIBUTION_MAIL@,
            contribution_values(
                *request,
                *key,
                mail_gateway(opt_text(request.frontend_page_url), opt_str(site_base_url)),
                mail_access(opt_text(request.frontend_page_url)),
            ),
        ),
{
    let gateway = llm_gateway_base_url(page_of(&request.frontend_page_url), site_base_url);
    let access = llm_access_url(page_of(&request.frontend_page_url));
    let body = contribution_issued_mail(request, key, gateway.as_str(), page_of(&access));
    (CONTRIBUTION_SUBJECT.to_owned(), body)
}

// ---------------------------------------------------------------------------
// Laws
// ---------------------------------------------------------------------------

/// A page is usable exactly where its address can be read, is one of the web and names a
/// host.
pub proof fn law_which_pages_are_usable(raw: Seq<char>)
    ensures
        page_error(raw) is None <==> (url_of_text(raw) matches Some(url) && (url_scheme(url)
            == "http"@ || url_scheme(url) == "https"@) && url_host(url) is Some),
        url_of_text(raw) is None ==> page_error(raw) == Some(PageUrlError::Unreadable),
        url_of_text(raw) matches Some(url) ==> (url_scheme(url) == "ftp"@ ==> page_error(raw)
            == Some(PageUrlError::NotHttp)),
        gateway_url(raw) is Some <==> page_error(raw) is None,
        access_url(raw) is Some <==> page_error(raw) is None,
{
    reveal_strlit("ftp");
    reveal_strlit("http");
    reveal_strlit("https");
    assert("ftp"@.len() == 3 && "http"@.len() == 4 && "https"@.len() == 5);
}

/// The gateway that a mail names is on the site of the page, where one was told that is
/// usable; else under the address of the site, without the slashes at its end; else the bare
/// path.
pub proof fn law_which_gateway_a_mail_names(page: Option<Seq<char>>, site: Option<Seq<char>>)
    ensures
        page matches Some(page) ==> (gateway_url(page) matches Some(url) ==> mail_gateway(
            Some(page),
            site,
        ) == url),
        page is None && site is None ==> mail_gateway(page, site) == "/api/llm-gateway/v1"@,
        page is None ==> (site matches Some(base) ==> (base.len() > 0 && base.last() != '/'
            ==> mail_gateway(page, site) == base + "/api/llm-gateway/v1"@)),
        page matches Some(page) ==> (page_error(page) is Some ==> mail_gateway(Some(page), site)
            == mail_gateway(None, site) && mail_access(Some(page)) is None),
        mail_access(None) is None,
{
}

/// The page of a client is under the prefix of its site where the site has it.
pub proof fn law_the_page_keeps_the_prefix_of_its_site(path: Seq<char>)
    ensures
        path == "/static_flow"@ || starts_with(path, "/static_flow/"@) ==> access_path(path)
            == "/static_flow/llm-access"@,
        path == "/"@ ==> access_path(path) == "/llm-access"@,
        starts_with(access_path(path), "/static_flow"@) <==> path == "/static_flow"@
            || starts_with(path, "/static_flow/"@),
{
    reveal_strlit("/static_flow");
    reveal_strlit("/static_flow/");
    reveal_strlit("/static_flow/llm-access");
    reveal_strlit("/llm-access");
    reveal_strlit("/");
    assert("/"@.len() == 1 && "/static_flow"@.len() == 12 && "/static_flow/"@.len() == 13);
    assert("/llm-access"@.len() == 11);
    assert("/static_flow/llm-access"@.subrange(0, 12) =~= "/static_flow"@);
}

/// A mail about a token tells the key that was issued, under its own place: its id, its name
/// and its secret, with the gateway and the reason.
pub proof fn law_a_token_mail_tells_the_key(
    request: GrantedToken,
    key: IssuedKey,
    gateway: Seq<char>,
    access: Option<Seq<char>>,
)
    ensures
        ({
            let values = token_values(request, key, gateway, access);
            &&& values.len() == 9
            &&& values[0] == request.request_id@
            &&& values[3] == key.id@
            &&& values[4] == key.name@
            &&& values[5] == gateway
            &&& values[6] == key.secret@
            &&& values[7] == request.request_reason@
            &&& access is None ==> values[8].len() == 0
        }),
{
}

/// A mail about a contribution tells the account that it became, by the name under which it
/// was imported where there is one, and the key that was issued for it.
pub proof fn law_a_contribution_mail_tells_account_and_key(
    request: GrantedContribution,
    key: IssuedKey,
    gateway: Seq<char>,
    access: Option<Seq<char>>,
)
    ensures
        ({
            let values = contribution_values(request, key, gateway, access);
            &&& values.len() == 12
            &&& request.imported_account_name matches Some(name) ==> values[2] == name@
                && values[9] == name@
            &&& request.imported_account_name is None ==> values[2] == request.account_name@
                && values[9] == request.account_name@
            &&& request.account_id is None ==> values[3] == "-"@
            &&& request.github_id matches Some(id) ==> values[4] == id@
            &&& values[5] == key.id@
            &&& values[6] == key.name@
            &&& values[7] == gateway
            &&& values[8] == key.secret@
            &&& values[10] == request.contributor_message@
        }),
{
}

} // verus!
