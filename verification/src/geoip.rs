//! Where a request comes from.

use vstd::prelude::*;
use crate::json::{parse_bytes, parsed_bytes, Json, JsonView};
use crate::text::{clone_opt, concat2, concat3, contains, ends_with, eq_ignore_case, lower, lowered,
    nonempty_trim, opt_str, opt_text, parse_number, parse_unsigned, replace, replaced,
    same_ignore_case, same_text, strs, text_contains, text_ends_with, trim, trimmed,
    trimmed_nonempty};

verus! {

/// The usual place of the database.
pub const DEFAULT_GEOIP_DB_PATH: &'static str =
    "/var/lib/staticflow/llm-access/geoip/GeoLite2-City.mmdb";

/// Where the database is fetched from.
pub const DEFAULT_GEOIP_DB_URL: &'static str =
    "https://cdn.jsdelivr.net/npm/geolite2-city/GeoLite2-City.mmdb.gz";

/// The service that is asked where the database knows nothing.
pub const DEFAULT_GEOIP_FALLBACK_API_URL: &'static str = "https://ipwho.is/{ip}";

// ---------------------------------------------------------------------------
// Settings
// ---------------------------------------------------------------------------

/// What the environment says.
pub struct GeoEnvironment<'a> {
    pub db_path: Option<&'a str>,
    pub db_url: Option<&'a str>,
    pub auto_download: Option<&'a str>,
    pub fallback_api: Option<&'a str>,
    pub fallback_api_url: Option<&'a str>,
    pub require_region_detail: Option<&'a str>,
    pub timeout_seconds: Option<&'a str>,
    pub proxy_url: Option<&'a str>,
}

/// How regions are found.
pub struct GeoIpSettings {
    pub db_path: String,
    pub db_url: String,
    pub auto_download: bool,
    pub fallback_api_enabled: bool,
    pub fallback_api_url: String,
    pub require_region_detail: bool,
    pub timeout_seconds: u64,
    pub proxy_url: Option<String>,
}

pub fn default_geoip_db_path() -> (path: String)
    ensures
        path@ == DEFAULT_GEOIP_DB_PATH@,
{
    DEFAULT_GEOIP_DB_PATH.to_owned()
}

/// A setting that is not blank, without the blanks around it.
pub open spec fn setting(value: Option<Seq<char>>) -> Option<Seq<char>> {
    match value {
        Some(value) => nonempty_trim(value),
        None => None,
    }
}

fn setting_of(value: Option<&str>) -> (result: Option<String>)
    ensures
        opt_text(result) == setting(opt_str(value)),
{
    match value {
        Some(value) => trimmed_nonempty(value),
        None => None,
    }
}

pub open spec fn setting_or(value: Option<Seq<char>>, default: Seq<char>) -> Seq<char> {
    match setting(value) {
        Some(value) => value,
        None => default,
    }
}

fn setting_or_default(value: Option<&str>, default: &str) -> (result: String)
    ensures
        result@ == setting_or(opt_str(value), default@),
{
    match setting_of(value) {
        Some(value) => value,
        None => default.to_owned(),
    }
}

pub open spec fn says_yes(value: Seq<char>) -> bool {
    let word = lower(trim(value));
    word == "1"@ || word == "true"@ || word == "yes"@ || word == "on"@
}

pub open spec fn switch(value: Option<Seq<char>>, default: bool) -> bool {
    match value {
        Some(value) => says_yes(value),
        None => default,
    }
}

/// A switch of the environment.
pub fn parse_bool_env(value: Option<&str>, default_value: bool) -> (result: bool)
    ensures
        result == switch(opt_str(value), default_value),
{
    match value {
        Some(value) => {
            let word = lowered(trimmed(value).as_str());
            same_text(word.as_str(), "1") || same_text(word.as_str(), "true") || same_text(
                word.as_str(),
                "yes",
            ) || same_text(word.as_str(), "on")
        },
        None => default_value,
    }
}

/// The longest wait for an answer in seconds: at least three.
pub open spec fn wait_seconds(value: Option<Seq<char>>) -> nat {
    let told = match value {
        Some(value) => parse_unsigned(value, u64::MAX as nat),
        None => None,
    };
    match told {
        Some(seconds) => if seconds < 3 {
            3
        } else {
            seconds
        },
        None => 120,
    }
}

fn wait_of(value: Option<&str>) -> (seconds: u64)
    ensures
        seconds == wait_seconds(opt_str(value)),
{
    let told: Option<u64> = match value {
        Some(value) => parse_number(value, u64::MAX),
        None => None,
    };
    match told {
        Some(seconds) => if seconds < 3 {
            3
        } else {
            seconds
        },
        None => 120,
    }
}

pub open spec fn are_settings(settings: GeoIpSettings, env: GeoEnvironment) -> bool {
    &&& settings.db_path@ == setting_or(opt_str(env.db_path), DEFAULT_GEOIP_DB_PATH@)
    &&& settings.db_url@ == setting_or(opt_str(env.db_url), DEFAULT_GEOIP_DB_URL@)
    &&& settings.auto_download == switch(opt_str(env.auto_download), true)
    &&& settings.fallback_api_enabled == switch(opt_str(env.fallback_api), true)
    &&& settings.fallback_api_url@ == setting_or(
        opt_str(env.fallback_api_url),
        DEFAULT_GEOIP_FALLBACK_API_URL@,
    )
    &&& settings.require_region_detail == switch(opt_str(env.require_region_detail), true)
    &&& settings.timeout_seconds == wait_seconds(opt_str(env.timeout_seconds))
    &&& opt_text(settings.proxy_url) == setting(opt_str(env.proxy_url))
}

// ---------------------------------------------------------------------------
// Regions
// ---------------------------------------------------------------------------

/// A place.
pub struct GeoRegion {
    pub country: String,
    pub subdivision: Option<String>,
    pub city: Option<String>,
}

pub ghost struct RegionView {
    pub country: Seq<char>,
    pub subdivision: Option<Seq<char>>,
    pub city: Option<Seq<char>>,
}

impl View for GeoRegion {
    type V = RegionView;

    open spec fn view(&self) -> RegionView {
        RegionView {
            country: self.country@,
            subdivision: opt_text(self.subdivision),
            city: opt_text(self.city),
        }
    }
}

pub open spec fn opt_region(region: Option<GeoRegion>) -> Option<RegionView> {
    match region {
        Some(region) => Some(region@),
        None => None,
    }
}

pub open spec fn means_nothing(word: Seq<char>) -> bool {
    word == "unknown"@ || word == "n/a"@ || word == "na"@ || word == "none"@ || word == "null"@
        || word == "-"@
}

/// The name of a place, where the text is one.
pub open spec fn component(value: Seq<char>) -> Option<Seq<char>> {
    match nonempty_trim(value) {
        Some(name) => if means_nothing(lower(name)) {
            None
        } else {
            Some(name)
        },
        None => None,
    }
}

pub open spec fn opt_component(value: Option<Seq<char>>) -> Option<Seq<char>> {
    match value {
        Some(value) => component(value),
        None => None,
    }
}

pub fn normalize_geo_component(value: Option<String>) -> (result: Option<String>)
    ensures
        opt_text(result) == opt_component(opt_text(value)),
{
    let value = match value {
        Some(value) => value,
        None => return None,
    };
    let name = match trimmed_nonempty(value.as_str()) {
        Some(name) => name,
        None => return None,
    };
    let word = lowered(name.as_str());
    let word = word.as_str();
    if same_text(word, "unknown") || same_text(word, "n/a") || same_text(word, "na") || same_text(
        word,
        "none",
    ) || same_text(word, "null") || same_text(word, "-") {
        return None;
    }
    Some(name)
}

/// The names of a database entry.
pub struct GeoCity {
    pub country_chinese: Option<String>,
    pub country_english: Option<String>,
    pub country_code: Option<String>,
    pub registered_chinese: Option<String>,
    pub registered_english: Option<String>,
    pub registered_code: Option<String>,
    pub subdivision_chinese: Option<String>,
    pub subdivision_english: Option<String>,
    pub city_chinese: Option<String>,
    pub city_english: Option<String>,
}

pub open spec fn either<T>(a: Option<T>, b: Option<T>) -> Option<T> {
    match a {
        Some(_) => a,
        None => b,
    }
}

fn either_of(a: Option<String>, b: Option<String>) -> (result: Option<String>)
    ensures
        opt_text(result) == either(opt_text(a), opt_text(b)),
{
    match a {
        Some(a) => Some(a),
        None => b,
    }
}

/// The country that an entry names: its own names first, those of the registration next,
/// the codes last.
pub open spec fn named_country(city: GeoCity) -> Option<Seq<char>> {
    either(
        opt_text(city.country_chinese),
        either(
            opt_text(city.country_english),
            either(
                opt_text(city.registered_chinese),
                either(
                    opt_text(city.registered_english),
                    either(opt_text(city.country_code), opt_text(city.registered_code)),
                ),
            ),
        ),
    )
}

/// The place of a database entry; without a country it is none.
pub open spec fn city_region(city: GeoCity) -> Option<RegionView> {
    match opt_component(named_country(city)) {
        Some(country) => Some(
            RegionView {
                country,
                subdivision: either(
                    opt_text(city.subdivision_chinese),
                    opt_text(city.subdivision_english),
                ),
                city: either(opt_text(city.city_chinese), opt_text(city.city_english)),
            },
        ),
        None => None,
    }
}

pub fn build_region_from_city(city: GeoCity) -> (region: Option<GeoRegion>)
    ensures
        opt_region(region) == city_region(city),
{
    let code = either_of(city.country_code, city.registered_code);
    let registered = either_of(city.registered_chinese, either_of(city.registered_english, code));
    let named = either_of(city.country_chinese, either_of(city.country_english, registered));
    match normalize_geo_component(named) {
        Some(country) => Some(
            GeoRegion {
                country,
                subdivision: either_of(city.subdivision_chinese, city.subdivision_english),
                city: either_of(city.city_chinese, city.city_english),
            },
        ),
        None => None,
    }
}

/// The first of some members that names a place.
pub open spec fn first_component(value: JsonView, keys: Seq<Seq<char>>) -> Option<Seq<char>>
    decreases keys.len(),
{
    if keys.len() == 0 {
        None
    } else {
        match opt_component(value.get_str(keys[0])) {
            Some(name) => Some(name),
            None => first_component(value, keys.drop_first()),
        }
    }
}

pub fn read_first_non_empty(value: &Json, keys: &[&str]) -> (result: Option<String>)
    ensures
        opt_text(result) == first_component(value@, strs(keys@)),
{
    let ghost all = strs(keys@);
    let mut i: usize = 0;
    assert(all.skip(0) =~= all);
    while i < keys.len()
        invariant
            i <= keys.len(),
            all == strs(keys@),
            first_component(value@, all) == first_component(value@, all.skip(i as int)),
        decreases keys.len() - i,
    {
        assert(all.skip(i as int).drop_first() =~= all.skip(i + 1));
        assert(all.skip(i as int)[0] == keys@[i as int]@);
        if let Some(candidate) = value.get_str(keys[i]) {
            if let Some(name) = normalize_geo_component(Some(candidate.to_owned())) {
                return Some(name);
            }
        }
        i += 1;
    }
    None
}

/// The service says that it found nothing.
pub open spec fn says_failure(value: JsonView) -> bool {
    ||| (value.get("success"@) matches Some(success) && (success.as_bool() == Some(false) || (
    success.as_str() matches Some(word) && eq_ignore_case(word, "fail"@))))
    ||| (value.get_str("status"@) matches Some(word) && !eq_ignore_case(word, "success"@))
}

pub open spec fn country_members() -> Seq<Seq<char>> {
    seq!["country"@, "country_name"@, "countryCode"@, "country_code"@]
}

pub open spec fn subdivision_members() -> Seq<Seq<char>> {
    seq!["regionName"@, "region_name"@, "region"@, "state"@, "province"@, "subdivision"@]
}

pub open spec fn city_members() -> Seq<Seq<char>> {
    seq!["city"@, "district"@, "town"@]
}

/// The place that the service answers with.
pub open spec fn answered_region(value: JsonView) -> Option<RegionView> {
    if says_failure(value) {
        None
    } else {
        match first_component(value, country_members()) {
            Some(country) => Some(
                RegionView {
                    country,
                    subdivision: first_component(value, subdivision_members()),
                    city: first_component(value, city_members()),
                },
            ),
            None => None,
        }
    }
}

pub fn region_of_answer(value: &Json) -> (region: Option<GeoRegion>)
    ensures
        opt_region(region) == answered_region(value@),
{
    if let Some(success) = value.get("success") {
        if let Some(flag) = success.as_bool() {
            if !flag {
                return None;
            }
        }
        if let Some(word) = success.as_str() {
            if same_ignore_case(word, "fail") {
                return None;
            }
        }
    }
    if let Some(word) = value.get_str("status") {
        if !same_ignore_case(word, "success") {
            return None;
        }
    }
    let country_keys = ["country", "country_name", "countryCode", "country_code"];
    let subdivision_keys = [
        "regionName",
        "region_name",
        "region",
        "state",
        "province",
        "subdivision",
    ];
    let city_keys = ["city", "district", "town"];
    assert(strs(country_keys@) =~= country_members());
    assert(strs(subdivision_keys@) =~= subdivision_members());
    assert(strs(city_keys@) =~= city_members());
    let country = match read_first_non_empty(value, &country_keys) {
        Some(country) => country,
        None => return None,
    };
    let subdivision = read_first_non_empty(value, &subdivision_keys);
    let city = read_first_non_empty(value, &city_keys);
    Some(GeoRegion { country, subdivision, city })
}

/// Reads the answer of the service; an answer that is no JSON is an error.
pub fn lookup_region_via_fallback(body: &[u8]) -> (result: Result<Option<GeoRegion>, &'static str>)
    ensures
        match result {
            Ok(region) => parsed_bytes(body@) matches Some(value) && opt_region(region)
                == answered_region(value),
            Err(message) => parsed_bytes(body@) is None && message@
                == "failed to decode geoip fallback response json"@,
        },
{
    match parse_bytes(body) {
        Some(value) => Ok(region_of_answer(&value)),
        None => Err("failed to decode geoip fallback response json"),
    }
}

/// The names that make up a region: a city of the name of its subdivision is left out.
pub open spec fn told_city(subdivision: Option<Seq<char>>, city: Option<Seq<char>>) -> Option<
    Seq<char>,
> {
    match (subdivision, city) {
        (Some(sub), Some(name)) => if eq_ignore_case(sub, name) {
            None
        } else {
            city
        },
        _ => city,
    }
}

pub open spec fn place_text(
    country: Seq<char>,
    subdivision: Option<Seq<char>>,
    city: Option<Seq<char>>,
) -> Seq<char> {
    let upper = match subdivision {
        Some(sub) => country + "/"@ + sub,
        None => country,
    };
    match city {
        Some(city) => upper + "/"@ + city,
        None => upper,
    }
}

/// A place as it is recorded; where detail is required, a mere country is not recorded.
pub open spec fn region_text(region: RegionView, require_detail: bool) -> Option<Seq<char>> {
    let subdivision = opt_component(region.subdivision);
    let city = told_city(subdivision, opt_component(region.city));
    match component(region.country) {
        None => None,
        Some(country) => if require_detail && subdivision is None && city is None {
            None
        } else {
            Some(place_text(country, subdivision, city))
        },
    }
}

pub fn format_region(region: &GeoRegion, require_region_detail: bool) -> (text: Option<String>)
    ensures
        opt_text(text) == region_text(region@, require_region_detail),
{
    let country = match normalize_geo_component(Some(region.country.clone())) {
        Some(country) => country,
        None => return None,
    };
    let subdivision = normalize_geo_component(clone_opt(&region.subdivision));
    let mut city = normalize_geo_component(clone_opt(&region.city));
    let mut repeated = false;
    if let Some(sub) = &subdivision {
        if let Some(name) = &city {
            repeated = same_ignore_case(sub.as_str(), name.as_str());
        }
    }
    if repeated {
        city = None;
    }
    if require_region_detail && subdivision.is_none() && city.is_none() {
        return None;
    }
    let upper = match subdivision {
        Some(sub) => concat3(country.as_str(), "/", sub.as_str()),
        None => country,
    };
    match city {
        Some(city) => Some(concat3(upper.as_str(), "/", city.as_str())),
        None => Some(upper),
    }
}

// ---------------------------------------------------------------------------
// Addresses
// ---------------------------------------------------------------------------

/// The address of a client.
#[derive(Debug, Clone, Copy, PartialEq, Eq)]
pub enum IpAddress {
    /// The four bytes of a short address.
    V4(u8, u8, u8, u8),
    /// The bits of a long address.
    V6(u128),
}

/// The first sixteen bits of a long address.
pub open spec fn first_segment(bits: u128) -> int {
    bits as int / 0x1_0000_0000_0000_0000_0000_0000_0000
}

/// An address of a local network.
pub open spec fn is_local(ip: IpAddress) -> bool {
    match ip {
        IpAddress::V4(a, b, _, _) => a == 127 || a == 10 || (a == 172 && 16 <= b <= 31) || (a
            == 192 && b == 168) || (a == 169 && b == 254),
        IpAddress::V6(bits) => bits == 1 || 0xfc00 <= first_segment(bits) <= 0xfdff || 0xfe80
            <= first_segment(bits) <= 0xfebf,
    }
}

pub fn is_private_or_loopback_ip(ip: IpAddress) -> (result: bool)
    ensures
        result == is_local(ip),
{
    match ip {
        IpAddress::V4(a, b, _, _) => a == 127 || a == 10 || (a == 172 && 16 <= b && b <= 31) || (a
            == 192 && b == 168) || (a == 169 && b == 254),
        IpAddress::V6(bits) => {
            let segment: u128 = bits / 0x1_0000_0000_0000_0000_0000_0000_0000;
            bits == 1 || (0xfc00 <= segment && segment <= 0xfdff) || (0xfe80 <= segment && segment
                <= 0xfebf)
        },
    }
}

/// The address under which the service is asked.
pub open spec fn fallback_url(template: Seq<char>, ip: Seq<char>) -> Seq<char> {
    if contains(template, "{ip}"@) {
        replace(template, "{ip}"@, ip)
    } else if ends_with(template, "/"@) {
        template + ip
    } else {
        template + "/"@ + ip
    }
}

pub fn build_fallback_url(template: &str, ip: &str) -> (url: String)
    ensures
        url@ == fallback_url(template@, ip@),
{
    proof {
        reveal_strlit("{ip}");
    }
    if text_contains(template, "{ip}") {
        replaced(template, "{ip}", ip)
    } else if text_ends_with(template, "/") {
        concat2(template, ip)
    } else {
        concat3(template, "/", ip)
    }
}

// ---------------------------------------------------------------------------
// Finding a region
// ---------------------------------------------------------------------------

/// Finds regions, or does not.
pub enum GeoIpResolver {
    Lookup(GeoIpSettings),
    Disabled,
}

/// What has become known of a request's address.
pub enum RegionEvent {
    /// The address itself, where it is one.
    Address(Option<IpAddress>),
    /// What the database knows of it.
    Local(Option<GeoRegion>),
    /// What the service knows of it.
    Fallback(Option<GeoRegion>),
}

/// What is to be done next.
pub enum RegionStep {
    /// The region is this.
    Known(String),
    /// Look the address up in the database.
    LookUp,
    /// Ask the service.
    Ask,
}

pub ghost enum RegionStepView {
    Known(Seq<char>),
    LookUp,
    Ask,
}

impl View for RegionStep {
    type V = RegionStepView;

    open spec fn view(&self) -> RegionStepView {
        match *self {
            RegionStep::Known(region) => RegionStepView::Known(region@),
            RegionStep::LookUp => RegionStepView::LookUp,
            RegionStep::Ask => RegionStepView::Ask,
        }
    }
}

pub open spec fn formatted_region(region: Option<GeoRegion>, require_detail: bool) -> Option<
    Seq<char>,
> {
    match region {
        Some(region) => region_text(region@, require_detail),
        None => None,
    }
}

pub open spec fn next_region_step(resolver: GeoIpResolver, event: RegionEvent) -> RegionStepView {
    match resolver {
        GeoIpResolver::Disabled => RegionStepView::Known("Unknown"@),
        GeoIpResolver::Lookup(settings) => match event {
            RegionEvent::Address(None) => RegionStepView::Known("Unknown"@),
            RegionEvent::Address(Some(ip)) => if is_local(ip) {
                RegionStepView::Known("LAN"@)
            } else {
                RegionStepView::LookUp
            },
            RegionEvent::Local(region) => match formatted_region(
                region,
                settings.require_region_detail,
            ) {
                Some(text) => RegionStepView::Known(text),
                None => if settings.fallback_api_enabled {
                    RegionStepView::Ask
                } else {
                    RegionStepView::Known("Unknown"@)
                },
            },
            RegionEvent::Fallback(region) => match formatted_region(
                region,
                settings.require_region_detail,
            ) {
                Some(text) => RegionStepView::Known(text),
                None => RegionStepView::Known("Unknown"@),
            },
        },
    }
}

/// What the database file needs.
#[derive(Debug, PartialEq, Eq)]
pub enum DbFileStep {
    /// Nothing: it is there.
    Ready,
    /// It must be fetched.
    Download,
    /// It is missing and must not be fetched.
    Missing(String),
}

impl GeoIpResolver {
    /// Reads the environment.
    pub fn from_env(env: &GeoEnvironment) -> (resolver: Self)
        ensures
            resolver matches GeoIpResolver::Lookup(settings) && are_settings(settings, *env),
    {
        GeoIpResolver::Lookup(
            GeoIpSettings {
                db_path: match setting_of(env.db_path) {
                    Some(path) => path,
                    None => default_geoip_db_path(),
                },
                db_url: setting_or_default(env.db_url, DEFAULT_GEOIP_DB_URL),
                auto_download: parse_bool_env(env.auto_download, true),
                fallback_api_enabled: parse_bool_env(env.fallback_api, true),
                fallback_api_url: setting_or_default(
                    env.fallback_api_url,
                    DEFAULT_GEOIP_FALLBACK_API_URL,
                ),
                require_region_detail: parse_bool_env(env.require_region_detail, true),
                timeout_seconds: wait_of(env.timeout_seconds),
                proxy_url: setting_of(env.proxy_url),
            },
        )
    }

    /// One that finds nothing.
    pub fn disabled() -> (resolver: Self)
        ensures
            resolver is Disabled,
    {
        GeoIpResolver::Disabled
    }

    /// One step towards the region of a request.
    pub fn resolve_region(&self, event: &RegionEvent) -> (step: RegionStep)
        ensures
            step@ == next_region_step(*self, *event),
    {
        let settings = match self {
            GeoIpResolver::Lookup(settings) => settings,
            GeoIpResolver::Disabled => return RegionStep::Known("Unknown".to_owned()),
        };
        match event {
            RegionEvent::Address(None) => RegionStep::Known("Unknown".to_owned()),
            RegionEvent::Address(Some(ip)) => if is_private_or_loopback_ip(*ip) {
                RegionStep::Known("LAN".to_owned())
            } else {
                RegionStep::LookUp
            },
            RegionEvent::Local(region) => {
                if let Some(region) = region {
                    if let Some(text) = format_region(region, settings.require_region_detail) {
                        return RegionStep::Known(text);
                    }
                }
                if settings.fallback_api_enabled {
                    RegionStep::Ask
                } else {
                    RegionStep::Known("Unknown".to_owned())
                }
            },
            RegionEvent::Fallback(region) => {
                if let Some(region) = region {
                    if let Some(text) = format_region(region, settings.require_region_detail) {
                        return RegionStep::Known(text);
                    }
                }
                RegionStep::Known("Unknown".to_owned())
            },
        }
    }
}

pub open spec fn missing_db_message(path: Seq<char>) -> Seq<char> {
    "geoip db missing at "@ + path + " and auto download is disabled"@
}

impl GeoIpSettings {
    /// What to do about the database file.
    pub fn ensure_db_file(&self, exists: bool) -> (step: DbFileStep)
        ensures
            match step {
                DbFileStep::Ready => exists,
                DbFileStep::Download => !exists && self.auto_download,
                DbFileStep::Missing(message) => !exists && !self.auto_download && message@
                    == missing_db_message(self.db_path@),
            },
    {
        if exists {
            DbFileStep::Ready
        } else if self.auto_download {
            DbFileStep::Download
        } else {
            DbFileStep::Missing(
                concat3(
                    "geoip db missing at ",
                    self.db_path.as_str(),
                    " and auto download is disabled",
                ),
            )
        }
    }
}

/// What `flate2::read::GzDecoder` reads out of bytes to their end, where it can.
pub uninterp spec fn gunzipped(bytes: Seq<u8>) -> Option<Seq<u8>>;

/// `flate2::read::GzDecoder`, read to its end: the bytes are the named function of the
/// compressed bytes; where reading fails there are none.
#[verifier::external_body]
fn gunzip(bytes: &[u8]) -> (result: Option<Vec<u8>>)
    ensures
        crate::json::opt_bytes(result) == gunzipped(bytes@),
{
    let mut decoder = flate2::read::GzDecoder::new(bytes);
    let mut output = Vec::new();
    std::io::Read::read_to_end(&mut decoder, &mut output).ok()?;
    Some(output)
}

/// Unpacks the database that was fetched.
pub fn decompress_geoip_db(compressed: &[u8]) -> (result: Result<Vec<u8>, &'static str>)
    ensures
        match result {
            Ok(data) => gunzipped(compressed@) == Some(data@),
            Err(message) => gunzipped(compressed@) is None && message@
                == "failed to decompress geoip db"@,
        },
{
    match gunzip(compressed) {
        Some(data) => Ok(data),
        None => Err("failed to decompress geoip db"),
    }
}

// ---------------------------------------------------------------------------
// Laws
// ---------------------------------------------------------------------------

/// A local address is answered at once: neither the database nor the service learns of it.
pub proof fn law_local_addresses_stay_here(settings: GeoIpSettings, ip: IpAddress)
    requires
        is_local(ip),
    ensures
        next_region_step(
            GeoIpResolver::Lookup(settings),
            RegionEvent::Address(Some(ip)),
        ) == RegionStepView::Known("LAN"@),
{
}

/// The search ends: after an answer of the service, or of the database where the service is
/// off, the region is known.
pub proof fn law_region_search_ends(settings: GeoIpSettings, region: Option<GeoRegion>)
    ensures
        next_region_step(GeoIpResolver::Lookup(settings), RegionEvent::Fallback(region)) is Known,
        !settings.fallback_api_enabled ==> next_region_step(
            GeoIpResolver::Lookup(settings),
            RegionEvent::Local(region),
        ) is Known,
{
}

/// A switch is on for the four words that mean yes, however they are written, off for every
/// other, and as the default says where nothing is set.
pub proof fn law_what_turns_a_switch_on(value: Seq<char>, default: bool)
    ensures
        lower(trim(value)) == "1"@ || lower(trim(value)) == "true"@ || lower(trim(value)) == "yes"@
            || lower(trim(value)) == "on"@ <==> switch(Some(value), default),
        switch(None, default) == default,
{
}

/// The time to wait is what was set, three seconds at least, and two minutes where nothing
/// legible was.
pub proof fn law_how_long_an_answer_is_waited_for(value: Seq<char>, seconds: nat)
    ensures
        wait_seconds(Some(value)) >= 3,
        wait_seconds(None) == 120,
        parse_unsigned(value, u64::MAX as nat) == Some(seconds) && seconds >= 3 ==> wait_seconds(
            Some(value),
        ) == seconds,
        parse_unsigned(value, u64::MAX as nat) == Some(seconds) && seconds < 3 ==> wait_seconds(
            Some(value),
        ) == 3,
        parse_unsigned(value, u64::MAX as nat) is None ==> wait_seconds(Some(value)) == 120,
{
}

/// A setting that is blank counts as not set.
pub proof fn law_blank_settings_are_not_set(value: Seq<char>, default: Seq<char>)
    ensures
        trim(value).len() > 0 ==> setting_or(Some(value), default) == trim(value),
        trim(value).len() == 0 ==> setting_or(Some(value), default) == default,
        setting_or(None, default) == default,
{
}

/// A name that is blank, or a word for nothing, names no place; any other does, without the
/// space around it.
pub proof fn law_which_names_name_a_place(value: Seq<char>)
    ensures
        trim(value).len() == 0 ==> component(value) is None,
        lower(trim(value)) == "unknown"@ || lower(trim(value)) == "n/a"@ || lower(trim(value))
            == "null"@ || lower(trim(value)) == "none"@ || lower(trim(value)) == "na"@ || lower(
            trim(value),
        ) == "-"@ ==> component(value) is None,
        trim(value).len() > 0 && lower(trim(value)) != "unknown"@ && lower(trim(value)) != "n/a"@
            && lower(trim(value)) != "null"@ && lower(trim(value)) != "none"@ && lower(trim(value))
            != "na"@ && lower(trim(value)) != "-"@ ==> component(value) == Some(trim(value)),
{
}

/// A region is told from the country down, each part behind a slash; a city that is named
/// like its subdivision is told once. Without a country there is nothing to tell, and where
/// more is asked for than the country, neither without more.
pub proof fn law_how_a_region_is_told(region: RegionView, require_detail: bool)
    ensures
        component(region.country) is None ==> region_text(region, require_detail) is None,
        component(region.country) matches Some(country) ==> (opt_component(region.subdivision) is None
            && opt_component(region.city) is None ==> region_text(region, require_detail) == (
        if require_detail {
            None
        } else {
            Some(country)
        })),
        component(region.country) matches Some(country) ==> (opt_component(
            region.subdivision,
        ) matches Some(sub) ==> (opt_component(region.city) is None ==> region_text(
            region,
            require_detail,
        ) == Some(country + "/"@ + sub))),
        component(region.country) matches Some(country) ==> (opt_component(
            region.subdivision,
        ) matches Some(sub) ==> (opt_component(region.city) matches Some(city) ==> (
        !eq_ignore_case(sub, city) ==> region_text(region, require_detail) == Some(
            country + "/"@ + sub + "/"@ + city,
        )))),
        component(region.country) matches Some(country) ==> (opt_component(
            region.subdivision,
        ) matches Some(sub) ==> (opt_component(region.city) matches Some(city) ==> (
        eq_ignore_case(sub, city) ==> region_text(region, require_detail) == Some(
            country + "/"@ + sub,
        )))),
        component(region.country) matches Some(country) ==> (opt_component(
            region.subdivision,
        ) is None ==> (opt_component(region.city) matches Some(city) ==> region_text(
            region,
            require_detail,
        ) == Some(country + "/"@ + city))),
{
}

/// The country of a record is the one that its own names give, before those of its register,
/// and names before codes.
pub proof fn law_which_name_a_country_has(city: GeoCity)
    ensures
        city.country_chinese matches Some(name) ==> named_country(city) == Some(name@),
        city.country_chinese is None ==> (city.country_english matches Some(name) ==> named_country(
            city,
        ) == Some(name@)),
        city.country_chinese is None && city.country_english is None && city.registered_chinese
            is None && city.registered_english is None ==> (city.country_code matches Some(code)
            ==> named_country(city) == Some(code@)),
        city_region(city) matches Some(region) ==> (city.city_chinese matches Some(name)
            ==> region.city == Some(name@)),
        city_region(city) matches Some(region) ==> (city.city_chinese is None ==> region.city
            == opt_text(city.city_english)),
        city_region(city) matches Some(region) ==> (city.subdivision_chinese matches Some(name)
            ==> region.subdivision == Some(name@)),
        named_country(city) is None ==> city_region(city) is None,
{
}

/// An answer that speaks of a failure tells no region, and neither does one that names no
/// country.
pub proof fn law_failed_answers_tell_no_region(value: JsonView)
    ensures
        value.get("success"@) == Some(JsonView::Bool(false)) ==> answered_region(value) is None,
        value.get_str("status"@) == Some("fail"@) ==> answered_region(value) is None,
        value.get("country"@) is None && value.get("country_name"@) is None && value.get(
            "countryCode"@,
        ) is None && value.get("country_code"@) is None ==> answered_region(value) is None,
{
    reveal_with_fuel(first_component, 5);
    let members = country_members();
    assert(members.drop_first() =~= seq!["country_name"@, "countryCode"@, "country_code"@]);
    assert(members.drop_first().drop_first() =~= seq!["countryCode"@, "country_code"@]);
    assert(members.drop_first().drop_first().drop_first() =~= seq!["country_code"@]);
    assert(members.drop_first().drop_first().drop_first().drop_first() =~= Seq::<
        Seq<char>,
    >::empty());
    reveal_strlit("fail");
    reveal_strlit("success");
    if value.get_str("status"@) == Some("fail"@) {
        assert("fail"@.len() == 4 && "success"@.len() == 7);
        assert(lower("fail"@).len() == 4 && lower("success"@).len() == 7);
    }
}

/// What an address leads to: a local one is told at once, any other is looked up; what is
/// found is told, and where nothing is, the service is asked if it may be.
pub proof fn law_how_a_region_is_found(settings: GeoIpSettings, event: RegionEvent)
    ensures
        ({
            let next = next_region_step(GeoIpResolver::Lookup(settings), event);
            &&& event matches RegionEvent::Address(address) ==> match address {
                None => next == RegionStepView::Known("Unknown"@),
                Some(IpAddress::V4(a, b, c, d)) => (a == 127 || a == 10 ==> next
                    == RegionStepView::Known("LAN"@)) && (a == 192 && b == 168 ==> next
                    == RegionStepView::Known("LAN"@)) && (a == 172 && 16 <= b <= 31 ==> next
                    == RegionStepView::Known("LAN"@)) && (a != 127 && a != 10 && a != 172 && a
                    != 192 && a != 169 ==> next == RegionStepView::LookUp),
                Some(IpAddress::V6(bits)) => bits == 1 ==> next == RegionStepView::Known("LAN"@),
            }
            &&& event matches RegionEvent::Local(region) ==> (region is None
                && settings.fallback_api_enabled ==> next == RegionStepView::Ask)
            &&& event matches RegionEvent::Local(region) ==> (region is None
                && !settings.fallback_api_enabled ==> next == RegionStepView::Known("Unknown"@))
            &&& event matches RegionEvent::Local(Some(region)) ==> (region_text(
                region@,
                settings.require_region_detail,
            ) matches Some(text) ==> next == RegionStepView::Known(text))
            &&& event matches RegionEvent::Fallback(Some(region)) ==> (region_text(
                region@,
                settings.require_region_detail,
            ) matches Some(text) ==> next == RegionStepView::Known(text))
            &&& event matches RegionEvent::Fallback(None) ==> next == RegionStepView::Known(
                "Unknown"@,
            )
        }),
        next_region_step(GeoIpResolver::Disabled, event) == RegionStepView::Known("Unknown"@),
{
}

/// An address is asked for where the pattern has its place; without a place it stands behind
/// the pattern, after a slash.
pub proof fn law_where_an_address_is_asked_for(template: &str, ip: &str, url: String)
    requires
        call_ensures(build_fallback_url, (template, ip), url),
    ensures
        contains(template@, "{ip}"@) ==> url@ == replace(template@, "{ip}"@, ip@),
        !contains(template@, "{ip}"@) ==> url@.len() > ip@.len() && url@.skip(
            url@.len() - ip@.len(),
        ) == ip@ && url@[url@.len() - ip@.len() - 1] == '/' && template@.is_prefix_of(url@)
            && url@.len() <= template@.len() + 1 + ip@.len(),
{
    reveal_strlit("/");
    if !contains(template@, "{ip}"@) {
        assert(url@.skip(url@.len() - ip@.len()) =~= ip@);
        if ends_with(template@, "/"@) {
            assert(template@.skip(template@.len() - 1) == "/"@);
            assert(template@.skip(template@.len() - 1)[0] == '/');
        }
    }
}

} // verus!
