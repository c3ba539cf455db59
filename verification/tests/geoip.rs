use llm_access::geoip::{
    build_fallback_url, build_region_from_city, decompress_geoip_db, default_geoip_db_path,
    format_region, is_private_or_loopback_ip, lookup_region_via_fallback, normalize_geo_component,
    parse_bool_env, DbFileStep, GeoCity, GeoEnvironment, GeoIpResolver, GeoIpSettings, GeoRegion,
    IpAddress, RegionEvent, RegionStep,
};

#[test]
fn default_geoip_db_path_uses_local_vm_disk() {
    assert_eq!(
        default_geoip_db_path(),
        "/var/lib/staticflow/llm-access/geoip/GeoLite2-City.mmdb".to_string()
    );
}

fn known(step: RegionStep) -> String {
    match step {
        RegionStep::Known(region) => region,
        RegionStep::LookUp => panic!("a lookup was asked for"),
        RegionStep::Ask => panic!("the service was to be asked"),
    }
}

#[test]
fn disabled_resolver_returns_unknown_without_io() {
    let resolver = GeoIpResolver::disabled();

    let step = resolver.resolve_region(&RegionEvent::Address(Some(IpAddress::V4(208, 77, 246, 15))));

    assert_eq!(known(step), "Unknown");
}

fn environment() -> GeoEnvironment<'static> {
    GeoEnvironment {
        db_path: None,
        db_url: None,
        auto_download: None,
        fallback_api: None,
        fallback_api_url: None,
        require_region_detail: None,
        timeout_seconds: None,
        proxy_url: None,
    }
}

fn settings(env: &GeoEnvironment) -> GeoIpSettings {
    match GeoIpResolver::from_env(env) {
        GeoIpResolver::Lookup(settings) => settings,
        GeoIpResolver::Disabled => panic!("disabled"),
    }
}

fn region(country: &str, subdivision: Option<&str>, city: Option<&str>) -> GeoRegion {
    GeoRegion {
        country: country.to_string(),
        subdivision: subdivision.map(str::to_string),
        city: city.map(str::to_string),
    }
}

#[test]
fn environment_settles_the_lookup() {
    let plain = settings(&environment());
    assert_eq!(plain.db_path, default_geoip_db_path());
    assert_eq!(
        plain.db_url,
        "https://cdn.jsdelivr.net/npm/geolite2-city/GeoLite2-City.mmdb.gz"
    );
    assert_eq!(plain.fallback_api_url, "https://ipwho.is/{ip}");
    assert_eq!(plain.timeout_seconds, 120);
    assert!(plain.auto_download && plain.fallback_api_enabled && plain.require_region_detail);
    let mut env = environment();
    env.db_path = Some(" /data/x.mmdb ");
    env.db_url = Some("  ");
    env.auto_download = Some("off");
    env.fallback_api = Some(" YES ");
    env.timeout_seconds = Some("1");
    env.proxy_url = Some("http://p");
    let told = settings(&env);
    assert_eq!(told.db_path, "/data/x.mmdb");
    assert_eq!(told.db_url, plain.db_url);
    assert!(!told.auto_download && told.fallback_api_enabled);
    assert_eq!(told.timeout_seconds, 3);
    assert_eq!(told.proxy_url.as_deref(), Some("http://p"));
    assert!(parse_bool_env(Some("1"), false) && !parse_bool_env(Some("2"), true));
    assert!(parse_bool_env(None, true));
}

#[test]
fn database_file_is_fetched_only_where_allowed() {
    let mut settings = settings(&environment());
    assert_eq!(settings.ensure_db_file(true), DbFileStep::Ready);
    assert_eq!(settings.ensure_db_file(false), DbFileStep::Download);
    settings.auto_download = false;
    settings.db_path = "/x".to_string();
    assert_eq!(
        settings.ensure_db_file(false),
        DbFileStep::Missing("geoip db missing at /x and auto download is disabled".to_string())
    );
}

#[test]
fn local_addresses_are_lan() {
    let resolver = GeoIpResolver::from_env(&environment());
    let local = [
        IpAddress::V4(127, 0, 0, 1),
        IpAddress::V4(10, 1, 2, 3),
        IpAddress::V4(172, 16, 0, 1),
        IpAddress::V4(172, 31, 255, 255),
        IpAddress::V4(192, 168, 1, 1),
        IpAddress::V4(169, 254, 0, 9),
        IpAddress::V6(1),
        IpAddress::V6(0xfc00 << 112),
        IpAddress::V6((0xfdff << 112) + 5),
        IpAddress::V6(0xfe80 << 112),
    ];
    for ip in local {
        assert_eq!(known(resolver.resolve_region(&RegionEvent::Address(Some(ip)))), "LAN");
    }
    for ip in [
        IpAddress::V4(172, 32, 0, 1),
        IpAddress::V4(192, 169, 1, 1),
        IpAddress::V6(2),
        IpAddress::V6(0xfec0 << 112),
        IpAddress::V6(0x2001 << 112),
    ] {
        assert!(!is_private_or_loopback_ip(ip));
    }
}

#[test]
fn region_search_asks_the_database_then_the_service() {
    let resolver = GeoIpResolver::from_env(&environment());
    assert_eq!(known(resolver.resolve_region(&RegionEvent::Address(None))), "Unknown");
    let public = RegionEvent::Address(Some(IpAddress::V4(8, 8, 8, 8)));
    assert!(matches!(resolver.resolve_region(&public), RegionStep::LookUp));
    let found = RegionEvent::Local(Some(region("A", Some("B"), Some("C"))));
    assert_eq!(known(resolver.resolve_region(&found)), "A/B/C");
    let vague = RegionEvent::Local(Some(region("A", None, None)));
    assert!(matches!(resolver.resolve_region(&vague), RegionStep::Ask));
    assert_eq!(known(resolver.resolve_region(&RegionEvent::Fallback(None))), "Unknown");
    let mut env = environment();
    env.fallback_api = Some("0");
    let alone = GeoIpResolver::from_env(&env);
    assert_eq!(known(alone.resolve_region(&RegionEvent::Local(None))), "Unknown");
}

#[test]
fn regions_are_written_without_repeats() {
    assert_eq!(format_region(&region("A", Some("b"), Some("B")), true).as_deref(), Some("A/b"));
    assert_eq!(format_region(&region(" A ", None, Some("C")), true).as_deref(), Some("A/C"));
    assert_eq!(format_region(&region("A", Some("n/a"), None), false).as_deref(), Some("A"));
    assert_eq!(format_region(&region("A", Some("n/a"), None), true), None);
    assert_eq!(format_region(&region("NULL", Some("B"), None), false), None);
    assert_eq!(normalize_geo_component(Some(" - ".to_string())), None);
    assert_eq!(normalize_geo_component(None), None);
}

fn city() -> GeoCity {
    GeoCity {
        country_chinese: None,
        country_english: None,
        country_code: Some("DE".to_string()),
        registered_chinese: None,
        registered_english: Some("Germany".to_string()),
        registered_code: None,
        subdivision_chinese: None,
        subdivision_english: Some("Hesse".to_string()),
        city_chinese: Some("法兰克福".to_string()),
        city_english: Some("Frankfurt".to_string()),
    }
}

#[test]
fn database_names_prefer_the_country_itself() {
    let found = build_region_from_city(city());
    let found = match found {
        Some(found) => found,
        None => panic!("no region"),
    };
    assert_eq!(found.country, "Germany");
    assert_eq!(found.subdivision.as_deref(), Some("Hesse"));
    assert_eq!(found.city.as_deref(), Some("法兰克福"));
    let mut blank = city();
    blank.country_chinese = Some(" ".to_string());
    assert!(build_region_from_city(blank).is_none());
}

#[test]
fn service_answers_are_read() {
    let body = br#"{"success":true,"country":"unknown","country_name":"France","region":"IDF","city":"Paris"}"#;
    let found = match lookup_region_via_fallback(body) {
        Ok(Some(found)) => found,
        _ => panic!("no region"),
    };
    assert_eq!(format_region(&found, true).as_deref(), Some("France/IDF/Paris"));
    for refused in [
        &br#"{"success":false,"country":"France"}"#[..],
        &br#"{"success":"FAIL","country":"France"}"#[..],
        &br#"{"status":"fail","country":"France"}"#[..],
        &br#"{"city":"Paris"}"#[..],
    ] {
        assert!(matches!(lookup_region_via_fallback(refused), Ok(None)));
    }
    assert_eq!(
        lookup_region_via_fallback(b"nope").err(),
        Some("failed to decode geoip fallback response json")
    );
}

#[test]
fn service_address_holds_the_client() {
    assert_eq!(build_fallback_url("https://ipwho.is/{ip}", "1.2.3.4"), "https://ipwho.is/1.2.3.4");
    assert_eq!(build_fallback_url("https://x/", "1.2.3.4"), "https://x/1.2.3.4");
    assert_eq!(build_fallback_url("https://x", "1.2.3.4"), "https://x/1.2.3.4");
}

#[test]
fn downloaded_database_is_unpacked() {
    let mut encoder =
        flate2::write::GzEncoder::new(Vec::new(), flate2::Compression::default());
    let written = std::io::Write::write_all(&mut encoder, b"database bytes");
    assert!(written.is_ok());
    let packed = match encoder.finish() {
        Ok(packed) => packed,
        Err(error) => panic!("{error}"),
    };
    assert_eq!(decompress_geoip_db(&packed), Ok(b"database bytes".to_vec()));
    assert_eq!(decompress_geoip_db(b"plain"), Err("failed to decompress geoip db"));
}
