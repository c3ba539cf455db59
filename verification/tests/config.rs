use llm_access::config::{resolve_request_cache_config, CliCommand, CliError};

/// Reads a command line on a machine without a node identity, on which `127.0.0.1:19080`
/// and `0.0.0.0:8080` are addresses.
fn parse(args: &[&str]) -> Result<CliCommand, CliError> {
    parse_on(args, Ok(None))
}

fn parse_on(args: &[&str], node: Result<Option<String>, String>) -> Result<CliCommand, CliError> {
    let args: Vec<String> = args.iter().map(|arg| arg.to_string()).collect();
    let addresses = vec!["127.0.0.1:19080".to_string(), "0.0.0.0:8080".to_string()];
    CliCommand::parse(&args, &addresses, node)
}

fn message(args: &[&str]) -> String {
    match parse(args) {
        Ok(_) => panic!("the command line must be refused"),
        Err(error) => error.message(),
    }
}


#[test]
fn parses_serve_config_with_state_root_and_duckdb_path() {
    let command = parse(&[
        "llm-access",
        "serve",
        "--bind",
        "127.0.0.1:19080",
        "--state-root",
        "/mnt/llm-access",
        "--postgres-control-database-url-env",
        "LLM_ACCESS_CONTROL_DATABASE_URL",
        "--duckdb",
        "/mnt/llm-access/analytics/usage.duckdb",
    ])
    .ok().expect("parse serve command");

    let CliCommand::Serve(config) = command else {
        panic!("expected serve command");
    };

    assert_eq!(config.bind_addr.to_string(), "127.0.0.1:19080");
    assert_eq!(config.storage.state_root, "/mnt/llm-access");
    assert_eq!(
        config.storage.control_store.database_url_env,
        "LLM_ACCESS_CONTROL_DATABASE_URL"
    );
    assert_eq!(config.storage.duckdb, "/mnt/llm-access/analytics/usage.duckdb");
    assert!(config.storage.duckdb_tiered.is_none());
    assert_eq!(
        config.storage.usage_journal_dir,
        "/mnt/llm-access/usage-journal"
    );
    assert_eq!(config.storage.kiro_auths_dir, "/mnt/llm-access/auths/kiro");
    assert_eq!(config.storage.codex_auths_dir, "/mnt/llm-access/auths/codex");
}

#[test]
fn parses_postgres_control_backend_from_env_name() {
    let command = parse(&[
        "llm-access",
        "serve",
        "--state-root",
        "/mnt/llm-access",
        "--postgres-control-database-url-env",
        "LLM_ACCESS_CONTROL_DATABASE_URL",
        "--usage-journal-dir",
        "/var/lib/staticflow/llm-access/usage-journal",
    ])
    .ok().expect("parse serve config");

    let CliCommand::Serve(config) = command else {
        panic!("expected serve command");
    };
    assert_eq!(
        config.storage.control_store.database_url_env,
        "LLM_ACCESS_CONTROL_DATABASE_URL"
    );
    assert_eq!(
        config.storage.usage_journal_dir,
        "/var/lib/staticflow/llm-access/usage-journal"
    );
}

#[test]
fn rejects_missing_postgres_control_env() {
    let err =
        parse(&["llm-access", "serve", "--state-root", "/mnt/llm-access"])
            .err().expect("missing control env must fail");

    assert!(err.message().contains("usage: llm-access"));
}

#[test]
fn parses_serve_config_with_tiered_duckdb_paths() {
    let command = parse(&[
        "llm-access",
        "serve",
        "--state-root",
        "/mnt/llm-access",
        "--postgres-control-database-url-env",
        "LLM_ACCESS_CONTROL_DATABASE_URL",
        "--duckdb-active-dir",
        "/var/lib/staticflow/llm-access/analytics-active",
        "--duckdb-archive-dir",
        "/mnt/llm-access/analytics/segments",
        "--duckdb-rollover-bytes",
        "536870912",
    ])
    .ok().expect("parse tiered serve command");

    let CliCommand::Serve(config) = command else {
        panic!("expected serve command");
    };
    assert_eq!(config.storage.duckdb, "/mnt/llm-access/analytics/usage.duckdb");
    let tiered = config.storage.duckdb_tiered.expect("tiered config");
    assert_eq!(
        tiered.active_dir,
        "/var/lib/staticflow/llm-access/analytics-active"
    );
    assert_eq!(tiered.archive_dir, "/mnt/llm-access/analytics/segments");
    assert_eq!(tiered.rollover_bytes, 536_870_912);
    assert_eq!(tiered.details_dir, None);
}

#[test]
fn defaults_tiered_rollover_bytes_to_64_mib() {
    let command = parse(&[
        "llm-access",
        "serve",
        "--state-root",
        "/mnt/llm-access",
        "--postgres-control-database-url-env",
        "LLM_ACCESS_CONTROL_DATABASE_URL",
        "--duckdb-active-dir",
        "/var/lib/staticflow/llm-access/analytics-active",
        "--duckdb-archive-dir",
        "/mnt/llm-access/analytics/segments",
    ])
    .ok().expect("parse tiered serve command");

    let CliCommand::Serve(config) = command else {
        panic!("expected serve command");
    };
    let tiered = config.storage.duckdb_tiered.expect("tiered config");
    assert_eq!(tiered.rollover_bytes, 64 * 1024 * 1024);
    assert_eq!(tiered.details_dir, None);
}

#[test]
fn parses_tiered_worker_config_with_external_postgres_control() {
    let command = parse(&[
        "llm-access",
        "serve",
        "--state-root",
        "/mnt/llm-access-usage",
        "--postgres-control-database-url-env",
        "LLM_ACCESS_CONTROL_DATABASE_URL",
        "--duckdb-active-dir",
        "/var/lib/staticflow/llm-access/analytics-active",
        "--duckdb-archive-dir",
        "/mnt/llm-access-usage/analytics/segments",
        "--usage-details-dir",
        "/mnt/llm-access-usage/details",
    ])
    .ok().expect("parse worker tiered serve command");

    let CliCommand::Serve(config) = command else {
        panic!("expected serve command");
    };
    assert_eq!(config.storage.state_root, "/mnt/llm-access-usage");
    assert_eq!(
        config.storage.control_store.database_url_env,
        "LLM_ACCESS_CONTROL_DATABASE_URL"
    );
    let tiered = config.storage.duckdb_tiered.expect("tiered config");
    assert_eq!(tiered.archive_dir, "/mnt/llm-access-usage/analytics/segments");
    assert_eq!(tiered.details_dir, Some("/mnt/llm-access-usage/details".to_string()));
}

#[test]
fn parses_usage_journal_dir_outside_state_root() {
    let command = parse(&[
        "llm-access",
        "serve",
        "--state-root",
        "/mnt/llm-access",
        "--postgres-control-database-url-env",
        "LLM_ACCESS_CONTROL_DATABASE_URL",
        "--usage-journal-dir",
        "/var/lib/staticflow/llm-access/usage-journal",
    ])
    .ok().expect("parse serve command");

    let CliCommand::Serve(config) = command else {
        panic!("expected serve command");
    };

    assert_eq!(
        config.storage.usage_journal_dir,
        "/var/lib/staticflow/llm-access/usage-journal"
    );
}

#[test]
fn rejects_state_paths_outside_state_root() {
    let err = parse(&[
        "llm-access",
        "serve",
        "--state-root",
        "/mnt/llm-access",
        "--postgres-control-database-url-env",
        "LLM_ACCESS_CONTROL_DATABASE_URL",
        "--duckdb",
        "/tmp/usage.duckdb",
    ])
    .err().expect("duckdb outside state root must fail");

    assert!(err.message().contains("must live under --state-root"));
}

#[test]
fn parses_optional_request_cache_config() {
    let command = parse(&[
        "llm-access",
        "serve",
        "--state-root",
        "/mnt/llm-access",
        "--postgres-control-database-url-env",
        "LLM_ACCESS_CONTROL_DATABASE_URL",
        "--request-cache-url-env",
        "LLM_ACCESS_REQUEST_CACHE_URL",
        "--request-cache-key-prefix",
        "llma:test",
    ])
    .ok().expect("parse serve config with request cache");

    let CliCommand::Serve(config) = command else {
        panic!("expected serve command");
    };
    let request_cache = config.storage.request_cache.expect("request cache");
    assert_eq!(request_cache.url_env, "LLM_ACCESS_REQUEST_CACHE_URL");
    assert_eq!(request_cache.key_prefix, "llma:test");
}

#[test]
fn rejects_partial_request_cache_config() {
    let err = parse(&[
        "llm-access",
        "serve",
        "--state-root",
        "/mnt/llm-access",
        "--postgres-control-database-url-env",
        "LLM_ACCESS_CONTROL_DATABASE_URL",
        "--request-cache-url-env",
        "LLM_ACCESS_REQUEST_CACHE_URL",
    ])
    .err().expect("partial request cache config must fail");

    assert!(err
        .message()
        .contains("request cache url env and key prefix must be configured together"));
}

const ROOTED: [&str; 6] = [
    "llm-access",
    "serve",
    "--state-root",
    "/mnt/llm-access",
    "--postgres-control-database-url-env",
    "CONTROL",
];

fn rooted(more: &[&str]) -> Vec<&'static str> {
    let mut args: Vec<&'static str> = ROOTED.to_vec();
    for arg in more {
        args.push(Box::leak(arg.to_string().into_boxed_str()));
    }
    args
}

#[test]
fn init_needs_no_address() {
    let command = parse(&[
        "llm-access",
        "init",
        "--state-root",
        "/srv/state",
        "--postgres-control-database-url-env",
        "CONTROL",
        "--duckdb",
        "/srv/state/usage.duckdb",
    ]);
    let Ok(CliCommand::Init(storage)) = command else {
        panic!("expected init command");
    };
    assert_eq!(storage.state_root, "/srv/state");
    assert_eq!(storage.duckdb, "/srv/state/usage.duckdb");
    assert_eq!(storage.logs_dir, "/srv/state/logs");
    assert!(storage.request_cache.is_none());
}

#[test]
fn every_wrong_command_line_has_its_error() {
    assert!(message(&["llm-access"]).contains("usage: llm-access init"));
    assert!(message(&["llm-access", "other"]).contains("usage: llm-access serve"));
    assert!(matches!(
        parse(&rooted(&["--bind", "nowhere"])),
        Err(CliError::BadAddress)
    ));
    assert!(matches!(
        parse(&rooted(&["--duckdb-rollover-bytes", "12x"])),
        Err(CliError::BadByteCount)
    ));
    assert!(matches!(
        parse(&rooted(&["--duckdb-active-dir", "/a"])),
        Err(CliError::NoArchiveDir)
    ));
    assert!(matches!(
        parse(&rooted(&["--duckdb-archive-dir", "/mnt/llm-access/b"])),
        Err(CliError::NoActiveDir)
    ));
    assert!(matches!(
        parse(&rooted(&["--request-cache-key-prefix", "p"])),
        Err(CliError::CacheIncomplete)
    ));
    let Err(CliError::NeedsValue { flag, .. }) = parse(&rooted(&["--duckdb"])) else {
        panic!("a flag without a value must be refused");
    };
    assert_eq!(flag, "--duckdb");
    let Err(CliError::OutsideRoot { path, root }) = parse(&rooted(&["--duckdb", "/tmp/x.duckdb"]))
    else {
        panic!("a path outside the root must be refused");
    };
    assert_eq!(path, "/tmp/x.duckdb");
    assert_eq!(root, "/mnt/llm-access");
    assert!(matches!(
        parse_on(&ROOTED, Err("no such node".to_string())),
        Err(CliError::NodeIdentity { error }) if error == "no such node"
    ));
}

#[test]
fn defaults_lie_under_the_root() {
    let Ok(CliCommand::Serve(config)) = parse_on(&ROOTED, Ok(Some("node-a".to_string()))) else {
        panic!("expected serve command");
    };
    assert_eq!(config.storage.node_identity, Some("node-a".to_string()));
    for path in [
        &config.storage.duckdb,
        &config.storage.usage_journal_dir,
        &config.storage.kiro_auths_dir,
        &config.storage.codex_auths_dir,
        &config.storage.logs_dir,
    ] {
        assert!(path.starts_with("/mnt/llm-access/"), "{path}");
    }
}

#[test]
fn request_cache_url_comes_from_the_environment() {
    let cached = rooted(&[
        "--request-cache-url-env",
        "CACHE_URL",
        "--request-cache-key-prefix",
        "llma:test",
    ]);
    let Ok(CliCommand::Serve(config)) = parse(&cached) else {
        panic!("expected serve command");
    };
    let settings = resolve_request_cache_config(&config.storage, Some("redis://cache"));
    let Ok(Some(settings)) = settings else {
        panic!("the cache is configured");
    };
    assert_eq!(settings.url, "redis://cache");
    assert_eq!(settings.key_prefix, "llma:test");
    assert!(resolve_request_cache_config(&config.storage, None).is_err());
    let Ok(CliCommand::Serve(plain)) = parse(&ROOTED) else {
        panic!("expected serve command");
    };
    assert!(matches!(resolve_request_cache_config(&plain.storage, None), Ok(None)));
}
