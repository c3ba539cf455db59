//! The command line.

use vstd::prelude::*;
use crate::name_map::NameMap;
use crate::paths::{inside, is_under, join_path, law_joined_path_lies_under, lies_under};
use crate::text::{concat3, list_has, opt_text, parse_number, parse_unsigned,
    same_text, texts};

verus! {

pub const DEFAULT_TIERED_DUCKDB_ROLLOVER_BYTES: u64 = 67_108_864;

/// Backing store of the control plane.
pub struct ControlStoreConfig {
    /// Name of the variable that carries the database URL.
    pub database_url_env: String,
}

/// Cache on the request path.
pub struct RequestCacheConfig {
    /// Name of the variable that carries the cache URL.
    pub url_env: String,
    /// Prefix of all keys of this deployment.
    pub key_prefix: String,
}

/// Paths of tiered analytics storage.
pub struct TieredDuckDbStorageConfig {
    pub active_dir: String,
    pub archive_dir: String,
    pub rollover_bytes: u64,
    pub details_dir: Option<String>,
}

/// Where the service keeps its state.
pub struct StorageConfig {
    pub state_root: String,
    pub node_identity: Option<String>,
    pub control_store: ControlStoreConfig,
    pub request_cache: Option<RequestCacheConfig>,
    pub duckdb: String,
    pub usage_journal_dir: String,
    pub duckdb_tiered: Option<TieredDuckDbStorageConfig>,
    pub kiro_auths_dir: String,
    pub codex_auths_dir: String,
    pub logs_dir: String,
}

/// Configuration of the HTTP service.
pub struct ServeConfig {
    pub bind_addr: String,
    pub storage: StorageConfig,
}

/// A command line that makes sense.
pub enum CliCommand {
    /// Set up the storage and exit.
    Init(StorageConfig),
    /// Set up the storage, then serve.
    Serve(ServeConfig),
}

/// What is wrong with a command line.
pub enum CliError {
    Usage,
    NeedsValue { flag: String, what: String },
    BadAddress,
    BadByteCount,
    CacheIncomplete,
    NoActiveDir,
    NoArchiveDir,
    OutsideRoot { path: String, root: String },
    NodeIdentity { error: String },
}

#[verifier::ext_equal]
pub enum CliErrorView {
    Usage,
    NeedsValue { flag: Seq<char>, what: Seq<char> },
    BadAddress,
    BadByteCount,
    CacheIncomplete,
    NoActiveDir,
    NoArchiveDir,
    OutsideRoot { path: Seq<char>, root: Seq<char> },
    NodeIdentity { error: Seq<char> },
}

impl View for CliError {
    type V = CliErrorView;

    open spec fn view(&self) -> CliErrorView {
        match *self {
            CliError::Usage => CliErrorView::Usage,
            CliError::NeedsValue { flag, what } => CliErrorView::NeedsValue {
                flag: flag@,
                what: what@,
            },
            CliError::BadAddress => CliErrorView::BadAddress,
            CliError::BadByteCount => CliErrorView::BadByteCount,
            CliError::CacheIncomplete => CliErrorView::CacheIncomplete,
            CliError::NoActiveDir => CliErrorView::NoActiveDir,
            CliError::NoArchiveDir => CliErrorView::NoArchiveDir,
            CliError::OutsideRoot { path, root } => CliErrorView::OutsideRoot {
                path: path@,
                root: root@,
            },
            CliError::NodeIdentity { error } => CliErrorView::NodeIdentity { error: error@ },
        }
    }
}

/// The text of an error.
pub open spec fn cli_message(error: CliErrorView) -> Seq<char> {
    match error {
        CliErrorView::Usage => "usage: llm-access init --state-root <path> --postgres-control-database-url-env <env> --duckdb <path>\nusage: llm-access serve [--bind <addr>] --state-root <path> --postgres-control-database-url-env <env> [--duckdb <path>] [--usage-journal-dir <path>] [--duckdb-active-dir <path> --duckdb-archive-dir <path> --duckdb-rollover-bytes <bytes> --usage-details-dir <path>]"@,
        CliErrorView::NeedsValue { flag, what } => flag + " requires "@ + what,
        CliErrorView::BadAddress => "failed to parse --bind address"@,
        CliErrorView::BadByteCount => "failed to parse --duckdb-rollover-bytes"@,
        CliErrorView::CacheIncomplete => "request cache url env and key prefix must be configured together"@,
        CliErrorView::NoActiveDir => "--duckdb-active-dir is required for tiered DuckDB storage"@,
        CliErrorView::NoArchiveDir => "--duckdb-archive-dir is required for tiered DuckDB storage"@,
        CliErrorView::OutsideRoot { path, root } => "`"@ + path + "` must live under --state-root `"@
            + root + "`"@,
        CliErrorView::NodeIdentity { error } => error,
    }
}

impl CliError {
    pub fn message(&self) -> (message: String)
        ensures
            message@ == cli_message(self@),
    {
        match self {
            CliError::Usage => "usage: llm-access init --state-root <path> --postgres-control-database-url-env <env> --duckdb <path>\nusage: llm-access serve [--bind <addr>] --state-root <path> --postgres-control-database-url-env <env> [--duckdb <path>] [--usage-journal-dir <path>] [--duckdb-active-dir <path> --duckdb-archive-dir <path> --duckdb-rollover-bytes <bytes> --usage-details-dir <path>]".to_owned(),
            CliError::NeedsValue { flag, what } => concat3(
                flag.as_str(),
                " requires ",
                what.as_str(),
            ),
            CliError::BadAddress => "failed to parse --bind address".to_owned(),
            CliError::BadByteCount => "failed to parse --duckdb-rollover-bytes".to_owned(),
            CliError::CacheIncomplete => "request cache url env and key prefix must be configured together".to_owned(),
            CliError::NoActiveDir => "--duckdb-active-dir is required for tiered DuckDB storage".to_owned(),
            CliError::NoArchiveDir => "--duckdb-archive-dir is required for tiered DuckDB storage".to_owned(),
            CliError::OutsideRoot { path, root } => {
                let mut message = concat3(
                    "`",
                    path.as_str(),
                    "` must live under --state-root `",
                );
                message.append(root.as_str());
                message.append("`");
                message
            },
            CliError::NodeIdentity { error } => error.clone(),
        }
    }
}

// ---------------------------------------------------------------------------
// Flags
// ---------------------------------------------------------------------------

/// What the value of a storage flag is; nothing where there is no such flag.
pub open spec fn flag_value(flag: Seq<char>) -> Option<Seq<char>> {
    if flag == "--state-root"@ || flag == "--duckdb"@ || flag == "--duckdb-active-dir"@ || flag
        == "--duckdb-archive-dir"@ || flag == "--usage-details-dir"@ || flag
        == "--usage-journal-dir"@ {
        Some("a path"@)
    } else if flag == "--postgres-control-database-url-env"@ || flag == "--request-cache-url-env"@ {
        Some("an env name"@)
    } else if flag == "--request-cache-key-prefix"@ {
        Some("a value"@)
    } else if flag == "--duckdb-rollover-bytes"@ {
        Some("a byte count"@)
    } else {
        None
    }
}

fn flag_takes(flag: &str) -> (what: Option<&'static str>)
    ensures
        match what {
            Some(what) => flag_value(flag@) == Some(what@),
            None => flag_value(flag@) is None,
        },
{
    if same_text(flag, "--state-root") || same_text(flag, "--duckdb") || same_text(
        flag,
        "--duckdb-active-dir",
    ) || same_text(flag, "--duckdb-archive-dir") || same_text(flag, "--usage-details-dir")
        || same_text(flag, "--usage-journal-dir") {
        Some("a path")
    } else if same_text(flag, "--postgres-control-database-url-env") || same_text(
        flag,
        "--request-cache-url-env",
    ) {
        Some("an env name")
    } else if same_text(flag, "--request-cache-key-prefix") {
        Some("a value")
    } else if same_text(flag, "--duckdb-rollover-bytes") {
        Some("a byte count")
    } else {
        None
    }
}

pub type Options = Map<Seq<char>, Seq<char>>;

/// The values of the flags. Of a flag that is given more than once the last value counts.
pub open spec fn read_options(args: Seq<Seq<char>>, so_far: Options) -> Result<Options, CliErrorView>
    decreases args.len(),
{
    if args.len() == 0 {
        Ok(so_far)
    } else {
        match flag_value(args[0]) {
            None => Err(CliErrorView::Usage),
            Some(what) => if args.len() == 1 {
                Err(CliErrorView::NeedsValue { flag: args[0], what })
            } else if args[0] == "--duckdb-rollover-bytes"@ && parse_unsigned(
                args[1],
                u64::MAX as nat,
            ) is None {
                Err(CliErrorView::BadByteCount)
            } else {
                read_options(args.skip(2), so_far.insert(args[0], args[1]))
            },
        }
    }
}

pub open spec fn option_views(map: Map<Seq<char>, String>) -> Options {
    map.map_values(|value: String| value@)
}

fn read_flags(args: &Vec<String>) -> (result: Result<NameMap<String>, CliError>)
    ensures
        match result {
            Ok(map) => read_options(texts(args@), Map::empty()) == Ok::<Options, CliErrorView>(
                option_views(map@),
            ),
            Err(error) => read_options(texts(args@), Map::empty()) == Err::<Options, CliErrorView>(
                error@,
            ),
        },
{
    let mut map: NameMap<String> = NameMap::new();
    let mut i: usize = 0;
    assert(option_views(map@) =~= Map::<Seq<char>, Seq<char>>::empty());
    assert(texts(args@).skip(0) =~= texts(args@));
    while i < args.len()
        invariant
            i <= args.len(),
            read_options(texts(args@), Map::empty()) == read_options(
                texts(args@).skip(i as int),
                option_views(map@),
            ),
        decreases args.len() - i,
    {
        let ghost rest = texts(args@).skip(i as int);
        assert(rest[0] == args@[i as int]@);
        let flag = args[i].as_str();
        let what = match flag_takes(flag) {
            Some(what) => what,
            None => return Err(CliError::Usage),
        };
        if args.len() - i == 1 {
            return Err(CliError::NeedsValue { flag: flag.to_owned(), what: what.to_owned() });
        }
        assert(rest[1] == args@[i + 1]@);
        if same_text(flag, "--duckdb-rollover-bytes") && parse_number(
            args[i + 1].as_str(),
            u64::MAX,
        ).is_none() {
            return Err(CliError::BadByteCount);
        }
        let ghost before = map@;
        map.insert(flag, args[i + 1].clone());
        assert(option_views(map@) =~= option_views(before).insert(rest[0], rest[1]));
        assert(rest.skip(2) =~= texts(args@).skip(i + 2));
        i += 2;
    }
    assert(texts(args@).skip(i as int) =~= Seq::<Seq<char>>::empty());
    Ok(map)
}

// ---------------------------------------------------------------------------
// Storage
// ---------------------------------------------------------------------------

pub open spec fn given(options: Options, flag: Seq<char>) -> Option<Seq<char>> {
    if options.dom().contains(flag) {
        Some(options[flag])
    } else {
        None
    }
}

fn value_of(map: &NameMap<String>, flag: &str) -> (value: Option<String>)
    ensures
        opt_text(value) == given(option_views(map@), flag@),
{
    match map.get(flag) {
        Some(value) => Some(value.clone()),
        None => None,
    }
}

/// The value of a flag, or its place under the state root.
pub open spec fn given_or_inside(options: Options, flag: Seq<char>, rest: Seq<char>) -> Seq<char> {
    match given(options, flag) {
        Some(path) => path,
        None => inside(options["--state-root"@], rest),
    }
}

/// Whether any flag of the tiered storage is given.
pub open spec fn wants_tiers(options: Options) -> bool {
    ||| given(options, "--duckdb-active-dir"@) is Some
    ||| given(options, "--duckdb-archive-dir"@) is Some
    ||| given(options, "--duckdb-rollover-bytes"@) is Some
    ||| given(options, "--usage-details-dir"@) is Some
}

pub open spec fn outside(root: Seq<char>, path: Option<Seq<char>>) -> bool {
    path matches Some(path) && !is_under(root, path)
}

/// What is wrong with a set of options, if anything. `node_error` is the error of looking
/// up the identity of this node.
pub open spec fn options_error(options: Options, node_error: Option<Seq<char>>) -> Option<
    CliErrorView,
> {
    let root = options["--state-root"@];
    let duckdb = given_or_inside(options, "--duckdb"@, "analytics/usage.duckdb"@);
    let archive = given(options, "--duckdb-archive-dir"@);
    let details = given(options, "--usage-details-dir"@);
    if given(options, "--state-root"@) is None {
        Some(CliErrorView::Usage)
    } else if given(options, "--postgres-control-database-url-env"@) is None {
        Some(CliErrorView::Usage)
    } else if given(options, "--request-cache-url-env"@) is Some != given(
        options,
        "--request-cache-key-prefix"@,
    ) is Some {
        Some(CliErrorView::CacheIncomplete)
    } else if wants_tiers(options) && given(options, "--duckdb-active-dir"@) is None {
        Some(CliErrorView::NoActiveDir)
    } else if wants_tiers(options) && archive is None {
        Some(CliErrorView::NoArchiveDir)
    } else if !is_under(root, duckdb) {
        Some(CliErrorView::OutsideRoot { path: duckdb, root })
    } else if outside(root, archive) {
        Some(CliErrorView::OutsideRoot { path: archive->0, root })
    } else if outside(root, details) {
        Some(CliErrorView::OutsideRoot { path: details->0, root })
    } else {
        match node_error {
            Some(error) => Some(CliErrorView::NodeIdentity { error }),
            None => None,
        }
    }
}

/// The threshold of the tiered storage: at least one byte.
pub open spec fn rollover(options: Options) -> nat {
    match given(options, "--duckdb-rollover-bytes"@) {
        Some(text) => match parse_unsigned(text, u64::MAX as nat) {
            Some(n) => if n == 0 {
                1
            } else {
                n
            },
            None => DEFAULT_TIERED_DUCKDB_ROLLOVER_BYTES as nat,
        },
        None => DEFAULT_TIERED_DUCKDB_ROLLOVER_BYTES as nat,
    }
}

pub open spec fn is_cache_config(config: Option<RequestCacheConfig>, options: Options) -> bool {
    match config {
        Some(cache) => Some(cache.url_env@) == given(options, "--request-cache-url-env"@) && Some(
            cache.key_prefix@,
        ) == given(options, "--request-cache-key-prefix"@),
        None => given(options, "--request-cache-url-env"@) is None,
    }
}

pub open spec fn is_tier_config(config: Option<TieredDuckDbStorageConfig>, options: Options) -> bool {
    match config {
        Some(tiers) => {
            &&& wants_tiers(options)
            &&& Some(tiers.active_dir@) == given(options, "--duckdb-active-dir"@)
            &&& Some(tiers.archive_dir@) == given(options, "--duckdb-archive-dir"@)
            &&& tiers.rollover_bytes == rollover(options)
            &&& opt_text(tiers.details_dir) == given(options, "--usage-details-dir"@)
        },
        None => !wants_tiers(options),
    }
}

/// The configuration that a set of options stands for.
pub open spec fn is_storage_config(config: StorageConfig, options: Options) -> bool {
    let root = options["--state-root"@];
    &&& config.state_root@ == root
    &&& Some(config.control_store.database_url_env@) == given(
        options,
        "--postgres-control-database-url-env"@,
    )
    &&& is_cache_config(config.request_cache, options)
    &&& config.duckdb@ == given_or_inside(options, "--duckdb"@, "analytics/usage.duckdb"@)
    &&& config.usage_journal_dir@ == given_or_inside(
        options,
        "--usage-journal-dir"@,
        "usage-journal"@,
    )
    &&& is_tier_config(config.duckdb_tiered, options)
    &&& config.kiro_auths_dir@ == inside(root, "auths/kiro"@)
    &&& config.codex_auths_dir@ == inside(root, "auths/codex"@)
    &&& config.logs_dir@ == inside(root, "logs"@)
}

/// The tiered storage, where any of its flags is given.
fn parse_tiered_duckdb_config(map: &NameMap<String>) -> (result: Result<
    Option<TieredDuckDbStorageConfig>,
    CliError,
>)
    ensures
        match result {
            Ok(config) => is_tier_config(config, option_views(map@)),
            Err(error) => wants_tiers(option_views(map@)) && error@ == if given(
                option_views(map@),
                "--duckdb-active-dir"@,
            ) is None {
                CliErrorView::NoActiveDir
            } else {
                CliErrorView::NoArchiveDir
            } && (given(option_views(map@), "--duckdb-active-dir"@) is None || given(
                option_views(map@),
                "--duckdb-archive-dir"@,
            ) is None),
        },
{
    let active = value_of(map, "--duckdb-active-dir");
    let archive = value_of(map, "--duckdb-archive-dir");
    let bytes = value_of(map, "--duckdb-rollover-bytes");
    let details_dir = value_of(map, "--usage-details-dir");
    if active.is_none() && archive.is_none() && bytes.is_none() && details_dir.is_none() {
        return Ok(None);
    }
    let active_dir = match active {
        Some(dir) => dir,
        None => return Err(CliError::NoActiveDir),
    };
    let archive_dir = match archive {
        Some(dir) => dir,
        None => return Err(CliError::NoArchiveDir),
    };
    let rollover_bytes: u64 = match bytes {
        Some(text) => match parse_number(text.as_str(), u64::MAX) {
            Some(n) => if n == 0 {
                1
            } else {
                n
            },
            None => DEFAULT_TIERED_DUCKDB_ROLLOVER_BYTES,
        },
        None => DEFAULT_TIERED_DUCKDB_ROLLOVER_BYTES,
    };
    Ok(Some(TieredDuckDbStorageConfig { active_dir, archive_dir, rollover_bytes, details_dir }))
}

/// Refuses a path that does not lie under the state root.
fn ensure_under_root(root: &str, path: &str) -> (result: Result<(), CliError>)
    ensures
        match result {
            Ok(_) => is_under(root@, path@),
            Err(error) => !is_under(root@, path@) && error@ == (CliErrorView::OutsideRoot {
                path: path@,
                root: root@,
            }),
        },
{
    if lies_under(root, path) {
        Ok(())
    } else {
        Err(CliError::OutsideRoot { path: path.to_owned(), root: root.to_owned() })
    }
}

/// The error of looking up the identity of this node.
pub open spec fn identity_error(node_identity: Result<Option<String>, String>) -> Option<Seq<char>> {
    match node_identity {
        Ok(_) => None,
        Err(error) => Some(error@),
    }
}

/// What the storage arguments stand for, or what is wrong with them.
pub open spec fn storage_result(
    args: Seq<Seq<char>>,
    node_identity: Result<Option<String>, String>,
    result: Result<StorageConfig, CliError>,
) -> bool {
    match read_options(args, Map::empty()) {
        Err(error) => result matches Err(e) && e@ == error,
        Ok(options) => match options_error(options, identity_error(node_identity)) {
            Some(error) => result matches Err(e) && e@ == error,
            None => {
                &&& result matches Ok(config)
                &&& is_storage_config(config, options)
                &&& Ok::<Option<String>, String>(config.node_identity) == node_identity
            },
        },
    }
}

/// Reads the storage arguments. `node_identity` is what the environment says about this
/// node.
pub fn parse_storage_args(args: &Vec<String>, node_identity: Result<Option<String>, String>) -> (result:
    Result<StorageConfig, CliError>)
    ensures
        storage_result(texts(args@), node_identity, result),
{
    let map = match read_flags(args) {
        Ok(map) => map,
        Err(error) => return Err(error),
    };
    let ghost options = option_views(map@);
    let state_root = match value_of(&map, "--state-root") {
        Some(root) => root,
        None => return Err(CliError::Usage),
    };
    let database_url_env = match value_of(&map, "--postgres-control-database-url-env") {
        Some(name) => name,
        None => return Err(CliError::Usage),
    };
    let request_cache = match (
        value_of(&map, "--request-cache-url-env"),
        value_of(&map, "--request-cache-key-prefix"),
    ) {
        (Some(url_env), Some(key_prefix)) => Some(RequestCacheConfig { url_env, key_prefix }),
        (None, None) => None,
        _ => return Err(CliError::CacheIncomplete),
    };
    let root = state_root.as_str();
    let duckdb = match value_of(&map, "--duckdb") {
        Some(path) => path,
        None => join_path(root, "analytics/usage.duckdb"),
    };
    let usage_journal_dir = match value_of(&map, "--usage-journal-dir") {
        Some(path) => path,
        None => join_path(root, "usage-journal"),
    };
    let duckdb_tiered = match parse_tiered_duckdb_config(&map) {
        Ok(config) => config,
        Err(error) => return Err(error),
    };
    if let Err(error) = ensure_under_root(root, duckdb.as_str()) {
        return Err(error);
    }
    if let Some(tiers) = &duckdb_tiered {
        if let Err(error) = ensure_under_root(root, tiers.archive_dir.as_str()) {
            return Err(error);
        }
        if let Some(details) = &tiers.details_dir {
            if let Err(error) = ensure_under_root(root, details.as_str()) {
                return Err(error);
            }
        }
    }
    let node_identity = match node_identity {
        Ok(identity) => identity,
        Err(error) => return Err(CliError::NodeIdentity { error }),
    };
    Ok(
        StorageConfig {
            kiro_auths_dir: join_path(root, "auths/kiro"),
            codex_auths_dir: join_path(root, "auths/codex"),
            logs_dir: join_path(root, "logs"),
            node_identity,
            control_store: ControlStoreConfig { database_url_env },
            request_cache,
            duckdb,
            usage_journal_dir,
            duckdb_tiered,
            state_root,
        },
    )
}

// ---------------------------------------------------------------------------
// Commands
// ---------------------------------------------------------------------------

/// The address to serve on, and the arguments that are left. `addresses` are the texts
/// that are socket addresses.
pub open spec fn read_bind(args: Seq<Seq<char>>, addresses: Seq<Seq<char>>, bind: Seq<char>) -> Result<
    (Seq<char>, Seq<Seq<char>>),
    CliErrorView,
>
    decreases args.len(),
{
    if args.len() == 0 {
        Ok((bind, Seq::empty()))
    } else if args[0] == "--bind"@ {
        if args.len() == 1 {
            Err(CliErrorView::NeedsValue { flag: "--bind"@, what: "an address"@ })
        } else if !addresses.contains(args[1]) {
            Err(CliErrorView::BadAddress)
        } else {
            read_bind(args.skip(2), addresses, args[1])
        }
    } else {
        with_rest(seq![args[0]], read_bind(args.skip(1), addresses, bind))
    }
}

pub open spec fn with_rest(
    front: Seq<Seq<char>>,
    result: Result<(Seq<char>, Seq<Seq<char>>), CliErrorView>,
) -> Result<(Seq<char>, Seq<Seq<char>>), CliErrorView> {
    match result {
        Ok(found) => Ok((found.0, front + found.1)),
        Err(error) => Err(error),
    }
}

fn take_bind(args: &Vec<String>, addresses: &Vec<String>) -> (result: Result<
    (String, Vec<String>),
    CliError,
>)
    ensures
        match result {
            Ok(found) => read_bind(texts(args@), texts(addresses@), "127.0.0.1:19080"@) == Ok::<
                (Seq<char>, Seq<Seq<char>>),
                CliErrorView,
            >((found.0@, texts(found.1@))),
            Err(error) => read_bind(texts(args@), texts(addresses@), "127.0.0.1:19080"@) == Err::<
                (Seq<char>, Seq<Seq<char>>),
                CliErrorView,
            >(error@),
        },
{
    let mut bind = "127.0.0.1:19080".to_owned();
    let mut rest: Vec<String> = Vec::new();
    let mut i: usize = 0;
    let ghost all = read_bind(texts(args@), texts(addresses@), bind@);
    assert(texts(args@).skip(0) =~= texts(args@));
    proof {
        if let Ok(found) = all {
            assert(texts(rest@) + found.1 =~= found.1);
        }
    }
    while i < args.len()
        invariant
            i <= args.len(),
            all == read_bind(texts(args@), texts(addresses@), "127.0.0.1:19080"@),
            all == with_rest(
                texts(rest@),
                read_bind(texts(args@).skip(i as int), texts(addresses@), bind@),
            ),
        decreases args.len() - i,
    {
        let ghost left = texts(args@).skip(i as int);
        assert(left[0] == args@[i as int]@);
        if same_text(args[i].as_str(), "--bind") {
            if args.len() - i == 1 {
                return Err(
                    CliError::NeedsValue { flag: "--bind".to_owned(), what: "an address".to_owned() },
                );
            }
            assert(left[1] == args@[i + 1]@);
            if !list_has(addresses, args[i + 1].as_str()) {
                return Err(CliError::BadAddress);
            }
            bind = args[i + 1].clone();
            assert(left.skip(2) =~= texts(args@).skip(i + 2));
            i += 2;
        } else {
            let ghost before = texts(rest@);
            let ghost next = read_bind(left.skip(1), texts(addresses@), bind@);
            rest.push(args[i].clone());
            assert(texts(rest@) =~= before + seq![left[0]]);
            proof {
                if let Ok(found) = next {
                    assert(before + (seq![left[0]] + found.1) =~= texts(rest@) + found.1);
                }
            }
            assert(left.skip(1) =~= texts(args@).skip(i + 1));
            i += 1;
        }
    }
    assert(texts(args@).skip(i as int) =~= Seq::<Seq<char>>::empty());
    assert(texts(rest@) + Seq::<Seq<char>>::empty() =~= texts(rest@));
    Ok((bind, rest))
}

/// What the arguments of the serve command stand for, or what is wrong with them.
pub open spec fn serve_result(
    args: Seq<Seq<char>>,
    addresses: Seq<Seq<char>>,
    node_identity: Result<Option<String>, String>,
    result: Result<ServeConfig, CliError>,
) -> bool {
    match read_bind(args, addresses, "127.0.0.1:19080"@) {
        Err(error) => result matches Err(e) && e@ == error,
        Ok(found) => match result {
            Ok(config) => config.bind_addr@ == found.0 && storage_result(
                found.1,
                node_identity,
                Ok(config.storage),
            ),
            Err(e) => storage_result(found.1, node_identity, Err(e)),
        },
    }
}

pub fn parse_serve_args(
    args: &Vec<String>,
    addresses: &Vec<String>,
    node_identity: Result<Option<String>, String>,
) -> (result: Result<ServeConfig, CliError>)
    ensures
        serve_result(texts(args@), texts(addresses@), node_identity, result),
{
    let (bind_addr, rest) = match take_bind(args, addresses) {
        Ok(found) => found,
        Err(error) => return Err(error),
    };
    match parse_storage_args(&rest, node_identity) {
        Ok(storage) => Ok(ServeConfig { bind_addr, storage }),
        Err(error) => Err(error),
    }
}

/// What a command line stands for, or what is wrong with it.
pub open spec fn command_result(
    args: Seq<Seq<char>>,
    addresses: Seq<Seq<char>>,
    node_identity: Result<Option<String>, String>,
    result: Result<CliCommand, CliError>,
) -> bool {
    if args.len() >= 2 && args[1] == "init"@ {
        match result {
            Ok(CliCommand::Init(config)) => storage_result(
                args.skip(2),
                node_identity,
                Ok(config),
            ),
            Ok(_) => false,
            Err(error) => storage_result(args.skip(2), node_identity, Err(error)),
        }
    } else if args.len() >= 2 && args[1] == "serve"@ {
        match result {
            Ok(CliCommand::Serve(config)) => serve_result(
                args.skip(2),
                addresses,
                node_identity,
                Ok(config),
            ),
            Ok(_) => false,
            Err(error) => serve_result(args.skip(2), addresses, node_identity, Err(error)),
        }
    } else {
        result matches Err(error) && error@ == CliErrorView::Usage
    }
}

fn skip_two(args: &Vec<String>) -> (rest: Vec<String>)
    requires
        args.len() >= 2,
    ensures
        texts(rest@) == texts(args@).skip(2),
{
    let mut rest: Vec<String> = Vec::new();
    let mut i: usize = 2;
    while i < args.len()
        invariant
            2 <= i <= args.len(),
            rest.len() == i - 2,
            forall|k: int| 0 <= k < i - 2 ==> (#[trigger] rest@[k])@ == args@[k + 2]@,
        decreases args.len() - i,
    {
        rest.push(args[i].clone());
        i += 1;
    }
    assert(texts(rest@) =~= texts(args@).skip(2));
    rest
}

impl CliCommand {
    /// Reads a command line, the program's name first. `addresses` are the arguments that
    /// are socket addresses, `node_identity` is what the environment says about this node.
    pub fn parse(
        args: &Vec<String>,
        addresses: &Vec<String>,
        node_identity: Result<Option<String>, String>,
    ) -> (result: Result<CliCommand, CliError>)
        ensures
            command_result(texts(args@), texts(addresses@), node_identity, result),
    {
        if args.len() < 2 {
            return Err(CliError::Usage);
        }
        assert(texts(args@)[1] == args@[1]@);
        if same_text(args[1].as_str(), "init") {
            let rest = skip_two(args);
            match parse_storage_args(&rest, node_identity) {
                Ok(config) => Ok(CliCommand::Init(config)),
                Err(error) => Err(error),
            }
        } else if same_text(args[1].as_str(), "serve") {
            proof {
                reveal_strlit("init");
                reveal_strlit("serve");
            }
            let rest = skip_two(args);
            match parse_serve_args(&rest, addresses, node_identity) {
                Ok(config) => Ok(CliCommand::Serve(config)),
                Err(error) => Err(error),
            }
        } else {
            Err(CliError::Usage)
        }
    }
}

/// A cache that can be connected to.
pub struct RequestCacheSettings {
    pub url: String,
    pub key_prefix: String,
}

/// The cache of a configuration. `url` is the value of the variable that the configuration
/// names.
pub fn resolve_request_cache_config(storage: &StorageConfig, url: Option<&str>) -> (result: Result<
    Option<RequestCacheSettings>,
    String,
>)
    ensures
        match storage.request_cache {
            None => result matches Ok(None),
            Some(config) => match url {
                Some(url) => result matches Ok(Some(settings)) && settings.url@ == url@
                    && settings.key_prefix == config.key_prefix,
                None => result matches Err(error) && error@ == "missing request cache env `"@
                    + config.url_env@ + "`"@,
            },
        },
{
    match &storage.request_cache {
        None => Ok(None),
        Some(config) => match url {
            Some(url) => Ok(
                Some(
                    RequestCacheSettings {
                        url: url.to_owned(),
                        key_prefix: config.key_prefix.clone(),
                    },
                ),
            ),
            None => Err(concat3("missing request cache env `", config.url_env.as_str(), "`")),
        },
    }
}

// ---------------------------------------------------------------------------
// Laws
// ---------------------------------------------------------------------------

/// The state of an accepted configuration lies under the state root: the analytics, the
/// archive and the details, the accounts and the logs.
pub proof fn law_state_lives_under_the_root(
    args: Seq<Seq<char>>,
    node_identity: Result<Option<String>, String>,
    config: StorageConfig,
)
    requires
        storage_result(args, node_identity, Ok(config)),
    ensures
        is_under(config.state_root@, config.duckdb@),
        is_under(config.state_root@, config.kiro_auths_dir@),
        is_under(config.state_root@, config.codex_auths_dir@),
        is_under(config.state_root@, config.logs_dir@),
        config.duckdb_tiered matches Some(tiers) ==> is_under(
            config.state_root@,
            tiers.archive_dir@,
        ),
        config.duckdb_tiered matches Some(tiers) ==> (tiers.details_dir matches Some(details)
            ==> is_under(config.state_root@, details@)),
{
    reveal_strlit("auths/kiro");
    reveal_strlit("auths/codex");
    reveal_strlit("logs");
    law_joined_path_lies_under(config.state_root@, "auths/kiro"@);
    law_joined_path_lies_under(config.state_root@, "auths/codex"@);
    law_joined_path_lies_under(config.state_root@, "logs"@);
}

/// A state root and a database variable are enough: every default is accepted.
pub proof fn law_defaults_are_accepted(root: Seq<char>, variable: Seq<char>)
    ensures
        options_error(
            Map::<Seq<char>, Seq<char>>::empty().insert("--state-root"@, root).insert(
                "--postgres-control-database-url-env"@,
                variable,
            ),
            None,
        ) is None,
{
    reveal_strlit("--state-root");
    reveal_strlit("--postgres-control-database-url-env");
    reveal_strlit("--request-cache-url-env");
    reveal_strlit("--request-cache-key-prefix");
    reveal_strlit("--duckdb");
    reveal_strlit("--duckdb-active-dir");
    reveal_strlit("--duckdb-archive-dir");
    reveal_strlit("--duckdb-rollover-bytes");
    reveal_strlit("--usage-details-dir");
    reveal_strlit("analytics/usage.duckdb");
    assert("--state-root"@.len() == 12);
    assert("--request-cache-url-env"@[2] == 'r');
    assert("--postgres-control-database-url-env"@.len() == 35);
    law_joined_path_lies_under(root, "analytics/usage.duckdb"@);
}

/// An option that comes behind others sets its flag and no other; one that is given again
/// takes the place of the earlier.
pub proof fn law_a_later_option_counts(
    args: Seq<Seq<char>>,
    so_far: Options,
    flag: Seq<char>,
    value: Seq<char>,
)
    requires
        read_options(args, so_far) is Ok,
        flag_value(flag) is Some,
        flag != "--duckdb-rollover-bytes"@,
    ensures
        read_options(args + seq![flag, value], so_far) matches Ok(options) && given(options, flag)
            == Some(value) && forall|other: Seq<char>|
            other != flag ==> #[trigger] given(options, other) == given(
                read_options(args, so_far)->Ok_0,
                other,
            ),
    decreases args.len(),
{
    let more = args + seq![flag, value];
    if args.len() == 0 {
        assert(more =~= seq![flag, value]);
        assert(more.skip(2) =~= Seq::<Seq<char>>::empty());
        assert(read_options(more.skip(2), so_far.insert(flag, value)) == Ok::<
            Options,
            CliErrorView,
        >(so_far.insert(flag, value)));
    } else {
        assert(args.len() > 1);
        assert(more[0] == args[0] && more[1] == args[1]);
        assert(more.skip(2) =~= args.skip(2) + seq![flag, value]);
        law_a_later_option_counts(args.skip(2), so_far.insert(args[0], args[1]), flag, value);
    }
}

/// A flag that is not known, and one without its value, end the reading with an error.
pub proof fn law_unknown_flags_are_refused(args: Seq<Seq<char>>, so_far: Options)
    requires
        args.len() > 0,
    ensures
        flag_value(args[0]) is None ==> read_options(args, so_far) is Err,
        args.len() == 1 ==> read_options(args, so_far) is Err,
        args[0] == "--duckdb-rollover-bytes"@ && args.len() > 1 && parse_unsigned(
            args[1],
            u64::MAX as nat,
        ) is None ==> read_options(args, so_far) is Err,
        args[0] == "--state-root"@ || args[0] == "--duckdb"@ || args[0] == "--usage-journal-dir"@
            || args[0] == "--postgres-control-database-url-env"@ || args[0]
            == "--request-cache-url-env"@ || args[0] == "--request-cache-key-prefix"@ || args[0]
            == "--duckdb-active-dir"@ || args[0] == "--duckdb-archive-dir"@ || args[0]
            == "--usage-details-dir"@ || args[0] == "--duckdb-rollover-bytes"@ ==> flag_value(
            args[0],
        ) is Some,
        !starts_with_dashes(args[0]) ==> flag_value(args[0]) is None,
{
    reveal_strlit("--state-root");
    reveal_strlit("--duckdb");
    reveal_strlit("--duckdb-active-dir");
    reveal_strlit("--duckdb-archive-dir");
    reveal_strlit("--usage-details-dir");
    reveal_strlit("--usage-journal-dir");
    reveal_strlit("--postgres-control-database-url-env");
    reveal_strlit("--request-cache-url-env");
    reveal_strlit("--request-cache-key-prefix");
    reveal_strlit("--duckdb-rollover-bytes");
}

/// A text that begins with two hyphens.
pub open spec fn starts_with_dashes(text: Seq<char>) -> bool {
    text.len() >= 2 && text[0] == '-' && text[1] == '-'
}

/// What a configuration must name, and what it must name together: the state root, the
/// database, both parts of the cache or none, both directories of the tiers or none of
/// their options.
pub proof fn law_what_a_configuration_must_name(
    args: Seq<Seq<char>>,
    node_identity: Result<Option<String>, String>,
    config: StorageConfig,
)
    requires
        storage_result(args, node_identity, Ok(config)),
    ensures
        read_options(args, Map::empty()) matches Ok(options) && {
            &&& given(options, "--state-root"@) == Some(config.state_root@)
            &&& given(options, "--postgres-control-database-url-env"@) == Some(
                config.control_store.database_url_env@,
            )
            &&& given(options, "--request-cache-url-env"@) is Some <==> given(
                options,
                "--request-cache-key-prefix"@,
            ) is Some
            &&& given(options, "--request-cache-url-env"@) is Some <==> config.request_cache is Some
            &&& given(options, "--duckdb"@) matches Some(path) ==> config.duckdb@ == path
            &&& given(options, "--duckdb"@) is None ==> config.duckdb@ == inside(
                config.state_root@,
                "analytics/usage.duckdb"@,
            )
            &&& given(options, "--usage-journal-dir"@) matches Some(path)
                ==> config.usage_journal_dir@ == path
            &&& given(options, "--usage-journal-dir"@) is None ==> config.usage_journal_dir@
                == inside(config.state_root@, "usage-journal"@)
            &&& given(options, "--duckdb-active-dir"@) is Some <==> config.duckdb_tiered is Some
            &&& given(options, "--duckdb-archive-dir"@) is Some <==> config.duckdb_tiered is Some
            &&& config.duckdb_tiered matches Some(tiers) ==> given(options, "--duckdb-active-dir"@)
                == Some(tiers.active_dir@) && given(options, "--duckdb-archive-dir"@) == Some(
                tiers.archive_dir@,
            ) && tiers.rollover_bytes >= 1 && (given(options, "--duckdb-rollover-bytes"@) is None
                ==> tiers.rollover_bytes == 64 * 1024 * 1024)
        },
        node_identity is Ok,
{
}

/// The address that is bound is the one that was named; every other argument is left for the
/// rest, in its order. Without one the address stays.
pub proof fn law_the_bound_address(
    args: Seq<Seq<char>>,
    addresses: Seq<Seq<char>>,
    bind: Seq<char>,
    address: Seq<char>,
)
    requires
        forall|i: int| 0 <= i < args.len() ==> #[trigger] args[i] != "--bind"@,
    ensures
        read_bind(args, addresses, bind) == Ok::<(Seq<char>, Seq<Seq<char>>), CliErrorView>(
            (bind, args),
        ),
        addresses.contains(address) ==> read_bind(
            seq!["--bind"@, address] + args,
            addresses,
            bind,
        ) == Ok::<(Seq<char>, Seq<Seq<char>>), CliErrorView>((address, args)),
        !addresses.contains(address) ==> read_bind(
            seq!["--bind"@, address] + args,
            addresses,
            bind,
        ) is Err,
    decreases args.len(),
{
    lemma_no_bind(args, addresses, bind);
    lemma_no_bind(args, addresses, address);
    let more = seq!["--bind"@, address] + args;
    assert(more.skip(2) =~= args);
    assert(more[0] == "--bind"@ && more[1] == address);
}

proof fn lemma_no_bind(args: Seq<Seq<char>>, addresses: Seq<Seq<char>>, bind: Seq<char>)
    requires
        forall|i: int| 0 <= i < args.len() ==> #[trigger] args[i] != "--bind"@,
    ensures
        read_bind(args, addresses, bind) == Ok::<(Seq<char>, Seq<Seq<char>>), CliErrorView>(
            (bind, args),
        ),
    decreases args.len(),
{
    if args.len() == 0 {
        assert(args =~= Seq::<Seq<char>>::empty());
    } else {
        let rest = args.skip(1);
        assert(args[0] != "--bind"@);
        assert forall|i: int| 0 <= i < rest.len() implies #[trigger] rest[i] != "--bind"@ by {
            assert(rest[i] == args[i + 1]);
        }
        lemma_no_bind(rest, addresses, bind);
        assert(seq![args[0]] + rest =~= args);
    }
}

/// Only the two commands are served, each as itself.
pub proof fn law_only_two_commands_are_known(
    args: Seq<Seq<char>>,
    addresses: Seq<Seq<char>>,
    node_identity: Result<Option<String>, String>,
    result: Result<CliCommand, CliError>,
)
    requires
        command_result(args, addresses, node_identity, result),
    ensures
        result matches Ok(CliCommand::Init(_)) ==> args.len() >= 2 && args[1] == "init"@,
        result matches Ok(CliCommand::Serve(_)) ==> args.len() >= 2 && args[1] == "serve"@,
        args.len() < 2 ==> result is Err,
{
}

} // verus!
