//! The catalog of archived usage: its queries, their fingerprints, and the rows that are
//! written to it.

use vstd::prelude::*;
use vstd::relations::{sorted_by, total_ordering};
use vstd::seq_lib::lemma_sorted_unique;
use crate::json::non_negative_i64_to_u64;
use crate::order::{lemma_text_order, text_before, text_less};
use crate::text::{chars_of, concat2, concat3, decimal, decimal_of, decimal_of_signed,
    decimal_signed, fill, filled, hole_views, join, joined, nonempty_trim, opt_str, opt_text,
    parse_number, parse_unsigned, same_text, split, split_chars, texts, trim, trimmed_nonempty};
use crate::usage_meta::{clamp_u64_to_i64, clamp_usize_to_i64, clamped};

verus! {

// ---------------------------------------------------------------------------
// Records
// ---------------------------------------------------------------------------

/// An archived segment.
pub struct UsageCatalogSegment {
    pub archive_path: String,
    pub start_ms: Option<i64>,
    pub end_ms: Option<i64>,
    pub row_count: usize,
}

/// A field that the catalog indexes.
#[derive(Debug, Clone, Copy, PartialEq, Eq, Structural)]
pub enum UsageCatalogFieldName {
    Model,
    AccountName,
    Endpoint,
    StatusCode,
    StatusKind,
}

pub open spec fn field_text(field: UsageCatalogFieldName) -> Seq<char> {
    match field {
        UsageCatalogFieldName::Model => "model"@,
        UsageCatalogFieldName::AccountName => "account_name"@,
        UsageCatalogFieldName::Endpoint => "endpoint"@,
        UsageCatalogFieldName::StatusCode => "status_code"@,
        UsageCatalogFieldName::StatusKind => "status_kind"@,
    }
}

impl UsageCatalogFieldName {
    pub fn as_storage_str(self) -> (text: &'static str)
        ensures
            text@ == field_text(self),
    {
        match self {
            UsageCatalogFieldName::Model => "model",
            UsageCatalogFieldName::AccountName => "account_name",
            UsageCatalogFieldName::Endpoint => "endpoint",
            UsageCatalogFieldName::StatusCode => "status_code",
            UsageCatalogFieldName::StatusKind => "status_kind",
        }
    }
}

/// A field must have a given value.
pub struct UsageCatalogFieldFilter {
    pub field_name: UsageCatalogFieldName,
    pub field_value: String,
}

/// A query over archived segments.
pub struct UsageCatalogQuery {
    /// Events at or after this time.
    pub start_ms: Option<i64>,
    /// Events before this time.
    pub end_ms: Option<i64>,
    pub key_id: Option<String>,
    pub provider_type: Option<String>,
    pub field_filters: Vec<UsageCatalogFieldFilter>,
}

/// The totals of the events of a segment that match a query.
pub struct UsageCatalogSegmentTotals {
    pub event_count: usize,
    pub input_uncached_tokens: u64,
    pub input_cached_tokens: u64,
    pub output_tokens: u64,
    pub billable_tokens: u64,
}

/// A segment that may hold matching events, with their totals where the catalog knows
/// them.
pub struct UsageCatalogSegmentMatch {
    pub segment: UsageCatalogSegment,
    pub matching_totals: Option<UsageCatalogSegmentTotals>,
}

/// What one key used in a segment.
pub struct UsageCatalogKeyRollupRecord {
    pub key_id: String,
    pub provider_type: String,
    pub row_count: usize,
    pub input_uncached_tokens: i64,
    pub input_cached_tokens: i64,
    pub output_tokens: i64,
    pub billable_tokens: i64,
    pub credit_total: String,
    pub credit_missing_events: i64,
    pub first_used_at_ms: Option<i64>,
    pub last_used_at_ms: Option<i64>,
}

/// What was used in a segment under one value of a field.
pub struct UsageCatalogFieldRollupRecord {
    pub key_id: Option<String>,
    pub provider_type: Option<String>,
    pub field_name: UsageCatalogFieldName,
    pub field_value: String,
    pub row_count: usize,
    pub input_uncached_tokens: i64,
    pub input_cached_tokens: i64,
    pub output_tokens: i64,
    pub billable_tokens: i64,
    pub first_used_at_ms: Option<i64>,
    pub last_used_at_ms: Option<i64>,
}

// ---------------------------------------------------------------------------
// Numbers and keys
// ---------------------------------------------------------------------------

pub fn option_i64_key(value: Option<i64>) -> (key: String)
    ensures
        key@ == number_key(value),
{
    match value {
        Some(value) => decimal_of_signed(value),
        None => "-".to_owned(),
    }
}

pub open spec fn number_key(value: Option<i64>) -> Seq<char> {
    match value {
        Some(value) => decimal_signed(value as int),
        None => "-"@,
    }
}

pub fn option_str_key(value: Option<&str>) -> (key: String)
    ensures
        key@ == name_key(opt_str(value)),
{
    match value {
        Some(value) => value.to_owned(),
        None => "-".to_owned(),
    }
}

pub open spec fn name_key(value: Option<Seq<char>>) -> Seq<char> {
    match value {
        Some(value) => value,
        None => "-"@,
    }
}

/// A blank amount counts as nothing.
pub fn normalize_credit_total(value: &str) -> (total: String)
    ensures
        total@ == credit_text(value@),
{
    match trimmed_nonempty(value) {
        Some(trimmed) => trimmed,
        None => "0".to_owned(),
    }
}

pub open spec fn credit_text(value: Seq<char>) -> Seq<char> {
    match nonempty_trim(value) {
        Some(trimmed) => trimmed,
        None => "0"@,
    }
}

/// The error of a count that is no count.
pub open spec fn count_error(value: i64) -> Seq<char> {
    "catalog value `"@ + decimal_signed(value as int) + "` exceeds usize"@
}

pub fn i64_to_usize(value: i64) -> (result: Result<usize, String>)
    ensures
        match result {
            Ok(count) => count == value,
            Err(message) => !(0 <= value <= usize::MAX) && message@ == count_error(value),
        },
{
    if value >= 0 && value as u64 <= usize::MAX as u64 {
        Ok(value as usize)
    } else {
        Err(
            concat3(
                "catalog value `",
                decimal_of_signed(value).as_str(),
                "` exceeds usize",
            ),
        )
    }
}

pub fn usize_to_i64(value: usize) -> (result: i64)
    ensures
        result == clamped(value as int),
{
    clamp_usize_to_i64(value)
}

pub fn u64_to_i64(value: u64) -> (result: i64)
    ensures
        result == clamped(value as int),
{
    clamp_u64_to_i64(value)
}

/// The number at the end of a segment id, behind its last dash.
pub open spec fn sequence_of(segment_id: Seq<char>) -> Option<nat> {
    parse_unsigned(split(segment_id, '-').last(), u64::MAX as nat)
}

pub fn parse_sequence_from_segment_id(segment_id: &str) -> (result: Option<u64>)
    ensures
        match result {
            Some(n) => sequence_of(segment_id@) == Some(n as nat),
            None => sequence_of(segment_id@) is None,
        },
{
    let pieces = split_chars(&chars_of(segment_id), '-');
    assert(texts(pieces@).last() == pieces@[pieces@.len() - 1]@);
    parse_number(pieces[pieces.len() - 1].as_str(), u64::MAX)
}

/// The sequence number of the newest segment. `latest` is its id; without one, and with one
/// of another form, counting starts at zero.
pub fn next_sequence(latest: Option<&str>) -> (sequence: u64)
    ensures
        sequence as nat == match latest {
            Some(id) => match sequence_of(id@) {
                Some(n) => n,
                None => 0,
            },
            None => 0,
        },
{
    match latest {
        Some(id) => match parse_sequence_from_segment_id(id) {
            Some(n) => n,
            None => 0,
        },
        None => 0,
    }
}

// ---------------------------------------------------------------------------
// Queries
// ---------------------------------------------------------------------------

/// A segment overlaps the time range of a query.
pub const SEGMENT_TIME_OVERLAP: &'static str = "($1::BIGINT IS NULL OR {alias}.end_ms IS NULL OR {alias}.end_ms >= $1)
         AND ($2::BIGINT IS NULL OR {alias}.start_ms IS NULL OR {alias}.start_ms < $2)";

/// A rollup overlaps the time range of a query.
pub const SCOPED_TIME_OVERLAP: &'static str = "($1::BIGINT IS NULL OR {alias}.last_used_at_ms IS NULL OR {alias}.last_used_at_ms >= $1)
         AND ($2::BIGINT IS NULL OR {alias}.first_used_at_ms IS NULL OR {alias}.first_used_at_ms < $2)";

/// A field rollup belongs to the scope of a query. The rollups over everything have empty scopes.
pub const FIELD_ROLLUP_SCOPE: &'static str = "((($3::TEXT IS NULL AND $4::TEXT IS NULL)
            AND {alias}.key_id = ''
            AND {alias}.provider_type = '')
          OR (($3::TEXT IS NOT NULL OR $4::TEXT IS NOT NULL)
              AND ({alias}.key_id <> '' OR {alias}.provider_type <> '')
              AND ($3::TEXT IS NULL OR {alias}.key_id = $3)
              AND ($4::TEXT IS NULL OR {alias}.provider_type = $4)))";

/// The usage of each key over all segments.
pub const KEY_USAGE_ROLLUPS: &'static str = "SELECT
            key_id,
            {input_uncached_tokens},
            {input_cached_tokens},
            {output_tokens},
            {billable_tokens},
            COALESCE(SUM((credit_total)::numeric), 0)::text,
            {credit_missing_events},
            MAX(last_used_at_ms)
         FROM llm_usage_segment_key_rollups
         GROUP BY key_id";

/// The segments in the scope of a query without filters.
pub const SEGMENTS_IN_SCOPE: &'static str = "SELECT
            s.archive_path,
            s.start_ms,
            s.end_ms,
            s.row_count,
            CASE
                WHEN $3::TEXT IS NULL AND $4::TEXT IS NULL THEN s.row_count::BIGINT
                ELSE {matching_row_count}
            END AS matching_row_count,
            CASE
                WHEN $3::TEXT IS NULL AND $4::TEXT IS NULL THEN s.input_uncached_tokens
                ELSE {input_uncached_tokens}
            END AS input_uncached_tokens,
            CASE
                WHEN $3::TEXT IS NULL AND $4::TEXT IS NULL THEN s.input_cached_tokens
                ELSE {input_cached_tokens}
            END AS input_cached_tokens,
            CASE
                WHEN $3::TEXT IS NULL AND $4::TEXT IS NULL THEN s.output_tokens
                ELSE {output_tokens}
            END AS output_tokens,
            CASE
                WHEN $3::TEXT IS NULL AND $4::TEXT IS NULL THEN s.billable_tokens
                ELSE {billable_tokens}
            END AS billable_tokens
         FROM llm_usage_segments s
         LEFT JOIN llm_usage_segment_key_rollups r
           ON r.segment_id = s.segment_id
          AND ($3::TEXT IS NULL OR r.key_id = $3)
          AND ($4::TEXT IS NULL OR r.provider_type = $4)
          AND {scoped_time_overlap}
         WHERE s.state = 'archived'
           AND {segment_time_overlap}
         GROUP BY
            s.segment_id, s.archive_path, s.start_ms, s.end_ms, s.row_count,
            s.input_uncached_tokens, s.input_cached_tokens, s.output_tokens,
            s.billable_tokens
         HAVING ($3::TEXT IS NULL AND $4::TEXT IS NULL) OR {matching_row_count} > 0
         ORDER BY COALESCE(s.end_ms, 0) DESC, s.segment_id DESC";

/// The segments that match a query with one filter.
pub const SEGMENTS_BY_FIELD: &'static str = "SELECT
            s.archive_path,
            s.start_ms,
            s.end_ms,
            s.row_count,
            {matching_row_count} AS matching_row_count,
            {input_uncached_tokens} AS input_uncached_tokens,
            {input_cached_tokens} AS input_cached_tokens,
            {output_tokens} AS output_tokens,
            {billable_tokens} AS billable_tokens
         FROM llm_usage_segments s
         JOIN llm_usage_segment_field_rollups f
           ON f.segment_id = s.segment_id
         WHERE s.state = 'archived'
           AND {segment_time_overlap}
           AND {field_scope}
           AND {field_time_overlap}
           AND f.field_name = $5
           AND f.field_value = $6
         GROUP BY s.segment_id, s.archive_path, s.start_ms, s.end_ms, s.row_count
         HAVING {matching_row_count} > 0
         ORDER BY COALESCE(s.end_ms, 0) DESC, s.segment_id DESC";

/// The segments that match a query with several filters. No totals are known of those.
pub const SEGMENTS_BY_FIELDS: &'static str = "SELECT
            s.archive_path,
            s.start_ms,
            s.end_ms,
            s.row_count,
            NULL::BIGINT AS matching_row_count,
            NULL::BIGINT AS input_uncached_tokens,
            NULL::BIGINT AS input_cached_tokens,
            NULL::BIGINT AS output_tokens,
            NULL::BIGINT AS billable_tokens
         FROM llm_usage_segments s
         WHERE s.state = 'archived'
           AND {segment_time_overlap}
           AND {exists_sql}
         ORDER BY COALESCE(s.end_ms, 0) DESC, s.segment_id DESC";

/// One filter of several.
pub const FIELD_EXISTS: &'static str = "EXISTS (
                SELECT 1
                FROM llm_usage_segment_field_rollups {alias}
                WHERE {alias}.segment_id = s.segment_id
                  AND {field_scope}
                  AND {field_time_overlap}
                  AND {alias}.field_name = ${field_param}
                  AND {alias}.field_value = ${value_param}
            )";

/// The values of a field in the scope of a query.
pub const FILTER_OPTIONS: &'static str = "SELECT DISTINCT f.field_value
         FROM llm_usage_segment_field_rollups f
         JOIN llm_usage_segments s ON s.segment_id = f.segment_id
         WHERE s.state = 'archived'
           AND {segment_time_overlap}
           AND {field_scope}
           AND {field_time_overlap}
           AND f.field_name = $5
         ORDER BY f.field_value";

/// A sum as a number of the database's own type for whole numbers.
pub open spec fn sum_bigint(expr: Seq<char>) -> Seq<char> {
    "COALESCE(SUM("@ + expr + "), 0)::BIGINT"@
}

pub fn sum_bigint_sql(expr: &str) -> (sql: String)
    ensures
        sql@ == sum_bigint(expr@),
{
    concat3("COALESCE(SUM(", expr, "), 0)::BIGINT")
}

pub open spec fn with_alias(text: Seq<char>, alias: Seq<char>) -> Seq<char> {
    filled(text, seq![("{alias}"@, alias)])
}

fn fill_alias(text: &str, alias: &str) -> (sql: String)
    ensures
        sql@ == with_alias(text@, alias@),
{
    proof {
        reveal_strlit("{alias}");
    }
    let mut holes: Vec<(&str, String)> = Vec::new();
    holes.push(("{alias}", alias.to_owned()));
    assert(hole_views(holes@) =~= seq![("{alias}"@, alias@)]);
    fill(text, &holes)
}

pub fn segment_time_overlap_sql(alias: &str) -> (sql: String)
    ensures
        sql@ == with_alias(SEGMENT_TIME_OVERLAP@, alias@),
{
    fill_alias(SEGMENT_TIME_OVERLAP, alias)
}

pub fn scoped_time_overlap_sql(alias: &str) -> (sql: String)
    ensures
        sql@ == with_alias(SCOPED_TIME_OVERLAP@, alias@),
{
    fill_alias(SCOPED_TIME_OVERLAP, alias)
}

pub fn field_rollup_scope_sql(alias: &str) -> (sql: String)
    ensures
        sql@ == with_alias(FIELD_ROLLUP_SCOPE@, alias@),
{
    fill_alias(FIELD_ROLLUP_SCOPE, alias)
}

pub fn archived_key_usage_rollups_sql() -> (sql: String)
    ensures
        sql@ == filled(
            KEY_USAGE_ROLLUPS@,
            seq![
                ("{input_uncached_tokens}"@, sum_bigint("input_uncached_tokens"@)),
                ("{input_cached_tokens}"@, sum_bigint("input_cached_tokens"@)),
                ("{output_tokens}"@, sum_bigint("output_tokens"@)),
                ("{billable_tokens}"@, sum_bigint("billable_tokens"@)),
                ("{credit_missing_events}"@, sum_bigint("credit_missing_events"@)),
            ],
        ),
{
    proof {
        reveal_strlit("{input_uncached_tokens}");
        reveal_strlit("{input_cached_tokens}");
        reveal_strlit("{output_tokens}");
        reveal_strlit("{billable_tokens}");
        reveal_strlit("{credit_missing_events}");
    }
    let mut holes: Vec<(&str, String)> = Vec::new();
    holes.push(("{input_uncached_tokens}", sum_bigint_sql("input_uncached_tokens")));
    holes.push(("{input_cached_tokens}", sum_bigint_sql("input_cached_tokens")));
    holes.push(("{output_tokens}", sum_bigint_sql("output_tokens")));
    holes.push(("{billable_tokens}", sum_bigint_sql("billable_tokens")));
    holes.push(("{credit_missing_events}", sum_bigint_sql("credit_missing_events")));
    assert(hole_views(holes@) =~= seq![
        ("{input_uncached_tokens}"@, sum_bigint("input_uncached_tokens"@)),
        ("{input_cached_tokens}"@, sum_bigint("input_cached_tokens"@)),
        ("{output_tokens}"@, sum_bigint("output_tokens"@)),
        ("{billable_tokens}"@, sum_bigint("billable_tokens"@)),
        ("{credit_missing_events}"@, sum_bigint("credit_missing_events"@)),
    ]);
    fill(KEY_USAGE_ROLLUPS, &holes)
}

/// The sums over matching rollups, under the names of a query's holes.
pub open spec fn sum_holes(
    row_count: Seq<char>,
    input_uncached_tokens: Seq<char>,
    input_cached_tokens: Seq<char>,
    output_tokens: Seq<char>,
    billable_tokens: Seq<char>,
) -> Seq<(Seq<char>, Seq<char>)> {
    seq![
        ("{matching_row_count}"@, sum_bigint(row_count)),
        ("{input_uncached_tokens}"@, sum_bigint(input_uncached_tokens)),
        ("{input_cached_tokens}"@, sum_bigint(input_cached_tokens)),
        ("{output_tokens}"@, sum_bigint(output_tokens)),
        ("{billable_tokens}"@, sum_bigint(billable_tokens)),
    ]
}

fn push_sums<'a>(
    holes: &mut Vec<(&'a str, String)>,
    row_count: &str,
    input_uncached_tokens: &str,
    input_cached_tokens: &str,
    output_tokens: &str,
    billable_tokens: &str,
)
    requires
        old(holes).len() == 0,
    ensures
        hole_views(final(holes)@) == sum_holes(
            row_count@,
            input_uncached_tokens@,
            input_cached_tokens@,
            output_tokens@,
            billable_tokens@,
        ),
        forall|i: int| 0 <= i < final(holes)@.len() ==> (#[trigger] final(holes)@[i]).0@.len() > 0,
{
    proof {
        reveal_strlit("{matching_row_count}");
        reveal_strlit("{input_uncached_tokens}");
        reveal_strlit("{input_cached_tokens}");
        reveal_strlit("{output_tokens}");
        reveal_strlit("{billable_tokens}");
    }
    holes.push(("{matching_row_count}", sum_bigint_sql(row_count)));
    holes.push(("{input_uncached_tokens}", sum_bigint_sql(input_uncached_tokens)));
    holes.push(("{input_cached_tokens}", sum_bigint_sql(input_cached_tokens)));
    holes.push(("{output_tokens}", sum_bigint_sql(output_tokens)));
    holes.push(("{billable_tokens}", sum_bigint_sql(billable_tokens)));
    assert(hole_views(holes@) =~= sum_holes(
        row_count@,
        input_uncached_tokens@,
        input_cached_tokens@,
        output_tokens@,
        billable_tokens@,
    ));
}

pub open spec fn scope_only_sql() -> Seq<char> {
    filled(
        SEGMENTS_IN_SCOPE@,
        sum_holes(
            "r.row_count"@,
            "r.input_uncached_tokens"@,
            "r.input_cached_tokens"@,
            "r.output_tokens"@,
            "r.billable_tokens"@,
        ) + seq![
            ("{scoped_time_overlap}"@, with_alias(SCOPED_TIME_OVERLAP@, "r"@)),
            ("{segment_time_overlap}"@, with_alias(SEGMENT_TIME_OVERLAP@, "s"@)),
        ],
    )
}

pub fn filtered_archived_segments_sql_for_scope_only() -> (sql: String)
    ensures
        sql@ == scope_only_sql(),
{
    let mut holes: Vec<(&str, String)> = Vec::new();
    push_sums(
        &mut holes,
        "r.row_count",
        "r.input_uncached_tokens",
        "r.input_cached_tokens",
        "r.output_tokens",
        "r.billable_tokens",
    );
    let ghost sums = hole_views(holes@);
    proof {
        reveal_strlit("{scoped_time_overlap}");
        reveal_strlit("{segment_time_overlap}");
    }
    holes.push(("{scoped_time_overlap}", scoped_time_overlap_sql("r")));
    holes.push(("{segment_time_overlap}", segment_time_overlap_sql("s")));
    assert(hole_views(holes@) =~= sums + seq![
        ("{scoped_time_overlap}"@, with_alias(SCOPED_TIME_OVERLAP@, "r"@)),
        ("{segment_time_overlap}"@, with_alias(SEGMENT_TIME_OVERLAP@, "s"@)),
    ]);
    fill(SEGMENTS_IN_SCOPE, &holes)
}

/// The conditions of a query on the rollups of a field, under the names of its holes.
pub open spec fn field_holes(alias: Seq<char>) -> Seq<(Seq<char>, Seq<char>)> {
    seq![
        ("{segment_time_overlap}"@, with_alias(SEGMENT_TIME_OVERLAP@, "s"@)),
        ("{field_scope}"@, with_alias(FIELD_ROLLUP_SCOPE@, alias)),
        ("{field_time_overlap}"@, with_alias(SCOPED_TIME_OVERLAP@, alias)),
    ]
}

fn push_field_holes<'a>(holes: &mut Vec<(&'a str, String)>, alias: &str)
    requires
        forall|i: int| 0 <= i < old(holes)@.len() ==> (#[trigger] old(holes)@[i]).0@.len() > 0,
    ensures
        hole_views(final(holes)@) == hole_views(old(holes)@) + field_holes(alias@),
        forall|i: int| 0 <= i < final(holes)@.len() ==> (#[trigger] final(holes)@[i]).0@.len() > 0,
{
    proof {
        reveal_strlit("{segment_time_overlap}");
        reveal_strlit("{field_scope}");
        reveal_strlit("{field_time_overlap}");
    }
    holes.push(("{segment_time_overlap}", segment_time_overlap_sql("s")));
    holes.push(("{field_scope}", field_rollup_scope_sql(alias)));
    holes.push(("{field_time_overlap}", scoped_time_overlap_sql(alias)));
    assert(hole_views(holes@) =~= hole_views(old(holes)@) + field_holes(alias@));
}

pub open spec fn single_field_sql() -> Seq<char> {
    filled(
        SEGMENTS_BY_FIELD@,
        sum_holes(
            "f.row_count"@,
            "f.input_uncached_tokens"@,
            "f.input_cached_tokens"@,
            "f.output_tokens"@,
            "f.billable_tokens"@,
        ) + field_holes("f"@),
    )
}

pub fn filtered_archived_segments_sql_for_single_field() -> (sql: String)
    ensures
        sql@ == single_field_sql(),
{
    let mut holes: Vec<(&str, String)> = Vec::new();
    push_sums(
        &mut holes,
        "f.row_count",
        "f.input_uncached_tokens",
        "f.input_cached_tokens",
        "f.output_tokens",
        "f.billable_tokens",
    );
    push_field_holes(&mut holes, "f");
    fill(SEGMENTS_BY_FIELD, &holes)
}

/// The condition of the `index`-th of several filters.
pub open spec fn field_exists(index: nat) -> Seq<char> {
    let alias = "f"@ + decimal(index);
    filled(
        FIELD_EXISTS@,
        seq![
            ("{alias}"@, alias),
            ("{field_scope}"@, with_alias(FIELD_ROLLUP_SCOPE@, alias)),
            ("{field_time_overlap}"@, with_alias(SCOPED_TIME_OVERLAP@, alias)),
            ("{field_param}"@, decimal(5 + index * 2)),
            ("{value_param}"@, decimal(6 + index * 2)),
        ],
    )
}

fn field_exists_sql(index: u64) -> (sql: String)
    requires
        6 + index * 2 <= u64::MAX,
    ensures
        sql@ == field_exists(index as nat),
{
    let alias = concat2("f", decimal_of(index).as_str());
    proof {
        reveal_strlit("{alias}");
        reveal_strlit("{field_scope}");
        reveal_strlit("{field_time_overlap}");
        reveal_strlit("{field_param}");
        reveal_strlit("{value_param}");
    }
    let mut holes: Vec<(&str, String)> = Vec::new();
    holes.push(("{alias}", alias.clone()));
    holes.push(("{field_scope}", field_rollup_scope_sql(alias.as_str())));
    holes.push(("{field_time_overlap}", scoped_time_overlap_sql(alias.as_str())));
    holes.push(("{field_param}", decimal_of(5 + index * 2)));
    holes.push(("{value_param}", decimal_of(6 + index * 2)));
    assert(hole_views(holes@) =~= seq![
        ("{alias}"@, alias@),
        ("{field_scope}"@, with_alias(FIELD_ROLLUP_SCOPE@, alias@)),
        ("{field_time_overlap}"@, with_alias(SCOPED_TIME_OVERLAP@, alias@)),
        ("{field_param}"@, decimal((5 + index * 2) as nat)),
        ("{value_param}"@, decimal((6 + index * 2) as nat)),
    ]);
    fill(FIELD_EXISTS, &holes)
}

pub open spec fn fields_exist(count: nat) -> Seq<char> {
    if count == 0 {
        "TRUE"@
    } else {
        join(Seq::new(count, |i: int| field_exists(i as nat)), "\n           AND "@)
    }
}

pub open spec fn multi_field_sql(count: nat) -> Seq<char> {
    filled(
        SEGMENTS_BY_FIELDS@,
        seq![
            ("{segment_time_overlap}"@, with_alias(SEGMENT_TIME_OVERLAP@, "s"@)),
            ("{exists_sql}"@, fields_exist(count)),
        ],
    )
}

pub fn filtered_archived_segments_sql_for_multi_field(filter_count: usize) -> (sql: String)
    requires
        6 + filter_count * 2 <= u64::MAX,
    ensures
        sql@ == multi_field_sql(filter_count as nat),
{
    let mut conditions: Vec<String> = Vec::new();
    let mut index: usize = 0;
    while index < filter_count
        invariant
            index <= filter_count,
            6 + filter_count * 2 <= u64::MAX,
            conditions.len() == index,
            forall|k: int| 0 <= k < index ==> (#[trigger] conditions@[k])@ == field_exists(k as nat),
        decreases filter_count - index,
    {
        conditions.push(field_exists_sql(index as u64));
        index += 1;
    }
    let exists_sql = if filter_count == 0 {
        "TRUE".to_owned()
    } else {
        assert(texts(conditions@) =~= Seq::new(
            filter_count as nat,
            |i: int| field_exists(i as nat),
        ));
        joined(&conditions, "\n           AND ")
    };
    proof {
        reveal_strlit("{segment_time_overlap}");
        reveal_strlit("{exists_sql}");
    }
    let mut holes: Vec<(&str, String)> = Vec::new();
    holes.push(("{segment_time_overlap}", segment_time_overlap_sql("s")));
    holes.push(("{exists_sql}", exists_sql));
    assert(hole_views(holes@) =~= seq![
        ("{segment_time_overlap}"@, with_alias(SEGMENT_TIME_OVERLAP@, "s"@)),
        ("{exists_sql}"@, fields_exist(filter_count as nat)),
    ]);
    fill(SEGMENTS_BY_FIELDS, &holes)
}

pub fn archived_filter_option_values_sql() -> (sql: String)
    ensures
        sql@ == filled(FILTER_OPTIONS@, field_holes("f"@)),
{
    let mut holes: Vec<(&str, String)> = Vec::new();
    push_field_holes(&mut holes, "f");
    assert(hole_views(holes@) =~= field_holes("f"@));
    fill(FILTER_OPTIONS, &holes)
}

/// The query for the segments that may hold matching events.
pub fn load_archived_segment_matches_for_query(query: &UsageCatalogQuery) -> (sql: String)
    requires
        6 + query.field_filters.len() * 2 <= u64::MAX,
    ensures
        sql@ == if query.field_filters@.len() == 0 {
            scope_only_sql()
        } else if query.field_filters@.len() == 1 {
            single_field_sql()
        } else {
            multi_field_sql(query.field_filters@.len())
        },
{
    if query.field_filters.len() == 0 {
        filtered_archived_segments_sql_for_scope_only()
    } else if query.field_filters.len() == 1 {
        filtered_archived_segments_sql_for_single_field()
    } else {
        filtered_archived_segments_sql_for_multi_field(query.field_filters.len())
    }
}

/// The parameters of the filters: the name and the value of each, in their order.
pub open spec fn filter_params(filters: Seq<UsageCatalogFieldFilter>) -> Seq<Seq<char>>
    decreases filters.len(),
{
    if filters.len() == 0 {
        Seq::empty()
    } else {
        filter_params(filters.drop_last()).push(field_text(filters.last().field_name)).push(
            filters.last().field_value@,
        )
    }
}

pub fn segment_match_params(query: &UsageCatalogQuery) -> (params: Vec<String>)
    ensures
        texts(params@) == filter_params(query.field_filters@),
{
    let filters = &query.field_filters;
    let mut params: Vec<String> = Vec::new();
    let mut i: usize = 0;
    assert(filters@.take(0) =~= Seq::<UsageCatalogFieldFilter>::empty());
    assert(texts(params@) =~= Seq::<Seq<char>>::empty());
    while i < filters.len()
        invariant
            i <= filters.len(),
            texts(params@) == filter_params(filters@.take(i as int)),
        decreases filters.len() - i,
    {
        let ghost head = filters@.take(i + 1);
        assert(head.drop_last() =~= filters@.take(i as int));
        let ghost before = texts(params@);
        params.push(filters[i].field_name.as_storage_str().to_owned());
        params.push(filters[i].field_value.clone());
        assert(texts(params@) =~= before.push(field_text(filters@[i as int].field_name)).push(
            filters@[i as int].field_value@,
        ));
        i += 1;
    }
    assert(filters@.take(i as int) =~= filters@);
    params
}

// ---------------------------------------------------------------------------
// Fingerprints
// ---------------------------------------------------------------------------

/// A filter as a pair of texts.
pub open spec fn filter_pair(filter: UsageCatalogFieldFilter) -> (Seq<char>, Seq<char>) {
    (field_text(filter.field_name), filter.field_value@)
}

pub open spec fn filter_pairs(filters: Seq<UsageCatalogFieldFilter>) -> Seq<(Seq<char>, Seq<char>)> {
    Seq::new(filters.len(), |i: int| filter_pair(filters[i]))
}

/// Filters are ordered by name, then by value.
pub open spec fn pair_le(a: (Seq<char>, Seq<char>), b: (Seq<char>, Seq<char>)) -> bool {
    text_before(a.0, b.0) || (a.0 == b.0 && (text_before(a.1, b.1) || a.1 == b.1))
}

pub open spec fn pair_order() -> spec_fn((Seq<char>, Seq<char>), (Seq<char>, Seq<char>)) -> bool {
    |a: (Seq<char>, Seq<char>), b: (Seq<char>, Seq<char>)| pair_le(a, b)
}

proof fn lemma_pair_order()
    ensures
        total_ordering(pair_order()),
{
    let le = pair_order();
    assert forall|a: (Seq<char>, Seq<char>)| #[trigger] le(a, a) by {}
    assert forall|a: (Seq<char>, Seq<char>), b: (Seq<char>, Seq<char>)|
        #[trigger] le(a, b) && #[trigger] le(b, a) implies a == b by {
        lemma_text_order(a.0, b.0, a.0);
        lemma_text_order(a.1, b.1, a.1);
    }
    assert forall|
        a: (Seq<char>, Seq<char>),
        b: (Seq<char>, Seq<char>),
        c: (Seq<char>, Seq<char>),
    |
        #[trigger] le(a, b) && #[trigger] le(b, c) implies le(a, c) by {
        lemma_text_order(a.0, b.0, c.0);
        lemma_text_order(a.1, b.1, c.1);
    }
    assert forall|a: (Seq<char>, Seq<char>), b: (Seq<char>, Seq<char>)|
        #[trigger] le(a, b) || #[trigger] le(b, a) by {
        lemma_text_order(a.0, b.0, a.0);
        lemma_text_order(a.1, b.1, a.1);
    }
}

pub open spec fn pair_texts(pairs: Seq<(Seq<char>, Seq<char>)>) -> Seq<Seq<char>> {
    Seq::new(pairs.len(), |i: int| pairs[i].0 + "="@ + pairs[i].1)
}

/// The filters of a query as one text: sorted, so that their order does not matter.
pub open spec fn filters_key(pairs: Seq<(Seq<char>, Seq<char>)>) -> Seq<char> {
    if pairs.len() == 0 {
        "-"@
    } else {
        join(pair_texts(pairs.sort_by(pair_order())), "|"@)
    }
}

/// The text under which the answer to a query is cached.
pub open spec fn fingerprint(query: UsageCatalogQuery) -> Seq<char> {
    "start:"@ + number_key(query.start_ms) + ":end:"@ + number_key(query.end_ms) + ":key:"@
        + name_key(opt_text(query.key_id)) + ":provider:"@ + name_key(opt_text(query.provider_type))
        + ":filters:"@ + filters_key(filter_pairs(query.field_filters@))
}

fn comes_before(a: &UsageCatalogFieldFilter, b: &UsageCatalogFieldFilter) -> (result: bool)
    ensures
        result == pair_le(filter_pair(*a), filter_pair(*b)),
{
    let left = a.field_name.as_storage_str();
    let right = b.field_name.as_storage_str();
    if text_less(left, right) {
        return true;
    }
    same_text(left, right) && (text_less(a.field_value.as_str(), b.field_value.as_str())
        || same_text(a.field_value.as_str(), b.field_value.as_str()))
}

fn copy_filter(filter: &UsageCatalogFieldFilter) -> (result: UsageCatalogFieldFilter)
    ensures
        result == *filter,
{
    UsageCatalogFieldFilter {
        field_name: filter.field_name,
        field_value: filter.field_value.clone(),
    }
}

fn sort_filters(filters: &Vec<UsageCatalogFieldFilter>) -> (sorted: Vec<UsageCatalogFieldFilter>)
    ensures
        filter_pairs(sorted@) == filter_pairs(filters@).sort_by(pair_order()),
{
    let mut sorted: Vec<UsageCatalogFieldFilter> = Vec::new();
    let mut i: usize = 0;
    let ghost pairs = filter_pairs(filters@);
    proof {
        lemma_pair_order();
        assert(pairs.take(0) =~= Seq::<(Seq<char>, Seq<char>)>::empty());
        assert(filter_pairs(sorted@) =~= Seq::<(Seq<char>, Seq<char>)>::empty());
    }
    while i < filters.len()
        invariant
            i <= filters.len(),
            pairs == filter_pairs(filters@),
            total_ordering(pair_order()),
            sorted_by(filter_pairs(sorted@), pair_order()),
            filter_pairs(sorted@).to_multiset() == pairs.take(i as int).to_multiset(),
        decreases filters.len() - i,
    {
        broadcast use vstd::seq_lib::to_multiset_insert;

        let filter = copy_filter(&filters[i]);
        let ghost pair = filter_pair(filter);
        let ghost before = filter_pairs(sorted@);
        let ghost list = sorted@;
        let mut at: usize = 0;
        while at < sorted.len() && comes_before(&sorted[at], &filter)
            invariant
                at <= sorted.len(),
                before == filter_pairs(sorted@),
                pair == filter_pair(filter),
                forall|k: int| 0 <= k < at ==> pair_le(#[trigger] before[k], pair),
            decreases sorted.len() - at,
        {
            at += 1;
        }
        sorted.insert(at, filter);
        let ghost after = filter_pairs(sorted@);
        proof {
            let le = pair_order();
            assert(after =~= before.insert(at as int, pair));
            assert forall|a: int, b: int| 0 <= a < b < after.len() implies #[trigger] le(
                after[a],
                after[b],
            ) by {
                let low = if a < at {
                    a
                } else {
                    a - 1
                };
                let high = if b < at {
                    b
                } else {
                    b - 1
                };
                if a != at && b != at {
                    assert(le(before[low], before[high]));
                } else if b == at {
                    assert(pair_le(before[a], pair));
                } else {
                    assert(le(pair, before[at as int]) || le(before[at as int], pair));
                    assert(pair_le(pair, before[at as int]));
                    if high > at {
                        assert(le(before[at as int], before[high]));
                        assert(le(pair, before[at as int]));
                    }
                }
            }
            assert(pairs.take(i + 1) =~= pairs.take(i as int).insert(i as int, pair));
            assert(after.to_multiset() == before.to_multiset().insert(pair));
        }
        i += 1;
    }
    proof {
        assert(pairs.take(i as int) =~= pairs);
        pairs.lemma_sort_by_ensures(pair_order());
        lemma_sorted_unique(filter_pairs(sorted@), pairs.sort_by(pair_order()), pair_order());
    }
    sorted
}

/// The text under which the answer to a query is cached.
pub fn usage_catalog_query_fingerprint(query: &UsageCatalogQuery) -> (result: String)
    ensures
        result@ == fingerprint(*query),
{
    let filters_text = if query.field_filters.len() == 0 {
        "-".to_owned()
    } else {
        let sorted = sort_filters(&query.field_filters);
        let mut parts: Vec<String> = Vec::new();
        let mut i: usize = 0;
        while i < sorted.len()
            invariant
                i <= sorted.len(),
                parts.len() == i,
                forall|k: int|
                    0 <= k < i ==> (#[trigger] parts@[k])@ == filter_pair(sorted@[k]).0 + "="@
                        + filter_pair(sorted@[k]).1,
            decreases sorted.len() - i,
        {
            parts.push(
                concat3(
                    sorted[i].field_name.as_storage_str(),
                    "=",
                    sorted[i].field_value.as_str(),
                ),
            );
            i += 1;
        }
        assert(texts(parts@) =~= pair_texts(filter_pairs(sorted@)));
        joined(&parts, "|")
    };
    let key_id = match &query.key_id {
        Some(key_id) => option_str_key(Some(key_id.as_str())),
        None => option_str_key(None),
    };
    let provider_type = match &query.provider_type {
        Some(provider_type) => option_str_key(Some(provider_type.as_str())),
        None => option_str_key(None),
    };
    let mut result = concat3("start:", option_i64_key(query.start_ms).as_str(), ":end:");
    result.append(option_i64_key(query.end_ms).as_str());
    result.append(":key:");
    result.append(key_id.as_str());
    result.append(":provider:");
    result.append(provider_type.as_str());
    result.append(":filters:");
    result.append(filters_text.as_str());
    result
}

/// The text under which the values of a field are cached. Nothing where the query filters
/// by fields: then the catalog does not know the values.
pub fn archived_filter_option_values(query: &UsageCatalogQuery, field_name: UsageCatalogFieldName) -> (result:
    Option<String>)
    ensures
        opt_text(result) == if query.field_filters@.len() == 0 {
            Some(fingerprint(*query) + ":field:"@ + field_text(field_name))
        } else {
            None
        },
{
    if query.field_filters.len() > 0 {
        return None;
    }
    Some(
        concat3(
            usage_catalog_query_fingerprint(query).as_str(),
            ":field:",
            field_name.as_storage_str(),
        ),
    )
}

/// Whether a cached answer is still good: it belongs to the present generation of the
/// catalog.
pub fn cached_answer_counts(cached_generation: Option<i64>, generation: i64) -> (result: bool)
    ensures
        result == (cached_generation == Some(generation)),
{
    match cached_generation {
        Some(cached) => cached == generation,
        None => false,
    }
}

// ---------------------------------------------------------------------------
// Rows
// ---------------------------------------------------------------------------

/// The columns of a row of matching segments.
pub struct SegmentMatchRow {
    pub archive_path: String,
    pub start_ms: Option<i64>,
    pub end_ms: Option<i64>,
    pub row_count: i64,
    pub matching_row_count: Option<i64>,
    pub input_uncached_tokens: Option<i64>,
    pub input_cached_tokens: Option<i64>,
    pub output_tokens: Option<i64>,
    pub billable_tokens: Option<i64>,
}

/// A sum of the database: nothing and less than nothing count as zero.
pub open spec fn summed(value: Option<i64>) -> u64 {
    match value {
        Some(value) => if value < 0 {
            0
        } else {
            value as u64
        },
        None => 0,
    }
}

fn sum_of(value: Option<i64>) -> (result: u64)
    ensures
        result == summed(value),
{
    match value {
        Some(value) => match non_negative_i64_to_u64(value) {
            Some(n) => n,
            None => 0,
        },
        None => 0,
    }
}

/// What is wrong with a row, if anything: the count of matching events is looked at first.
pub open spec fn row_error(row: SegmentMatchRow) -> Option<Seq<char>> {
    if row.matching_row_count matches Some(count) && !(0 <= count <= usize::MAX) {
        Some(count_error(row.matching_row_count->0))
    } else if !(0 <= row.row_count <= usize::MAX) {
        Some(count_error(row.row_count))
    } else {
        None
    }
}

pub fn decode_segment_match_row(row: SegmentMatchRow) -> (result: Result<
    UsageCatalogSegmentMatch,
    String,
>)
    ensures
        match result {
            Ok(found) => row_error(row) is None && found == (UsageCatalogSegmentMatch {
                segment: UsageCatalogSegment {
                    archive_path: row.archive_path,
                    start_ms: row.start_ms,
                    end_ms: row.end_ms,
                    row_count: row.row_count as usize,
                },
                matching_totals: match row.matching_row_count {
                    Some(count) => Some(
                        UsageCatalogSegmentTotals {
                            event_count: count as usize,
                            input_uncached_tokens: summed(row.input_uncached_tokens),
                            input_cached_tokens: summed(row.input_cached_tokens),
                            output_tokens: summed(row.output_tokens),
                            billable_tokens: summed(row.billable_tokens),
                        },
                    ),
                    None => None,
                },
            }),
            Err(message) => row_error(row) == Some(message@),
        },
{
    let matching_totals = match row.matching_row_count {
        Some(count) => {
            let event_count = match i64_to_usize(count) {
                Ok(event_count) => event_count,
                Err(message) => return Err(message),
            };
            Some(
                UsageCatalogSegmentTotals {
                    event_count,
                    input_uncached_tokens: sum_of(row.input_uncached_tokens),
                    input_cached_tokens: sum_of(row.input_cached_tokens),
                    output_tokens: sum_of(row.output_tokens),
                    billable_tokens: sum_of(row.billable_tokens),
                },
            )
        },
        None => None,
    };
    let row_count = match i64_to_usize(row.row_count) {
        Ok(row_count) => row_count,
        Err(message) => return Err(message),
    };
    Ok(
        UsageCatalogSegmentMatch {
            segment: UsageCatalogSegment {
                archive_path: row.archive_path,
                start_ms: row.start_ms,
                end_ms: row.end_ms,
                row_count,
            },
            matching_totals,
        },
    )
}

pub fn decode_segment_row(
    archive_path: String,
    start_ms: Option<i64>,
    end_ms: Option<i64>,
    row_count: i64,
) -> (result: Result<UsageCatalogSegment, String>)
    ensures
        match result {
            Ok(segment) => 0 <= row_count <= usize::MAX && segment == (UsageCatalogSegment {
                archive_path,
                start_ms,
                end_ms,
                row_count: row_count as usize,
            }),
            Err(message) => !(0 <= row_count <= usize::MAX) && message@ == count_error(row_count),
        },
{
    match i64_to_usize(row_count) {
        Ok(row_count) => Ok(UsageCatalogSegment { archive_path, start_ms, end_ms, row_count }),
        Err(message) => Err(message),
    }
}

/// The rollups of keys, column by column.
pub struct KeyRollupColumns {
    pub key_ids: Vec<String>,
    pub provider_types: Vec<String>,
    pub row_counts: Vec<i64>,
    pub input_uncached_tokens: Vec<i64>,
    pub input_cached_tokens: Vec<i64>,
    pub output_tokens: Vec<i64>,
    pub billable_tokens: Vec<i64>,
    pub credit_totals: Vec<String>,
    pub credit_missing_events: Vec<i64>,
    pub first_used_at_ms: Vec<Option<i64>>,
    pub last_used_at_ms: Vec<Option<i64>>,
}

/// All columns have `count` entries.
pub open spec fn key_columns_long(columns: KeyRollupColumns, count: nat) -> bool {
    &&& columns.key_ids@.len() == count
    &&& columns.provider_types@.len() == count
    &&& columns.row_counts@.len() == count
    &&& columns.input_uncached_tokens@.len() == count
    &&& columns.input_cached_tokens@.len() == count
    &&& columns.output_tokens@.len() == count
    &&& columns.billable_tokens@.len() == count
    &&& columns.credit_totals@.len() == count
    &&& columns.credit_missing_events@.len() == count
    &&& columns.first_used_at_ms@.len() == count
    &&& columns.last_used_at_ms@.len() == count
}

/// The entries at `i` are those of a rollup.
pub open spec fn key_columns_hold(
    columns: KeyRollupColumns,
    i: int,
    rollup: UsageCatalogKeyRollupRecord,
) -> bool {
    &&& columns.key_ids@[i] == rollup.key_id
    &&& columns.provider_types@[i] == rollup.provider_type
    &&& columns.row_counts@[i] == clamped(rollup.row_count as int)
    &&& columns.input_uncached_tokens@[i] == rollup.input_uncached_tokens
    &&& columns.input_cached_tokens@[i] == rollup.input_cached_tokens
    &&& columns.output_tokens@[i] == rollup.output_tokens
    &&& columns.billable_tokens@[i] == rollup.billable_tokens
    &&& columns.credit_totals@[i]@ == credit_text(rollup.credit_total@)
    &&& columns.credit_missing_events@[i] == rollup.credit_missing_events
    &&& columns.first_used_at_ms@[i] == rollup.first_used_at_ms
    &&& columns.last_used_at_ms@[i] == rollup.last_used_at_ms
}

/// The rollups of keys as the database takes them: column by column, in their order.
pub fn insert_rollups(rollups: &Vec<UsageCatalogKeyRollupRecord>) -> (columns: KeyRollupColumns)
    ensures
        key_columns_long(columns, rollups@.len()),
        forall|i: int|
            0 <= i < rollups.len() ==> key_columns_hold(columns, i, #[trigger] rollups@[i]),
{
    let mut columns = KeyRollupColumns {
        key_ids: Vec::new(),
        provider_types: Vec::new(),
        row_counts: Vec::new(),
        input_uncached_tokens: Vec::new(),
        input_cached_tokens: Vec::new(),
        output_tokens: Vec::new(),
        billable_tokens: Vec::new(),
        credit_totals: Vec::new(),
        credit_missing_events: Vec::new(),
        first_used_at_ms: Vec::new(),
        last_used_at_ms: Vec::new(),
    };
    let mut n: usize = 0;
    while n < rollups.len()
        invariant
            n <= rollups.len(),
            key_columns_long(columns, n as nat),
            forall|i: int| 0 <= i < n ==> key_columns_hold(columns, i, #[trigger] rollups@[i]),
        decreases rollups.len() - n,
    {
        let rollup = &rollups[n];
        let ghost before = columns;
        columns.key_ids.push(rollup.key_id.clone());
        columns.provider_types.push(rollup.provider_type.clone());
        columns.row_counts.push(usize_to_i64(rollup.row_count));
        columns.input_uncached_tokens.push(rollup.input_uncached_tokens);
        columns.input_cached_tokens.push(rollup.input_cached_tokens);
        columns.output_tokens.push(rollup.output_tokens);
        columns.billable_tokens.push(rollup.billable_tokens);
        columns.credit_totals.push(normalize_credit_total(rollup.credit_total.as_str()));
        columns.credit_missing_events.push(rollup.credit_missing_events);
        columns.first_used_at_ms.push(rollup.first_used_at_ms);
        columns.last_used_at_ms.push(rollup.last_used_at_ms);
        n += 1;
        assert forall|i: int| 0 <= i < n implies key_columns_hold(
            columns,
            i,
            #[trigger] rollups@[i],
        ) by {
            if i < n - 1 {
                assert(key_columns_hold(before, i, rollups@[i]));
            }
        }
    }
    columns
}

/// The rollups of fields, column by column.
pub struct FieldRollupColumns {
    pub key_ids: Vec<String>,
    pub provider_types: Vec<String>,
    pub field_names: Vec<&'static str>,
    pub field_values: Vec<String>,
    pub row_counts: Vec<i64>,
    pub input_uncached_tokens: Vec<i64>,
    pub input_cached_tokens: Vec<i64>,
    pub output_tokens: Vec<i64>,
    pub billable_tokens: Vec<i64>,
    pub first_used_at_ms: Vec<Option<i64>>,
    pub last_used_at_ms: Vec<Option<i64>>,
}

/// All columns have `count` entries.
pub open spec fn field_columns_long(columns: FieldRollupColumns, count: nat) -> bool {
    &&& columns.key_ids@.len() == count
    &&& columns.provider_types@.len() == count
    &&& columns.field_names@.len() == count
    &&& columns.field_values@.len() == count
    &&& columns.row_counts@.len() == count
    &&& columns.input_uncached_tokens@.len() == count
    &&& columns.input_cached_tokens@.len() == count
    &&& columns.output_tokens@.len() == count
    &&& columns.billable_tokens@.len() == count
    &&& columns.first_used_at_ms@.len() == count
    &&& columns.last_used_at_ms@.len() == count
}

/// A scope as it is stored: the empty text stands for everything.
pub open spec fn scope_text(scope: Option<String>) -> Seq<char> {
    match scope {
        Some(scope) => scope@,
        None => Seq::empty(),
    }
}

fn stored_scope(scope: &Option<String>) -> (text: String)
    ensures
        text@ == scope_text(*scope),
{
    match scope {
        Some(scope) => scope.clone(),
        None => String::new(),
    }
}

/// The entries at `i` are those of a rollup.
pub open spec fn field_columns_hold(
    columns: FieldRollupColumns,
    i: int,
    rollup: UsageCatalogFieldRollupRecord,
) -> bool {
    &&& columns.key_ids@[i]@ == scope_text(rollup.key_id)
    &&& columns.provider_types@[i]@ == scope_text(rollup.provider_type)
    &&& columns.field_names@[i]@ == field_text(rollup.field_name)
    &&& columns.field_values@[i] == rollup.field_value
    &&& columns.row_counts@[i] == clamped(rollup.row_count as int)
    &&& columns.input_uncached_tokens@[i] == rollup.input_uncached_tokens
    &&& columns.input_cached_tokens@[i] == rollup.input_cached_tokens
    &&& columns.output_tokens@[i] == rollup.output_tokens
    &&& columns.billable_tokens@[i] == rollup.billable_tokens
    &&& columns.first_used_at_ms@[i] == rollup.first_used_at_ms
    &&& columns.last_used_at_ms@[i] == rollup.last_used_at_ms
}

/// The rollups of fields as the database takes them: column by column, in their order.
pub fn insert_field_rollups(rollups: &Vec<UsageCatalogFieldRollupRecord>) -> (columns:
    FieldRollupColumns)
    ensures
        field_columns_long(columns, rollups@.len()),
        forall|i: int|
            0 <= i < rollups.len() ==> field_columns_hold(columns, i, #[trigger] rollups@[i]),
{
    let mut columns = FieldRollupColumns {
        key_ids: Vec::new(),
        provider_types: Vec::new(),
        field_names: Vec::new(),
        field_values: Vec::new(),
        row_counts: Vec::new(),
        input_uncached_tokens: Vec::new(),
        input_cached_tokens: Vec::new(),
        output_tokens: Vec::new(),
        billable_tokens: Vec::new(),
        first_used_at_ms: Vec::new(),
        last_used_at_ms: Vec::new(),
    };
    let mut n: usize = 0;
    while n < rollups.len()
        invariant
            n <= rollups.len(),
            field_columns_long(columns, n as nat),
            forall|i: int| 0 <= i < n ==> field_columns_hold(columns, i, #[trigger] rollups@[i]),
        decreases rollups.len() - n,
    {
        let rollup = &rollups[n];
        let ghost before = columns;
        columns.key_ids.push(stored_scope(&rollup.key_id));
        columns.provider_types.push(stored_scope(&rollup.provider_type));
        columns.field_names.push(rollup.field_name.as_storage_str());
        columns.field_values.push(rollup.field_value.clone());
        columns.row_counts.push(usize_to_i64(rollup.row_count));
        columns.input_uncached_tokens.push(rollup.input_uncached_tokens);
        columns.input_cached_tokens.push(rollup.input_cached_tokens);
        columns.output_tokens.push(rollup.output_tokens);
        columns.billable_tokens.push(rollup.billable_tokens);
        columns.first_used_at_ms.push(rollup.first_used_at_ms);
        columns.last_used_at_ms.push(rollup.last_used_at_ms);
        n += 1;
        assert forall|i: int| 0 <= i < n implies field_columns_hold(
            columns,
            i,
            #[trigger] rollups@[i],
        ) by {
            if i < n - 1 {
                assert(field_columns_hold(before, i, rollups@[i]));
            }
        }
    }
    columns
}

/// How many event locators are written at once.
pub const EVENT_LOCATOR_CHUNK_SIZE: usize = 4096;

/// The chunks in which event locators are written.
pub fn insert_event_locators(event_count: usize) -> (bounds: Vec<(usize, usize)>)
    ensures
        crate::rollup::bounds_view(bounds@) == crate::rollup::chunks_from(
            0,
            event_count as nat,
            EVENT_LOCATOR_CHUNK_SIZE as nat,
        ),
{
    crate::rollup::row_chunks(event_count, EVENT_LOCATOR_CHUNK_SIZE)
}

// ---------------------------------------------------------------------------
// Laws
// ---------------------------------------------------------------------------

/// The order of the filters of a query does not change its fingerprint.
pub proof fn law_filter_order_does_not_matter(a: UsageCatalogQuery, b: UsageCatalogQuery)
    requires
        a.start_ms == b.start_ms,
        a.end_ms == b.end_ms,
        opt_text(a.key_id) == opt_text(b.key_id),
        opt_text(a.provider_type) == opt_text(b.provider_type),
        filter_pairs(a.field_filters@).to_multiset() == filter_pairs(b.field_filters@).to_multiset(),
    ensures
        fingerprint(a) == fingerprint(b),
{
    let x = filter_pairs(a.field_filters@);
    let y = filter_pairs(b.field_filters@);
    lemma_pair_order();
    vstd::seq_lib::to_multiset_len(x);
    vstd::seq_lib::to_multiset_len(y);
    x.lemma_sort_by_ensures(pair_order());
    y.lemma_sort_by_ensures(pair_order());
    lemma_sorted_unique(x.sort_by(pair_order()), y.sort_by(pair_order()), pair_order());
}

/// Each filter stands at its two places among the parameters: the name of its field, then
/// its value.
pub proof fn law_filters_stand_at_their_places(filters: Seq<UsageCatalogFieldFilter>)
    ensures
        filter_params(filters).len() == 2 * filters.len(),
        forall|i: int|
            0 <= i < filters.len() ==> filter_params(filters)[2 * i] == field_text(
                (#[trigger] filters[i]).field_name,
            ) && filter_params(filters)[2 * i + 1] == filters[i].field_value@,
    decreases filters.len(),
{
    if filters.len() > 0 {
        let head = filters.drop_last();
        law_filters_stand_at_their_places(head);
        let before = filter_params(head);
        let all = filter_params(filters);
        assert forall|i: int| 0 <= i < filters.len() implies all[2 * i] == field_text(
            (#[trigger] filters[i]).field_name,
        ) && all[2 * i + 1] == filters[i].field_value@ by {
            if i < head.len() {
                assert(head[i] == filters[i]);
                assert(all[2 * i] == before[2 * i]);
                assert(all[2 * i + 1] == before[2 * i + 1]);
            }
        }
    }
}

/// No two fields have the same name.
pub proof fn law_fields_have_names_of_their_own(
    a: UsageCatalogFieldName,
    b: UsageCatalogFieldName,
)
    requires
        field_text(a) == field_text(b),
    ensures
        a == b,
{
    reveal_strlit("model");
    reveal_strlit("account_name");
    reveal_strlit("endpoint");
    reveal_strlit("status_code");
    reveal_strlit("status_kind");
    assert("model"@.len() == 5 && "account_name"@.len() == 12 && "endpoint"@.len() == 8);
    assert("status_code"@.len() == 11 && "status_kind"@.len() == 11);
    assert("status_code"@[7] == 'c' && "status_kind"@[7] == 'k');
}

/// The number of a segment is read from the end of its id.
pub proof fn law_a_segment_is_numbered_by_its_id(prefix: Seq<char>, number: nat)
    requires
        number <= u64::MAX,
    ensures
        sequence_of(prefix + seq!['-'] + decimal(number)) == Some(number),
{
    crate::text::law_a_number_reads_back(number, u64::MAX as nat);
    let digits = decimal(number);
    assert forall|i: int| 0 <= i < digits.len() implies #[trigger] digits[i] != '-' by {
        assert(crate::text::is_digit(digits[i]));
    }
    lemma_last_part(prefix + seq!['-'], digits);
}

proof fn lemma_last_part(front: Seq<char>, tail: Seq<char>)
    requires
        front.len() > 0,
        front.last() == '-',
        forall|i: int| 0 <= i < tail.len() ==> #[trigger] tail[i] != '-',
    ensures
        split(front + tail, '-').len() > 0,
        split(front + tail, '-').last() == tail,
    decreases tail.len(),
{
    let s = front + tail;
    if tail.len() == 0 {
        assert(s =~= front);
        assert(split(s, '-').last() =~= tail);
    } else {
        let head = tail.drop_last();
        assert(s.drop_last() =~= front + head);
        assert(s.last() == tail.last());
        assert(tail[tail.len() - 1] != '-');
        assert forall|i: int| 0 <= i < head.len() implies #[trigger] head[i] != '-' by {
            assert(head[i] == tail[i]);
        }
        lemma_last_part(front, head);
        assert(head.push(tail.last()) =~= tail);
    }
}

/// Queries over ranges that begin at different times have different fingerprints.
pub proof fn law_fingerprints_tell_the_start(a: UsageCatalogQuery, b: UsageCatalogQuery)
    requires
        fingerprint(a) == fingerprint(b),
    ensures
        a.start_ms == b.start_ms,
{
    let x = number_key(a.start_ms);
    let y = number_key(b.start_ms);
    lemma_number_key(a.start_ms);
    lemma_number_key(b.start_ms);
    lemma_start_of_fingerprint(a);
    lemma_start_of_fingerprint(b);
    let n = "start:"@.len() as int;
    if x.len() < y.len() {
        assert(y[x.len() as int] != ':');
        assert(fingerprint(b)[n + x.len()] == y[x.len() as int]);
        assert(false);
    } else if y.len() < x.len() {
        assert(x[y.len() as int] != ':');
        assert(fingerprint(a)[n + y.len()] == x[y.len() as int]);
        assert(false);
    }
    assert forall|i: int| 0 <= i < x.len() implies x[i] == y[i] by {
        assert(fingerprint(a)[n + i] == x[i]);
        assert(fingerprint(b)[n + i] == y[i]);
    }
    assert(x =~= y);
    lemma_number_keys_differ(a.start_ms, b.start_ms);
}

/// Where the start of the range stands in a fingerprint, and what follows it.
proof fn lemma_start_of_fingerprint(query: UsageCatalogQuery)
    ensures
        ({
            let n = "start:"@.len() as int;
            let start = number_key(query.start_ms);
            &&& fingerprint(query).len() > n + start.len()
            &&& forall|i: int| 0 <= i < start.len() ==> fingerprint(query)[n + i] == #[trigger] start[i]
            &&& fingerprint(query)[n + start.len()] == ':'
        }),
{
    let n = "start:"@.len() as int;
    let start = number_key(query.start_ms);
    let head = "start:"@ + start;
    let pre = head + ":end:"@;
    reveal_strlit(":end:");
    assert(pre[head.len() as int] == ':');
    assert(head.len() == n + start.len());
    lemma_beginning(
        pre,
        number_key(query.end_ms),
        ":key:"@,
        name_key(opt_text(query.key_id)),
        ":provider:"@,
        name_key(opt_text(query.provider_type)),
        ":filters:"@,
        filters_key(filter_pairs(query.field_filters@)),
    );
    assert forall|i: int| 0 <= i < start.len() implies fingerprint(query)[n + i]
        == #[trigger] start[i] by {
        assert(pre[n + i] == start[i]);
    }
}

proof fn lemma_beginning(
    pre: Seq<char>,
    a: Seq<char>,
    b: Seq<char>,
    c: Seq<char>,
    d: Seq<char>,
    e: Seq<char>,
    f: Seq<char>,
    g: Seq<char>,
)
    ensures
        (pre + a + b + c + d + e + f + g).len() >= pre.len(),
        forall|i: int|
            0 <= i < pre.len() ==> #[trigger] (pre + a + b + c + d + e + f + g)[i] == pre[i],
{
}

proof fn lemma_number_key(value: Option<i64>)
    ensures
        forall|i: int| 0 <= i < number_key(value).len() ==> #[trigger] number_key(value)[i] != ':',
{
    reveal_strlit("-");
    if let Some(n) = value {
        let size: nat = if n < 0 {
            (-n) as nat
        } else {
            n as nat
        };
        crate::text::law_a_number_reads_back(size, 0);
        let digits = decimal(size);
        assert forall|i: int| 0 <= i < number_key(value).len() implies #[trigger] number_key(
            value,
        )[i] != ':' by {
            if n < 0 {
                if i > 0 {
                    assert(number_key(value)[i] == digits[i - 1]);
                    assert(crate::text::is_digit(digits[i - 1]));
                }
            } else {
                assert(crate::text::is_digit(digits[i]));
            }
        }
    }
}

proof fn lemma_number_keys_differ(a: Option<i64>, b: Option<i64>)
    requires
        number_key(a) == number_key(b),
    ensures
        a == b,
{
    reveal_strlit("-");
    if let Some(x) = a {
        lemma_longer_than_a_dash(x);
        if let Some(y) = b {
            crate::text::law_numbers_are_told_apart(x as int, y as int);
        }
    } else if let Some(y) = b {
        lemma_longer_than_a_dash(y);
    }
}

proof fn lemma_longer_than_a_dash(n: i64)
    ensures
        decimal_signed(n as int) != "-"@,
{
    reveal_strlit("-");
    let size: nat = if n < 0 {
        (-n) as nat
    } else {
        n as nat
    };
    crate::text::law_a_number_reads_back(size, 0);
    if n >= 0 {
        assert(crate::text::is_digit(decimal(size)[0]));
        assert(decimal_signed(n as int)[0] != "-"@[0]);
    } else {
        assert(decimal_signed(n as int).len() == 1 + decimal(size).len());
        assert("-"@.len() == 1);
    }
}

/// A sum below zero counts as zero, and so does a missing one; a row whose counts are not
/// counts is an error.
pub proof fn law_sums_are_never_negative(value: i64, row: SegmentMatchRow)
    ensures
        value >= 0 ==> summed(Some(value)) == value,
        value < 0 ==> summed(Some(value)) == 0,
        summed(None) == 0,
        row.row_count < 0 ==> row_error(row) is Some,
        row.matching_row_count matches Some(count) ==> (count < 0 ==> row_error(row) is Some),
        row.row_count >= 0 && row.row_count <= usize::MAX && row.matching_row_count is None
            ==> row_error(row) is None,
{
}

/// A missing amount of credits is written as zero.
pub proof fn law_missing_credits_are_zero(value: Seq<char>)
    ensures
        trim(value).len() == 0 ==> credit_text(value) == "0"@,
        trim(value).len() > 0 ==> credit_text(value) == trim(value),
        credit_text(value).len() > 0,
{
    reveal_strlit("0");
}

} // verus!
