use llm_access::usage_catalog::{
    archived_filter_option_values, archived_filter_option_values_sql,
    archived_key_usage_rollups_sql, cached_answer_counts, decode_segment_match_row,
    decode_segment_row, field_rollup_scope_sql, filtered_archived_segments_sql_for_multi_field,
    filtered_archived_segments_sql_for_scope_only,
    filtered_archived_segments_sql_for_single_field, i64_to_usize, insert_event_locators,
    insert_field_rollups, insert_rollups, load_archived_segment_matches_for_query,
    next_sequence, normalize_credit_total, option_i64_key, option_str_key,
    parse_sequence_from_segment_id, segment_match_params, u64_to_i64,
    usage_catalog_query_fingerprint, usize_to_i64, SegmentMatchRow, UsageCatalogFieldFilter,
    UsageCatalogFieldName, UsageCatalogFieldRollupRecord, UsageCatalogKeyRollupRecord,
    UsageCatalogQuery,
};

#[test]
fn postgres_usage_catalog_sum_queries_cast_back_to_bigint() {
    let rollups_sql = archived_key_usage_rollups_sql();
    assert!(rollups_sql.contains("COALESCE(SUM(input_uncached_tokens), 0)::BIGINT"));
    assert!(rollups_sql.contains("COALESCE(SUM(billable_tokens), 0)::BIGINT"));
    assert!(rollups_sql.contains("COALESCE(SUM(credit_missing_events), 0)::BIGINT"));

    let filtered_sql = filtered_archived_segments_sql_for_scope_only();
    assert!(filtered_sql.contains("COALESCE(SUM(r.row_count), 0)::BIGINT"));
    assert!(filtered_sql.contains("COALESCE(SUM(r.row_count), 0)::BIGINT > 0"));
}

#[test]
fn postgres_usage_catalog_field_rollup_scope_uses_empty_sentinel() {
    let sql = field_rollup_scope_sql("f");
    assert!(sql.contains("f.key_id = ''"));
    assert!(sql.contains("f.provider_type = ''"));
    assert!(sql.contains("(f.key_id <> '' OR f.provider_type <> '')"));
}

#[test]
fn parse_sequence_from_segment_id_accepts_current_format() {
    assert_eq!(parse_sequence_from_segment_id("usage-1700000000000-000000000123"), Some(123));
    assert_eq!(parse_sequence_from_segment_id("usage-bad"), None);
}

#[test]
fn normalize_credit_total_replaces_empty_string() {
    assert_eq!(normalize_credit_total(""), "0");
    assert_eq!(normalize_credit_total("  "), "0");
    assert_eq!(normalize_credit_total("1.25"), "1.25");
}

fn filter(field_name: UsageCatalogFieldName, field_value: &str) -> UsageCatalogFieldFilter {
    UsageCatalogFieldFilter { field_name, field_value: field_value.to_string() }
}

fn query(filters: Vec<UsageCatalogFieldFilter>) -> UsageCatalogQuery {
    UsageCatalogQuery {
        start_ms: Some(10),
        end_ms: None,
        key_id: Some("key-a".to_string()),
        provider_type: None,
        field_filters: filters,
    }
}

#[test]
fn every_hole_of_the_queries_is_filled() {
    let queries = vec![
        archived_key_usage_rollups_sql(),
        filtered_archived_segments_sql_for_scope_only(),
        filtered_archived_segments_sql_for_single_field(),
        filtered_archived_segments_sql_for_multi_field(3),
        archived_filter_option_values_sql(),
    ];
    for sql in queries {
        assert!(!sql.contains('{') && !sql.contains('}'), "{sql}");
    }
}

#[test]
fn query_shape_follows_the_number_of_filters() {
    assert_eq!(
        load_archived_segment_matches_for_query(&query(Vec::new())),
        filtered_archived_segments_sql_for_scope_only()
    );
    let one = query(vec![filter(UsageCatalogFieldName::Model, "m")]);
    assert_eq!(
        load_archived_segment_matches_for_query(&one),
        filtered_archived_segments_sql_for_single_field()
    );
    let two = query(vec![
        filter(UsageCatalogFieldName::Model, "m"),
        filter(UsageCatalogFieldName::StatusCode, "500"),
    ]);
    let sql = load_archived_segment_matches_for_query(&two);
    assert_eq!(sql, filtered_archived_segments_sql_for_multi_field(2));
    assert!(sql.contains(".field_name = $5") && sql.contains(".field_value = $6"));
    assert!(sql.contains(".field_name = $7") && sql.contains(".field_value = $8"));
    assert_eq!(segment_match_params(&two), vec!["model", "m", "status_code", "500"]);
}

#[test]
fn fingerprint_ignores_the_order_of_filters() {
    let a = query(vec![
        filter(UsageCatalogFieldName::Model, "m"),
        filter(UsageCatalogFieldName::Endpoint, "/v1"),
    ]);
    let b = query(vec![
        filter(UsageCatalogFieldName::Endpoint, "/v1"),
        filter(UsageCatalogFieldName::Model, "m"),
    ]);
    assert_eq!(usage_catalog_query_fingerprint(&a), usage_catalog_query_fingerprint(&b));
    let c = query(vec![filter(UsageCatalogFieldName::Model, "m")]);
    assert_ne!(usage_catalog_query_fingerprint(&a), usage_catalog_query_fingerprint(&c));
}

#[test]
fn sequence_is_that_of_the_newest_segment() {
    assert_eq!(next_sequence(None), 0);
    assert_eq!(next_sequence(Some("usage-1700000000000-000000000123")), 123);
    assert_eq!(next_sequence(Some("usage-bad")), 0);
}

#[test]
fn catalog_numbers_stay_in_their_ranges() {
    assert_eq!(i64_to_usize(7), Ok(7));
    assert!(i64_to_usize(-1).is_err());
    assert_eq!(usize_to_i64(9), 9);
    assert_eq!(u64_to_i64(u64::MAX), i64::MAX);
    assert_eq!(option_i64_key(None), "-");
    assert_eq!(option_i64_key(Some(-3)), "-3");
    assert_eq!(option_str_key(Some("k")), "k");
}

#[test]
fn cached_answers_count_only_for_their_generation() {
    assert!(cached_answer_counts(Some(4), 4));
    assert!(!cached_answer_counts(Some(3), 4));
    assert!(!cached_answer_counts(None, 4));
}

#[test]
fn event_locators_are_written_in_chunks_that_cover_everything() {
    assert_eq!(insert_event_locators(9000), vec![(0, 4096), (4096, 8192), (8192, 9000)]);
    assert!(insert_event_locators(0).is_empty());
}

#[test]
fn rows_are_decoded() {
    let row = |count: i64, matching: Option<i64>| SegmentMatchRow {
        archive_path: "/a".to_string(),
        start_ms: Some(1),
        end_ms: None,
        row_count: count,
        matching_row_count: matching,
        input_uncached_tokens: Some(5),
        input_cached_tokens: Some(-5),
        output_tokens: None,
        billable_tokens: Some(9),
    };
    let plain = decode_segment_match_row(row(3, None)).ok().expect("row");
    assert_eq!(plain.segment.row_count, 3);
    assert!(plain.matching_totals.is_none());
    let totals = decode_segment_match_row(row(3, Some(2))).ok().expect("row").matching_totals;
    let totals = totals.expect("totals");
    assert_eq!(totals.event_count, 2);
    assert_eq!(totals.input_uncached_tokens, 5);
    assert_eq!(totals.input_cached_tokens, 0);
    assert_eq!(totals.output_tokens, 0);
    assert_eq!(totals.billable_tokens, 9);
    assert!(decode_segment_match_row(row(-1, None)).is_err());
    assert!(decode_segment_row("/a".to_string(), None, None, -1).is_err());
    assert!(decode_segment_row("/a".to_string(), None, None, 4).is_ok());
}

#[test]
fn rollups_become_columns() {
    let record = UsageCatalogKeyRollupRecord {
        key_id: "k".to_string(),
        provider_type: "kiro".to_string(),
        row_count: 2,
        input_uncached_tokens: 1,
        input_cached_tokens: 2,
        output_tokens: 3,
        billable_tokens: 6,
        credit_total: " ".to_string(),
        credit_missing_events: 1,
        first_used_at_ms: None,
        last_used_at_ms: Some(7),
    };
    let columns = insert_rollups(&vec![record]);
    assert_eq!(columns.key_ids, vec!["k"]);
    assert_eq!(columns.row_counts, vec![2]);
    assert_eq!(columns.billable_tokens, vec![6]);
    assert_eq!(columns.credit_totals, vec!["0"]);
    assert_eq!(columns.last_used_at_ms, vec![Some(7)]);
    let field = UsageCatalogFieldRollupRecord {
        key_id: None,
        provider_type: Some("kiro".to_string()),
        field_name: UsageCatalogFieldName::Model,
        field_value: "m".to_string(),
        row_count: 2,
        input_uncached_tokens: 1,
        input_cached_tokens: 2,
        output_tokens: 3,
        billable_tokens: 6,
        first_used_at_ms: None,
        last_used_at_ms: None,
    };
    let columns = insert_field_rollups(&vec![field]);
    assert_eq!(columns.key_ids, vec![""]);
    assert_eq!(columns.provider_types, vec!["kiro"]);
    assert_eq!(columns.field_values, vec!["m"]);
    assert_eq!(columns.field_names, vec![UsageCatalogFieldName::Model.as_storage_str()]);
}

#[test]
fn options_are_cached_without_filters() {
    let query = |filters: Vec<UsageCatalogFieldFilter>| UsageCatalogQuery {
        start_ms: None,
        end_ms: None,
        key_id: None,
        provider_type: None,
        field_filters: filters,
    };
    let key = archived_filter_option_values(&query(vec![]), UsageCatalogFieldName::Model);
    assert!(key.is_some_and(|key| key.contains(":field:")));
    let filter = UsageCatalogFieldFilter {
        field_name: UsageCatalogFieldName::Model,
        field_value: "m".to_string(),
    };
    assert_eq!(archived_filter_option_values(&query(vec![filter]), UsageCatalogFieldName::Model), None);
}
