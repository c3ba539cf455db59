//! Decision logic of the LLM access service.
#![allow(unused_imports)]
pub mod text;
pub mod json;
pub mod errors;
pub mod types;
pub mod usage_meta;
pub mod name_map;
pub mod limiter;
pub mod order;
pub mod route_selection;
pub mod headers;
pub mod kiro_model;
pub mod compaction;
pub mod kiro_call;
pub mod kiro_dispatch;
pub mod codex_auth;
pub mod codex_dispatch;
pub mod codex_sse;
pub mod usage_event;
pub mod kiro_usage;
pub mod kiro_stream;
pub mod paths;
pub mod config;
pub mod rollup;
pub mod proxy_store;
pub mod proxy_attribution;
pub mod proxy_migration;
pub mod account_store;
pub mod review_store;
pub mod usage_catalog;
pub mod kiro_summary;
pub mod kiro_headers;
pub mod codex_models;
pub mod process_memory;
pub mod support;
pub mod email;
pub mod geoip;
pub mod kiro_status;
pub mod kiro_cache_snapshot;
pub mod kiro_latency;
pub mod rollup_backlog;
pub mod public;
pub mod kiro_gateway;
pub mod codex_gateway;
pub mod codex_answer;
