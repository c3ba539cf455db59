# llm_access

A gateway that lets clients reach language models through shared Codex and Kiro accounts.
It authenticates a key, chooses an account, sends the request upstream, hands the answer
back and records what it cost.

- `src/` is the library: the rules of the gateway, verified with Verus. It does no I/O. The
  rules that need floating point, and the ranking of Codex accounts by the quota that is
  left, come in as values.
  Where a request needs outside work in between, the library is a step function: it takes
  the state and what came of the last step, and says what to do next.
- `app/` does the outside work: files, network, clocks, floating point, and the loops that
  carry out what the library decides.
- `tests/` runs the library on concrete values.

## Modules

| Modules | What they hold |
| --- | --- |
| `text`, `order`, `name_map`, `paths`, `json`, `headers`, `types` | texts, sorting, maps, paths, JSON trees, headers and the common types |
| `errors` | the shapes of errors, and what upstream errors mean |
| `limiter`, `route_selection` | request limits, cooldowns, the choice of an account |
| `codex_auth`, `codex_dispatch`, `codex_gateway`, `codex_answer`, `codex_sse`, `codex_models` | requests to Codex |
| `kiro_model`, `compaction`, `kiro_call`, `kiro_dispatch`, `kiro_gateway`, `kiro_headers`, `kiro_stream`, `kiro_summary`, `kiro_usage` | requests to Kiro |
| `kiro_status`, `kiro_latency`, `kiro_cache_snapshot` | background work for Kiro accounts |
| `usage_meta`, `usage_event`, `usage_catalog`, `rollup`, `rollup_backlog` | what is noted, recorded and summed up |
| `account_store`, `proxy_store`, `proxy_attribution`, `proxy_migration`, `review_store` | accounts, proxies and review queues |
| `config`, `support`, `email`, `geoip`, `process_memory`, `public` | the command line and the public pages |

Proof functions whose names start with `law_` state what holds of the library as a whole.
