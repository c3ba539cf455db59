//! Which measurements weigh on the choice of a Kiro route.

use vstd::prelude::*;
use crate::text::{concat2, same_text, starts_with, strip_prefix, trim_end_char, without_trailing};

verus! {

/// The longest time in milliseconds for which measurements are used.
pub const SNAPSHOT_STALE_MS: i64 = 300000;

/// One measurement. Its average is kept elsewhere; here stands whether it is a number.
pub struct LatencyStat {
    pub key: String,
    pub samples: u64,
    pub finite: bool,
}

/// The account that a measurement is about.
pub open spec fn account_of_key(key: Seq<char>) -> Seq<char> {
    if starts_with(key, "account:"@) {
        key.skip("account:"@.len() as int)
    } else {
        key
    }
}

pub fn account_stat_key(key: &str) -> (account: String)
    ensures
        account@ == account_of_key(key@),
{
    match strip_prefix(key, "account:") {
        Some(account) => account,
        None => key.to_owned(),
    }
}

pub open spec fn counts(stat: LatencyStat) -> bool {
    stat.samples > 0 && stat.finite
}

/// Where the measurement of an account stands: the last that counts.
pub open spec fn account_stat_at(stats: Seq<LatencyStat>, account: Seq<char>) -> Option<int>
    decreases stats.len(),
{
    if stats.len() == 0 {
        None
    } else if counts(stats.last()) && account_of_key(stats.last().key@) == account {
        Some(stats.len() - 1)
    } else {
        account_stat_at(stats.drop_last(), account)
    }
}

/// Where the measurement of a proxy stands: the last that counts.
pub open spec fn proxy_stat_at(stats: Seq<LatencyStat>, proxy_url: Seq<char>) -> Option<int>
    decreases stats.len(),
{
    if stats.len() == 0 {
        None
    } else if counts(stats.last()) && stats.last().key@ == proxy_url {
        Some(stats.len() - 1)
    } else {
        proxy_stat_at(stats.drop_last(), proxy_url)
    }
}

pub open spec fn same_position(result: Option<usize>, position: Option<int>) -> bool {
    match (result, position) {
        (Some(a), Some(b)) => a == b,
        (None, None) => true,
        _ => false,
    }
}

pub fn find_account_stat(stats: &Vec<LatencyStat>, account: &str) -> (result: Option<usize>)
    ensures
        same_position(result, account_stat_at(stats@, account@)),
{
    let mut i: usize = stats.len();
    assert(stats@.take(i as int) =~= stats@);
    while i > 0
        invariant
            i <= stats.len(),
            account_stat_at(stats@, account@) == account_stat_at(stats@.take(i as int), account@),
        decreases i,
    {
        let ghost head = stats@.take(i as int);
        assert(head.drop_last() =~= stats@.take(i - 1));
        let stat = &stats[i - 1];
        assert(head.last() == *stat);
        if stat.samples > 0 && stat.finite && same_text(
            account_stat_key(stat.key.as_str()).as_str(),
            account,
        ) {
            return Some(i - 1);
        }
        i -= 1;
    }
    None
}

pub fn find_proxy_stat(stats: &Vec<LatencyStat>, proxy_url: &str) -> (result: Option<usize>)
    ensures
        same_position(result, proxy_stat_at(stats@, proxy_url@)),
{
    let mut i: usize = stats.len();
    assert(stats@.take(i as int) =~= stats@);
    while i > 0
        invariant
            i <= stats.len(),
            proxy_stat_at(stats@, proxy_url@) == proxy_stat_at(stats@.take(i as int), proxy_url@),
        decreases i,
    {
        let ghost head = stats@.take(i as int);
        assert(head.drop_last() =~= stats@.take(i - 1));
        let stat = &stats[i - 1];
        assert(head.last() == *stat);
        if stat.samples > 0 && stat.finite && same_text(stat.key.as_str(), proxy_url) {
            return Some(i - 1);
        }
        i -= 1;
    }
    None
}

/// The difference of two times, as far as it fits.
pub open spec fn elapsed(now_ms: i64, then_ms: i64) -> int {
    if now_ms - then_ms > i64::MAX {
        i64::MAX as int
    } else if now_ms - then_ms < i64::MIN {
        i64::MIN as int
    } else {
        now_ms - then_ms
    }
}

/// Measurements that may be used: not too old, and with an overall average that is a number.
pub fn snapshot_is_current(now_ms: i64, generated_at_ms: i64, average_is_finite: bool) -> (result:
    bool)
    ensures
        result == (elapsed(now_ms, generated_at_ms) <= SNAPSHOT_STALE_MS && average_is_finite),
{
    let age: i128 = now_ms as i128 - generated_at_ms as i128;
    age <= SNAPSHOT_STALE_MS as i128 && average_is_finite
}

/// What makes up the score of a route.
#[derive(Debug, Clone, Copy, PartialEq, Eq)]
pub enum ScoreSource {
    /// The measurement at a position.
    Stat(usize),
    /// The overall average.
    Average,
}

/// The measurements that a route is scored by: that of its account, and that of its proxy.
pub struct RouteScore {
    pub account: ScoreSource,
    pub proxy: ScoreSource,
}

pub open spec fn source_of(position: Option<int>, source: ScoreSource) -> bool {
    match position {
        Some(at) => source matches ScoreSource::Stat(i) && i == at,
        None => source is Average,
    }
}

/// The score of a route, where routes are scored at all and there are measurements that may
/// be used.
pub fn route_score(
    enabled: bool,
    current: bool,
    accounts: &Vec<LatencyStat>,
    proxies: &Vec<LatencyStat>,
    account: &str,
    proxy_url: Option<&str>,
) -> (score: Option<RouteScore>)
    ensures
        score is Some <==> enabled && current,
        score matches Some(score) ==> source_of(account_stat_at(accounts@, account@), score.account)
            && source_of(
            match proxy_url {
                Some(url) => proxy_stat_at(proxies@, url@),
                None => None,
            },
            score.proxy,
        ),
{
    if !enabled || !current {
        return None;
    }
    let account_source = match find_account_stat(accounts, account) {
        Some(i) => ScoreSource::Stat(i),
        None => ScoreSource::Average,
    };
    let proxy_source = match proxy_url {
        Some(url) => match find_proxy_stat(proxies, url) {
            Some(i) => ScoreSource::Stat(i),
            None => ScoreSource::Average,
        },
        None => ScoreSource::Average,
    };
    Some(RouteScore { account: account_source, proxy: proxy_source })
}

/// Where the measurements are fetched from.
pub fn latency_ranking_url(usage_query_base_url: &str) -> (url: String)
    ensures
        url@ == trim_end_char(usage_query_base_url@, '/')
            + "/internal/kiro-gateway/latency-ranking?source=hot&window=1h"@,
{
    concat2(
        without_trailing(usage_query_base_url, '/').as_str(),
        "/internal/kiro-gateway/latency-ranking?source=hot&window=1h",
    )
}

// ---------------------------------------------------------------------------
// Laws
// ---------------------------------------------------------------------------

/// The measurement of an account is the last one that was taken of it and counts; there is
/// none only where none of its measurements has samples and a finite mean.
pub proof fn law_the_last_measurement_counts(stats: Seq<LatencyStat>, account: Seq<char>)
    ensures
        match account_stat_at(stats, account) {
            Some(at) => {
                &&& 0 <= at < stats.len()
                &&& stats[at].samples > 0
                &&& stats[at].finite
                &&& stats[at].key@ == account || stats[at].key@ == "account:"@ + account
                &&& forall|k: int|
                    at < k < stats.len() && (#[trigger] stats[k]).key@ == "account:"@ + account
                        ==> stats[k].samples == 0 || !stats[k].finite
            },
            None => forall|k: int|
                0 <= k < stats.len() && (#[trigger] stats[k]).key@ == "account:"@ + account
                    ==> stats[k].samples == 0 || !stats[k].finite,
        },
    decreases stats.len(),
{
    if stats.len() > 0 {
        let head = stats.drop_last();
        let prefix = "account:"@;
        law_the_last_measurement_counts(head, account);
        assert forall|key: Seq<char>| #[trigger] account_of_key(key) == account implies key
            == account || key == prefix + account by {
            if starts_with(key, prefix) {
                assert(key =~= prefix + key.skip(prefix.len() as int));
            }
        }
        assert((prefix + account).subrange(0, prefix.len() as int) =~= prefix);
        assert((prefix + account).skip(prefix.len() as int) =~= account);
        assert(account_of_key(prefix + account) == account);
        assert forall|k: int| 0 <= k < head.len() implies head[k] == stats[k] by {
        }
        if let Some(at) = account_stat_at(stats, account) {
            if at < head.len() {
                assert(account_stat_at(head, account) == Some(at));
                assert(head[at] == stats[at]);
                assert forall|k: int|
                    at < k < stats.len() && (#[trigger] stats[k]).key@ == prefix
                        + account implies stats[k].samples == 0 || !stats[k].finite by {
                    if k < head.len() {
                        assert(head[k] == stats[k]);
                    }
                }
            }
        } else {
            assert forall|k: int|
                0 <= k < stats.len() && (#[trigger] stats[k]).key@ == prefix
                    + account implies stats[k].samples == 0 || !stats[k].finite by {
                if k < head.len() {
                    assert(head[k] == stats[k]);
                }
            }
        }
    }
}

/// The same of a proxy, by its address.
pub proof fn law_the_last_proxy_measurement_counts(stats: Seq<LatencyStat>, proxy_url: Seq<char>)
    ensures
        match proxy_stat_at(stats, proxy_url) {
            Some(at) => {
                &&& 0 <= at < stats.len()
                &&& stats[at].samples > 0
                &&& stats[at].finite
                &&& stats[at].key@ == proxy_url
                &&& forall|k: int|
                    at < k < stats.len() && (#[trigger] stats[k]).key@ == proxy_url
                        ==> stats[k].samples == 0 || !stats[k].finite
            },
            None => forall|k: int|
                0 <= k < stats.len() && (#[trigger] stats[k]).key@ == proxy_url
                    ==> stats[k].samples == 0 || !stats[k].finite,
        },
    decreases stats.len(),
{
    if stats.len() > 0 {
        let head = stats.drop_last();
        law_the_last_proxy_measurement_counts(head, proxy_url);
        if let Some(at) = proxy_stat_at(stats, proxy_url) {
            if at < head.len() {
                assert(head[at] == stats[at]);
                assert forall|k: int|
                    at < k < stats.len() && (#[trigger] stats[k]).key@
                        == proxy_url implies stats[k].samples == 0 || !stats[k].finite by {
                    if k < head.len() {
                        assert(head[k] == stats[k]);
                    }
                }
            }
        } else {
            assert forall|k: int|
                0 <= k < stats.len() && (#[trigger] stats[k]).key@
                    == proxy_url implies stats[k].samples == 0 || !stats[k].finite by {
                if k < head.len() {
                    assert(head[k] == stats[k]);
                }
            }
        }
    }
}

/// Measurements count for five minutes after they were taken, and only where their average
/// is a number.
pub proof fn law_measurements_count_for_five_minutes(
    now_ms: i64,
    generated_at_ms: i64,
    average_is_finite: bool,
    current: bool,
)
    requires
        call_ensures(snapshot_is_current, (now_ms, generated_at_ms, average_is_finite), current),
        0 <= generated_at_ms,
        0 <= now_ms,
    ensures
        current <==> average_is_finite && now_ms - generated_at_ms <= 5 * 60 * 1000,
{
}

/// A route is scored exactly where scoring is on and the measurements are current: by its
/// account's own measurement, and its proxy's, where there are any.
pub proof fn law_what_scores_a_route(
    enabled: bool,
    current: bool,
    accounts: &Vec<LatencyStat>,
    proxies: &Vec<LatencyStat>,
    account: &str,
    proxy_url: Option<&str>,
    score: Option<RouteScore>,
)
    requires
        call_ensures(
            route_score,
            (enabled, current, accounts, proxies, account, proxy_url),
            score,
        ),
    ensures
        score is Some <==> enabled && current,
        score matches Some(score) ==> (proxy_url is None ==> score.proxy is Average),
        score matches Some(score) ==> (score.account matches ScoreSource::Stat(at) ==> at
            < accounts@.len() && accounts@[at as int].samples > 0 && accounts@[at as int].finite && (
        accounts@[at as int].key@ == account@ || accounts@[at as int].key@ == "account:"@
            + account@)),
        score matches Some(score) ==> (proxy_url matches Some(url) ==> (
        score.proxy matches ScoreSource::Stat(at) ==> at < proxies@.len() && proxies@[at as int].key@
            == url@)),
{
    law_the_last_measurement_counts(accounts@, account@);
    if let Some(url) = proxy_url {
        law_the_last_proxy_measurement_counts(proxies@, url@);
    }
}

} // verus!
