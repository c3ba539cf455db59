//! Snapshots of the prompt cache that nodes share.

use vstd::prelude::*;
use crate::config::RequestCacheSettings;
use crate::text::{concat3, lemma_texts_push, same_text, texts};

verus! {

/// The name under which a node without an identity keeps its snapshot.
pub const SINGLE_NODE_ID: &'static str = "_single";

/// How many snapshots of other nodes are looked at.
pub const MAX_PEER_SNAPSHOTS: usize = 32;

/// How many bytes of other nodes' snapshots are fetched.
pub const MAX_TOTAL_PEER_SNAPSHOT_BYTES: usize = 268435456;

/// Where the snapshots of a node lie.
pub struct KiroCacheSnapshotStore {
    pub url: String,
    pub key_prefix: String,
    pub node_id: String,
}

/// The key of a node's snapshot.
pub open spec fn snapshot_key(prefix: Seq<char>, node_id: Seq<char>) -> Seq<char> {
    prefix + ":kiro:cachesnap:node:"@ + node_id
}

impl KiroCacheSnapshotStore {
    pub fn new(config: &RequestCacheSettings, node_id: Option<String>) -> (store: Self)
        ensures
            store.url == config.url,
            store.key_prefix == config.key_prefix,
            store.node_id@ == match node_id {
                Some(id) => id@,
                None => SINGLE_NODE_ID@,
            },
    {
        KiroCacheSnapshotStore {
            url: config.url.clone(),
            key_prefix: config.key_prefix.clone(),
            node_id: match node_id {
                Some(id) => id,
                None => SINGLE_NODE_ID.to_owned(),
            },
        }
    }

    pub fn node_key(&self, node_id: &str) -> (key: String)
        ensures
            key@ == snapshot_key(self.key_prefix@, node_id@),
    {
        concat3(self.key_prefix.as_str(), ":kiro:cachesnap:node:", node_id)
    }

    pub fn own_key(&self) -> (key: String)
        ensures
            key@ == snapshot_key(self.key_prefix@, self.node_id@),
    {
        self.node_key(self.node_id.as_str())
    }

    /// The pattern that the keys of all nodes match.
    pub fn scan_pattern(&self) -> (pattern: String)
        ensures
            pattern@ == snapshot_key(self.key_prefix@, "*"@),
    {
        self.node_key("*")
    }
}

/// A stored snapshot that is worth fetching: there is something, and not too much. `max` is
/// the most that a snapshot may have.
pub open spec fn worth_fetching(len: usize, max: usize) -> bool {
    0 < len <= max
}

pub fn snapshot_is_fetched(len: usize, max: usize) -> (result: bool)
    ensures
        result == worth_fetching(len, max),
{
    len != 0 && len <= max
}

/// The keys of a list without one of them.
pub open spec fn other_keys(list: Seq<Seq<char>>, own: Seq<char>) -> Seq<Seq<char>>
    decreases list.len(),
{
    if list.len() == 0 {
        Seq::empty()
    } else {
        let head = other_keys(list.drop_last(), own);
        if list.last() == own {
            head
        } else {
            head.push(list.last())
        }
    }
}

/// The first keys of a list, as many as are looked at.
pub open spec fn first_keys(list: Seq<Seq<char>>) -> Seq<Seq<char>> {
    if list.len() > MAX_PEER_SNAPSHOTS {
        list.take(MAX_PEER_SNAPSHOTS as int)
    } else {
        list
    }
}

/// Adds one batch of found keys to those of the other nodes, up to the number that is looked
/// at. Says whether that number is reached.
pub fn collect_peer_keys(keys: &mut Vec<String>, batch: &Vec<String>, own_key: &str) -> (full: bool)
    requires
        old(keys)@.len() < MAX_PEER_SNAPSHOTS,
    ensures
        texts(final(keys)@) == first_keys(
            texts(old(keys)@) + other_keys(texts(batch@), own_key@),
        ),
        full == (final(keys)@.len() == MAX_PEER_SNAPSHOTS),
{
    broadcast use lemma_texts_push;

    let ghost before = texts(keys@);
    let ghost found = texts(batch@);
    let mut i: usize = 0;
    assert(found.take(0) =~= Seq::<Seq<char>>::empty());
    assert(before + Seq::<Seq<char>>::empty() =~= before);
    while i < batch.len()
        invariant
            i <= batch.len(),
            found == texts(batch@),
            before == texts(old(keys)@),
            keys@.len() < MAX_PEER_SNAPSHOTS,
            texts(keys@) == before + other_keys(found.take(i as int), own_key@),
        decreases batch.len() - i,
    {
        broadcast use lemma_texts_push;

        let ghost head = found.take(i + 1);
        assert(head.drop_last() =~= found.take(i as int));
        assert(head.last() == batch@[i as int]@);
        if !same_text(batch[i].as_str(), own_key) {
            let ghost earlier = texts(keys@);
            keys.push(batch[i].clone());
            assert(texts(keys@) =~= before + other_keys(head, own_key@));
            if keys.len() >= MAX_PEER_SNAPSHOTS {
                proof {
                    lemma_other_keys_prefix(found, own_key@, i + 1);
                    let all = before + other_keys(found, own_key@);
                    let now = texts(keys@);
                    assert(now.len() == MAX_PEER_SNAPSHOTS);
                    assert(all.take(MAX_PEER_SNAPSHOTS as int) =~= now);
                    if all.len() == MAX_PEER_SNAPSHOTS {
                        assert(all =~= now);
                    }
                }
                return true;
            }
        }
        i += 1;
    }
    assert(found.take(i as int) =~= found);
    false
}

proof fn lemma_other_keys_prefix(list: Seq<Seq<char>>, own: Seq<char>, n: int)
    requires
        0 <= n <= list.len(),
    ensures
        other_keys(list.take(n), own).is_prefix_of(other_keys(list, own)),
    decreases list.len() - n,
{
    if n == list.len() {
        assert(list.take(n) =~= list);
    } else {
        lemma_other_keys_prefix(list, own, n + 1);
        assert(list.take(n + 1).drop_last() =~= list.take(n));
        let a = other_keys(list.take(n), own);
        let b = other_keys(list.take(n + 1), own);
        let c = other_keys(list, own);
        assert(a.is_prefix_of(b));
        assert(a =~= c.take(a.len() as int));
    }
}

/// What is done about one snapshot of another node.
#[derive(Debug, Clone, Copy, PartialEq, Eq, Structural)]
pub enum PeerStep {
    Skip,
    /// The bytes that may be fetched are used up.
    Stop,
    Fetch,
}

/// `total` are the bytes that were fetched so far, `len` those of the next snapshot.
pub open spec fn next_peer_step(total: usize, len: usize, max: usize) -> PeerStep {
    if !worth_fetching(len, max) {
        PeerStep::Skip
    } else if total + len > MAX_TOTAL_PEER_SNAPSHOT_BYTES {
        PeerStep::Stop
    } else {
        PeerStep::Fetch
    }
}

pub fn peer_step(total: usize, len: usize, max: usize) -> (step: PeerStep)
    ensures
        step == next_peer_step(total, len, max),
{
    if !snapshot_is_fetched(len, max) {
        PeerStep::Skip
    } else if total > MAX_TOTAL_PEER_SNAPSHOT_BYTES || len > MAX_TOTAL_PEER_SNAPSHOT_BYTES - total {
        PeerStep::Stop
    } else {
        PeerStep::Fetch
    }
}

/// The bytes that were fetched, after one more snapshot.
pub fn bytes_after_fetch(total: usize, len: usize) -> (sum: usize)
    ensures
        sum == if total + len > usize::MAX {
            usize::MAX as int
        } else {
            total + len
        },
{
    total.saturating_add(len)
}

/// How large a snapshot may become.
#[derive(Debug, Clone, Copy, PartialEq, Eq)]
pub struct SnapshotCaps {
    pub max_tokens: Option<u64>,
    pub max_anchor_entries: Option<u64>,
}

/// The limits of the configuration; zero is no limit.
pub fn snapshot_caps_from_admin_config(max_tokens: u64, max_anchor_entries: u64) -> (caps:
    SnapshotCaps)
    ensures
        caps.max_tokens == (if max_tokens > 0 {
            Some(max_tokens)
        } else {
            None
        }),
        caps.max_anchor_entries == (if max_anchor_entries > 0 {
            Some(max_anchor_entries)
        } else {
            None
        }),
{
    SnapshotCaps {
        max_tokens: if max_tokens > 0 {
            Some(max_tokens)
        } else {
            None
        },
        max_anchor_entries: if max_anchor_entries > 0 {
            Some(max_anchor_entries)
        } else {
            None
        },
    }
}

/// A number of seconds that is a time to wait: at least one.
pub fn at_least_a_second(seconds: u64) -> (result: u64)
    ensures
        result == positive(seconds),
{
    if seconds == 0 {
        1
    } else {
        seconds
    }
}

// ---------------------------------------------------------------------------
// The task that stores snapshots
// ---------------------------------------------------------------------------

/// What the configuration says of snapshots.
#[derive(Debug, Clone, Copy, PartialEq, Eq, Structural)]
pub struct SnapshotSettings {
    pub enabled: bool,
    pub interval_seconds: u64,
    pub ttl_seconds: u64,
}

/// What the task waits for.
#[derive(Debug, Clone, Copy, PartialEq, Eq, Structural)]
pub enum SnapshotEvent {
    /// The configuration was read, or could not be.
    Settings { read: Option<SnapshotSettings> },
    /// The time to wait is over.
    Timer,
    /// The signal to stop was set or taken back.
    Signal { stop: bool },
}

/// What the task does next. `flush` is the time for which a snapshot is stored first;
/// nothing where none is stored.
#[derive(Debug, Clone, Copy, PartialEq, Eq, Structural)]
pub enum SnapshotAction {
    Wait { seconds: u64 },
    ReadSettings { flush: Option<u64> },
    Stop { flush: Option<u64> },
}

pub open spec fn positive(seconds: u64) -> u64 {
    if seconds == 0 {
        1
    } else {
        seconds
    }
}

/// The time for which a snapshot is stored under these settings.
pub open spec fn flush_time(settings: SnapshotSettings) -> Option<u64> {
    if settings.enabled {
        Some(positive(settings.ttl_seconds))
    } else {
        None
    }
}

pub open spec fn snapshot_step(
    last: SnapshotSettings,
    event: SnapshotEvent,
    after: SnapshotSettings,
    action: SnapshotAction,
) -> bool {
    match event {
        SnapshotEvent::Settings { read } => {
            &&& after == match read {
                Some(settings) => settings,
                None => last,
            }
            &&& action == (SnapshotAction::Wait { seconds: positive(after.interval_seconds) })
        },
        SnapshotEvent::Timer => {
            &&& after == last
            &&& action == (SnapshotAction::ReadSettings { flush: flush_time(last) })
        },
        SnapshotEvent::Signal { stop } => {
            &&& after == last
            &&& action == if stop {
                SnapshotAction::Stop { flush: flush_time(last) }
            } else {
                SnapshotAction::ReadSettings { flush: None }
            }
        },
    }
}

/// The time for which a snapshot is stored; nothing where snapshots are off.
pub fn flush_snapshot(settings: &SnapshotSettings) -> (flush: Option<u64>)
    ensures
        flush == flush_time(*settings),
{
    if settings.enabled {
        Some(at_least_a_second(settings.ttl_seconds))
    } else {
        None
    }
}

/// Takes the task one step further. `last` are the settings that were read last.
pub fn next_snapshot_action(last: &mut SnapshotSettings, event: SnapshotEvent) -> (action:
    SnapshotAction)
    ensures
        snapshot_step(*old(last), event, *final(last), action),
{
    match event {
        SnapshotEvent::Settings { read } => {
            if let Some(settings) = read {
                *last = settings;
            }
            SnapshotAction::Wait { seconds: at_least_a_second(last.interval_seconds) }
        },
        SnapshotEvent::Timer => SnapshotAction::ReadSettings { flush: flush_snapshot(last) },
        SnapshotEvent::Signal { stop } => if stop {
            SnapshotAction::Stop { flush: flush_snapshot(last) }
        } else {
            SnapshotAction::ReadSettings { flush: None }
        },
    }
}

// ---------------------------------------------------------------------------
// Laws
// ---------------------------------------------------------------------------

/// Settings that cannot be read leave snapshots as they were, on or off.
pub proof fn law_unread_settings_change_nothing(
    last: SnapshotSettings,
    after: SnapshotSettings,
    action: SnapshotAction,
)
    requires
        snapshot_step(last, SnapshotEvent::Settings { read: None }, after, action),
    ensures
        after == last,
        action is Wait,
{
}

/// The task stops with one last snapshot, where snapshots are on.
pub proof fn law_last_snapshot_before_the_stop(
    last: SnapshotSettings,
    event: SnapshotEvent,
    after: SnapshotSettings,
    action: SnapshotAction,
)
    requires
        snapshot_step(last, event, after, action),
        action is Stop,
    ensures
        action->Stop_flush is Some <==> last.enabled,
{
}

/// As long as a snapshot has the length that it was announced with, the bytes that are
/// fetched stay within the limit.
pub proof fn law_peer_bytes_stay_bounded(total: usize, len: usize, max: usize)
    requires
        next_peer_step(total, len, max) == PeerStep::Fetch,
    ensures
        total + len <= MAX_TOTAL_PEER_SNAPSHOT_BYTES,
        len <= max,
{
}

/// A node never takes its own snapshot for that of another.
pub proof fn law_own_key_is_no_peer(list: Seq<Seq<char>>, own: Seq<char>)
    ensures
        !other_keys(list, own).contains(own),
    decreases list.len(),
{
    if list.len() > 0 {
        law_own_key_is_no_peer(list.drop_last(), own);
        let head = other_keys(list.drop_last(), own);
        assert forall|i: int| 0 <= i < other_keys(list, own).len() implies other_keys(list, own)[i]
            != own by {
            if i < head.len() {
                assert(head.contains(head[i]));
            }
        }
    }
}

/// Every other key stays among the peers.
pub proof fn law_every_other_key_is_a_peer(list: Seq<Seq<char>>, own: Seq<char>, key: Seq<char>)
    requires
        list.contains(key),
        key != own,
    ensures
        other_keys(list, own).contains(key),
    decreases list.len(),
{
    let head = list.drop_last();
    let before = other_keys(head, own);
    let all = other_keys(list, own);
    let i = choose|i: int| 0 <= i < list.len() && list[i] == key;
    if i < head.len() {
        assert(head[i] == key);
        law_every_other_key_is_a_peer(head, own, key);
        let k = choose|k: int| 0 <= k < before.len() && before[k] == key;
        assert(all[k] == key);
    } else {
        assert(all[all.len() - 1] == key);
    }
}

/// At most thirty-two peers are asked: the first ones.
pub proof fn law_only_the_first_peers_are_asked(list: Seq<Seq<char>>)
    ensures
        first_keys(list).len() <= 32,
        list.len() <= 32 ==> first_keys(list) == list,
        list.len() > 32 ==> first_keys(list).len() == 32,
        forall|i: int|
            0 <= i < first_keys(list).len() ==> #[trigger] first_keys(list)[i] == list[i],
{
}

/// An empty snapshot and one that is too large are passed over; one that still fits is
/// fetched, and the first that does not ends the round.
pub proof fn law_what_becomes_of_a_peer(total: usize, len: usize, max: usize)
    ensures
        len == 0 || len > max ==> next_peer_step(total, len, max) == PeerStep::Skip,
        0 < len <= max && total + len <= 256 * 1024 * 1024 ==> next_peer_step(total, len, max)
            == PeerStep::Fetch,
        0 < len <= max && total + len > 256 * 1024 * 1024 ==> next_peer_step(total, len, max)
            == PeerStep::Stop,
{
}

/// Settings that were read count from then on, and the next wait is their interval, a second
/// at least. After each wait a snapshot is written where snapshots are on, and the settings
/// are read again.
pub proof fn law_the_round_of_snapshots(
    last: SnapshotSettings,
    event: SnapshotEvent,
    after: SnapshotSettings,
    action: SnapshotAction,
)
    requires
        snapshot_step(last, event, after, action),
    ensures
        event matches SnapshotEvent::Settings { read } ==> (read matches Some(settings) ==> after
            == settings && (settings.interval_seconds > 0 ==> action == (SnapshotAction::Wait {
            seconds: settings.interval_seconds,
        })) && (settings.interval_seconds == 0 ==> action == (SnapshotAction::Wait { seconds: 1 }))),
        event is Timer && last.enabled && last.ttl_seconds > 0 ==> action == (
        SnapshotAction::ReadSettings { flush: Some(last.ttl_seconds) }),
        event is Timer && !last.enabled ==> action == (SnapshotAction::ReadSettings {
            flush: None,
        }),
        event matches SnapshotEvent::Signal { stop } ==> (stop <==> action is Stop),
        event matches SnapshotEvent::Signal { stop } ==> (!stop ==> action == (
        SnapshotAction::ReadSettings { flush: None })),
        !(event is Settings) ==> after == last,
{
}

/// Two nodes never write under the same key.
pub proof fn law_nodes_have_keys_of_their_own(prefix: Seq<char>, one: Seq<char>, other: Seq<char>)
    requires
        snapshot_key(prefix, one) == snapshot_key(prefix, other),
    ensures
        one == other,
{
    let head = prefix + ":kiro:cachesnap:node:"@;
    assert(snapshot_key(prefix, one).skip(head.len() as int) =~= one);
    assert(snapshot_key(prefix, other).skip(head.len() as int) =~= other);
}

} // verus!
