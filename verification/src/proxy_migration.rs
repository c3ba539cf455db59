//! Moves proxies that stand inside account credentials into slots of their own.

use vstd::prelude::*;
use crate::json::{parse_text, parsed_text, written_text, Json, JsonView};
use crate::order::{group_positions, group_texts, has_group, is_group, is_grouping,
    key_of_text, key_views, lemma_text_order, lex_less, sort_positions, sorted_positions, text_before,
    text_key, text_keys};
use crate::proxy_store::{clear_legacy_kiro_proxy_json, cleared_auth, first_text,
    legacy_proxy_json_string, legacy_text, AdminProxyConfig, NewAdminProxyConfig, ProxyError,
    ProxyScope};
use crate::text::{clone_opt, concat2, concat3, decimal, decimal_of, decimal_of_signed,
    decimal_signed, lower, lowered, opt_text, same_text, texts, trim};

verus! {

/// An account and its credentials.
pub struct LegacyKiroAccount {
    pub account_name: String,
    pub auth_json: String,
}

/// A proxy that stands inside credentials.
pub struct LegacyProxy {
    pub proxy_url: String,
    pub proxy_username: Option<String>,
    pub proxy_password: Option<String>,
}

#[verifier::ext_equal]
pub struct LegacyProxyView {
    pub proxy_url: Seq<char>,
    pub proxy_username: Option<Seq<char>>,
    pub proxy_password: Option<Seq<char>>,
}

impl View for LegacyProxy {
    type V = LegacyProxyView;

    open spec fn view(&self) -> LegacyProxyView {
        LegacyProxyView {
            proxy_url: self.proxy_url@,
            proxy_username: opt_text(self.proxy_username),
            proxy_password: opt_text(self.proxy_password),
        }
    }
}

/// The proxy inside credentials, where a URL stands there.
pub open spec fn legacy_proxy(auth: JsonView) -> Option<LegacyProxyView> {
    match legacy_text(auth, seq!["proxyUrl"@, "proxy_url"@]) {
        None => None,
        Some(proxy_url) => Some(
            LegacyProxyView {
                proxy_url,
                proxy_username: legacy_text(auth, seq!["proxyUsername"@, "proxy_username"@]),
                proxy_password: legacy_text(auth, seq!["proxyPassword"@, "proxy_password"@]),
            },
        ),
    }
}

pub fn legacy_proxy_of(auth: &Json) -> (result: Option<LegacyProxy>)
    ensures
        match result {
            Some(proxy) => legacy_proxy(auth@) == Some(proxy@),
            None => legacy_proxy(auth@) is None,
        },
{
    let url_keys: [&str; 2] = ["proxyUrl", "proxy_url"];
    let user_keys: [&str; 2] = ["proxyUsername", "proxy_username"];
    let password_keys: [&str; 2] = ["proxyPassword", "proxy_password"];
    assert(crate::text::strs(url_keys@) =~= seq!["proxyUrl"@, "proxy_url"@]);
    assert(crate::text::strs(user_keys@) =~= seq!["proxyUsername"@, "proxy_username"@]);
    assert(crate::text::strs(password_keys@) =~= seq!["proxyPassword"@, "proxy_password"@]);
    let proxy_url = match legacy_proxy_json_string(auth, &url_keys) {
        Some(url) => url,
        None => return None,
    };
    Some(
        LegacyProxy {
            proxy_url,
            proxy_username: legacy_proxy_json_string(auth, &user_keys),
            proxy_password: legacy_proxy_json_string(auth, &password_keys),
        },
    )
}

// ---------------------------------------------------------------------------
// Order of proxies
// ---------------------------------------------------------------------------

/// An optional text comes after none; texts are ended by a number below all characters.
pub open spec fn opt_key(value: Option<Seq<char>>) -> Seq<i128> {
    match value {
        None => seq![0i128],
        Some(text) => seq![1i128] + text_key(text) + seq![-1i128],
    }
}

/// Proxies are ordered by URL, user name and password.
pub open spec fn proxy_key(proxy: LegacyProxyView) -> Seq<i128> {
    text_key(proxy.proxy_url) + seq![-1i128] + (opt_key(proxy.proxy_username) + opt_key(
        proxy.proxy_password,
    ))
}

fn push_all(key: &mut Vec<i128>, more: &Vec<i128>)
    ensures
        final(key)@ == old(key)@ + more@,
{
    let mut i: usize = 0;
    while i < more.len()
        invariant
            i <= more.len(),
            key@ == old(key)@ + more@.take(i as int),
        decreases more.len() - i,
    {
        key.push(more[i]);
        assert(more@.take(i + 1) =~= more@.take(i as int).push(more@[i as int]));
        i += 1;
    }
    assert(more@.take(i as int) =~= more@);
}

fn opt_key_of(value: &Option<String>) -> (key: Vec<i128>)
    ensures
        key@ == opt_key(opt_text(*value)),
{
    let mut key: Vec<i128> = Vec::new();
    match value {
        None => key.push(0),
        Some(text) => {
            key.push(1);
            push_all(&mut key, &key_of_text(text.as_str()));
            key.push(-1);
            assert(key@ =~= seq![1i128] + text_key(text@) + seq![-1i128]);
        },
    }
    assert(key@ =~= opt_key(opt_text(*value)));
    key
}

fn proxy_key_of(proxy: &LegacyProxy) -> (key: Vec<i128>)
    ensures
        key@ == proxy_key(proxy@),
{
    let mut key = key_of_text(proxy.proxy_url.as_str());
    key.push(-1);
    push_all(&mut key, &opt_key_of(&proxy.proxy_username));
    push_all(&mut key, &opt_key_of(&proxy.proxy_password));
    assert(key@ =~= proxy_key(proxy@));
    key
}

proof fn lemma_ended_text(a: Seq<char>, b: Seq<char>, x: Seq<i128>, y: Seq<i128>)
    requires
        text_key(a) + seq![-1i128] + x == text_key(b) + seq![-1i128] + y,
    ensures
        a == b,
        x == y,
{
    let left = text_key(a) + seq![-1i128] + x;
    let right = text_key(b) + seq![-1i128] + y;
    if a.len() < b.len() {
        assert(left[a.len() as int] == -1);
        assert(right[a.len() as int] == b[a.len() as int] as u32 as i128);
    }
    if b.len() < a.len() {
        assert(right[b.len() as int] == -1);
        assert(left[b.len() as int] == a[b.len() as int] as u32 as i128);
    }
    assert(text_key(a) =~= left.take(a.len() as int));
    assert(text_key(b) =~= right.take(a.len() as int));
    lemma_text_order(a, b, a);
    crate::order::lemma_lex_irreflexive(text_key(a));
    assert(x =~= left.skip(a.len() as int + 1));
    assert(y =~= right.skip(a.len() as int + 1));
}

proof fn lemma_opt_key(a: Option<Seq<char>>, b: Option<Seq<char>>, x: Seq<i128>, y: Seq<i128>)
    requires
        opt_key(a) + x == opt_key(b) + y,
    ensures
        a == b,
        x == y,
{
    let left = opt_key(a) + x;
    let right = opt_key(b) + y;
    assert(left[0] == opt_key(a)[0]);
    assert(right[0] == opt_key(b)[0]);
    match (a, b) {
        (Some(s), Some(t)) => {
            assert(left.skip(1) =~= text_key(s) + seq![-1i128] + x);
            assert(right.skip(1) =~= text_key(t) + seq![-1i128] + y);
            lemma_ended_text(s, t, x, y);
        },
        (None, None) => {
            assert(left.skip(1) =~= x);
            assert(right.skip(1) =~= y);
        },
        _ => {},
    }
}

/// Two proxies have the same key only where they are the same.
pub proof fn law_proxy_keys_are_distinct(a: LegacyProxyView, b: LegacyProxyView)
    requires
        proxy_key(a) == proxy_key(b),
    ensures
        a == b,
{
    lemma_ended_text(
        a.proxy_url,
        b.proxy_url,
        opt_key(a.proxy_username) + opt_key(a.proxy_password),
        opt_key(b.proxy_username) + opt_key(b.proxy_password),
    );
    lemma_opt_key(
        a.proxy_username,
        b.proxy_username,
        opt_key(a.proxy_password),
        opt_key(b.proxy_password),
    );
    assert(opt_key(a.proxy_password) + Seq::<i128>::empty() =~= opt_key(b.proxy_password)
        + Seq::<i128>::empty());
    lemma_opt_key(a.proxy_password, b.proxy_password, Seq::empty(), Seq::empty());
}

// ---------------------------------------------------------------------------
// Accounts by proxy
// ---------------------------------------------------------------------------

/// The accounts that share one proxy.
pub struct LegacyProxyGroup {
    pub proxy: LegacyProxy,
    /// Their positions, in the order of their names in lower case.
    pub accounts: Vec<usize>,
}

pub open spec fn some_or_default(value: Option<JsonView>) -> JsonView {
    match value {
        Some(value) => value,
        None => JsonView::Null,
    }
}

/// The proxy inside the credentials of an account.
pub open spec fn account_proxy(account: LegacyKiroAccount) -> Option<LegacyProxyView> {
    legacy_proxy(some_or_default(parsed_text(account.auth_json@)))
}

/// The positions of the accounts that have a proxy of their own.
pub open spec fn owners(accounts: Seq<LegacyKiroAccount>) -> Seq<usize>
    decreases accounts.len(),
{
    if accounts.len() == 0 {
        Seq::empty()
    } else if account_proxy(accounts.last()) is Some {
        owners(accounts.drop_last()).push((accounts.len() - 1) as usize)
    } else {
        owners(accounts.drop_last())
    }
}

/// The keys of their proxies.
pub open spec fn owner_keys(accounts: Seq<LegacyKiroAccount>) -> Seq<Seq<i128>>
    decreases accounts.len(),
{
    if accounts.len() == 0 {
        Seq::empty()
    } else {
        match account_proxy(accounts.last()) {
            Some(proxy) => owner_keys(accounts.drop_last()).push(proxy_key(proxy)),
            None => owner_keys(accounts.drop_last()),
        }
    }
}

pub open spec fn lower_name_keys(accounts: Seq<LegacyKiroAccount>, members: Seq<usize>) -> Seq<
    Seq<i128>,
> {
    Seq::new(
        members.len(),
        |i: int| text_key(lower(accounts[members[i] as int].account_name@)),
    )
}

/// The members of a group of owners.
pub open spec fn members_of(accounts: Seq<LegacyKiroAccount>, group: Seq<usize>) -> Seq<usize> {
    Seq::new(group.len(), |i: int| owners(accounts)[group[i] as int])
}

/// `list` holds `members` in the order of their names in lower case; of equal names the
/// first stays first.
pub open spec fn sorted_by_name(
    accounts: Seq<LegacyKiroAccount>,
    members: Seq<usize>,
    list: Seq<usize>,
) -> bool {
    exists|order: Seq<usize>| #[trigger]
        sorted_positions(lower_name_keys(accounts, members), order) && list == Seq::new(
            order.len(),
            |i: int| members[order[i] as int],
        )
}

pub open spec fn is_proxy_group(
    accounts: Seq<LegacyKiroAccount>,
    positions: Vec<usize>,
    group: LegacyProxyGroup,
) -> bool {
    &&& account_proxy(accounts[owners(accounts)[positions@[0] as int] as int]) == Some(group.proxy@)
    &&& sorted_by_name(accounts, members_of(accounts, positions@), group.accounts@)
}

/// The accounts with a proxy of their own, grouped by proxy.
pub open spec fn are_proxy_groups(
    accounts: Seq<LegacyKiroAccount>,
    groups: Seq<LegacyProxyGroup>,
) -> bool {
    exists|grouping: Seq<Vec<usize>>| #[trigger]
        is_grouping(grouping, owner_keys(accounts)) && groups.len() == grouping.len() && forall|
            g: int,
        |
            0 <= g < groups.len() ==> is_proxy_group(
                accounts,
                #[trigger] grouping[g],
                #[trigger] groups[g],
            )
}

pub open spec fn all_readable(accounts: Seq<LegacyKiroAccount>) -> bool {
    forall|i: int|
        0 <= i < accounts.len() ==> parsed_text((#[trigger] accounts[i]).auth_json@) is Some
}

proof fn lemma_owners(accounts: Seq<LegacyKiroAccount>)
    requires
        accounts.len() <= usize::MAX,
    ensures
        owners(accounts).len() == owner_keys(accounts).len(),
        forall|i: int|
            0 <= i < owners(accounts).len() ==> (#[trigger] owners(accounts)[i]) < accounts.len()
                && account_proxy(accounts[owners(accounts)[i] as int]) is Some,
    decreases accounts.len(),
{
    if accounts.len() > 0 {
        let head = accounts.drop_last();
        lemma_owners(head);
        assert forall|i: int| 0 <= i < owners(accounts).len() implies (#[trigger] owners(
            accounts,
        )[i]) < accounts.len() && account_proxy(accounts[owners(accounts)[i] as int]) is Some by {
            if i < owners(head).len() {
                assert(owners(accounts)[i] == owners(head)[i]);
                assert(head[owners(head)[i] as int] == accounts[owners(head)[i] as int]);
            }
        }
    }
}

pub open spec fn groups_in_range(
    accounts: Seq<LegacyKiroAccount>,
    groups: Seq<LegacyProxyGroup>,
) -> bool {
    forall|g: int| 0 <= g < groups.len() ==> in_range(accounts, (#[trigger] groups[g]).accounts@)
}

fn copy_proxy(proxy: &LegacyProxy) -> (result: LegacyProxy)
    ensures
        result == *proxy,
{
    LegacyProxy {
        proxy_url: proxy.proxy_url.clone(),
        proxy_username: clone_opt(&proxy.proxy_username),
        proxy_password: clone_opt(&proxy.proxy_password),
    }
}

pub open spec fn in_range(accounts: Seq<LegacyKiroAccount>, list: Seq<usize>) -> bool {
    forall|i: int| 0 <= i < list.len() ==> (#[trigger] list[i]) < accounts.len()
}

fn sort_members(accounts: &Vec<LegacyKiroAccount>, members: &Vec<usize>) -> (list: Vec<usize>)
    requires
        forall|i: int| 0 <= i < members.len() ==> (#[trigger] members@[i]) < accounts.len(),
    ensures
        sorted_by_name(accounts@, members@, list@),
        in_range(accounts@, list@),
{
    let mut keys: Vec<Vec<i128>> = Vec::new();
    let mut i: usize = 0;
    while i < members.len()
        invariant
            i <= members.len(),
            keys.len() == i,
            forall|k: int| 0 <= k < members.len() ==> (#[trigger] members@[k]) < accounts.len(),
            forall|k: int|
                0 <= k < i ==> (#[trigger] keys@[k])@ == text_key(
                    lower(accounts@[members@[k] as int].account_name@),
                ),
        decreases members.len() - i,
    {
        let name = lowered(accounts[members[i]].account_name.as_str());
        keys.push(key_of_text(name.as_str()));
        i += 1;
    }
    assert(key_views(keys@) =~= lower_name_keys(accounts@, members@));
    let order = sort_positions(&keys);
    let mut list: Vec<usize> = Vec::new();
    let mut j: usize = 0;
    while j < order.len()
        invariant
            j <= order.len(),
            list.len() == j,
            order.len() == members.len(),
            forall|k: int| 0 <= k < order.len() ==> (#[trigger] order@[k]) < members.len(),
            forall|k: int| 0 <= k < members.len() ==> (#[trigger] members@[k]) < accounts.len(),
            forall|k: int| 0 <= k < j ==> (#[trigger] list@[k]) == members@[order@[k] as int],
            in_range(accounts@, list@),
        decreases order.len() - j,
    {
        list.push(members[order[j]]);
        j += 1;
    }
    assert(list@ =~= Seq::new(order@.len(), |i: int| members@[order@[i] as int]));
    assert(sorted_positions(lower_name_keys(accounts@, members@), order@));
    list
}

/// Groups the accounts with a proxy of their own by proxy. All credentials must be
/// readable.
pub fn legacy_proxy_groups(accounts: &Vec<LegacyKiroAccount>) -> (result: Result<
    Vec<LegacyProxyGroup>,
    ProxyError,
>)
    ensures
        match result {
            Ok(groups) => all_readable(accounts@) && are_proxy_groups(accounts@, groups@)
                && groups_in_range(accounts@, groups@),
            Err(error) => !all_readable(accounts@) && error is MigrationAuthUnreadable,
        },
{
    let mut places: Vec<usize> = Vec::new();
    let mut proxies: Vec<LegacyProxy> = Vec::new();
    let mut keys: Vec<Vec<i128>> = Vec::new();
    let mut i: usize = 0;
    assert(accounts@.take(0) =~= Seq::<LegacyKiroAccount>::empty());
    assert(key_views(keys@) =~= owner_keys(accounts@.take(0)));
    while i < accounts.len()
        invariant
            i <= accounts.len(),
            places@ == owners(accounts@.take(i as int)),
            key_views(keys@) == owner_keys(accounts@.take(i as int)),
            proxies.len() == places.len(),
            keys.len() == places.len(),
            forall|k: int| 0 <= k < places.len() ==> (#[trigger] places@[k]) < i,
            forall|k: int|
                0 <= k < places.len() ==> account_proxy(accounts@[places@[k] as int]) == Some(
                    (#[trigger] proxies@[k])@,
                ),
            forall|k: int|
                0 <= k < i ==> parsed_text((#[trigger] accounts@[k]).auth_json@) is Some,
        decreases accounts.len() - i,
    {
        let ghost head = accounts@.take(i + 1);
        assert(head.drop_last() =~= accounts@.take(i as int));
        assert(head.last() == accounts@[i as int]);
        let auth = match parse_text(accounts[i].auth_json.as_str()) {
            Some(auth) => auth,
            None => {
                assert(!all_readable(accounts@));
                return Err(ProxyError::MigrationAuthUnreadable);
            },
        };
        if let Some(proxy) = legacy_proxy_of(&auth) {
            let ghost before = key_views(keys@);
            keys.push(proxy_key_of(&proxy));
            assert(key_views(keys@) =~= before.push(proxy_key(proxy@)));
            places.push(i);
            proxies.push(proxy);
        }
        i += 1;
    }
    assert(accounts@.take(i as int) =~= accounts@);
    let grouping = group_positions(&keys);
    let mut groups: Vec<LegacyProxyGroup> = Vec::new();
    let mut g: usize = 0;
    while g < grouping.len()
        invariant
            g <= grouping.len(),
            groups.len() == g,
            places@ == owners(accounts@),
            proxies.len() == places.len(),
            key_views(keys@).len() == places.len(),
            key_views(keys@) == owner_keys(accounts@),
            is_grouping(grouping@, key_views(keys@)),
            forall|k: int| 0 <= k < places.len() ==> (#[trigger] places@[k]) < accounts.len(),
            forall|k: int|
                0 <= k < places.len() ==> account_proxy(accounts@[places@[k] as int]) == Some(
                    (#[trigger] proxies@[k])@,
                ),
            forall|k: int|
                0 <= k < g ==> is_proxy_group(
                    accounts@,
                    #[trigger] grouping@[k],
                    #[trigger] groups@[k],
                ),
            groups_in_range(accounts@, groups@),
        decreases grouping.len() - g,
    {
        assert(is_group(grouping@[g as int], key_views(keys@)));
        proof {
            crate::order::lemma_group_in_range(grouping@[g as int], key_views(keys@));
        }
        let mut members: Vec<usize> = Vec::new();
        let mut m: usize = 0;
        while m < grouping[g].len()
            invariant
                g < grouping.len(),
                m <= grouping@[g as int].len(),
                members.len() == m,
                places@ == owners(accounts@),
                forall|k: int| 0 <= k < places.len() ==> (#[trigger] places@[k]) < accounts.len(),
                forall|k: int|
                    0 <= k < grouping@[g as int]@.len() ==> (#[trigger] grouping@[g as int]@[k])
                        < places.len(),
                forall|k: int|
                    0 <= k < m ==> (#[trigger] members@[k])
                        == places@[grouping@[g as int]@[k] as int],
            decreases grouping@[g as int].len() - m,
        {
            members.push(places[grouping[g][m]]);
            m += 1;
        }
        assert(members@ =~= members_of(accounts@, grouping@[g as int]@));
        assert forall|k: int| 0 <= k < members@.len() implies (#[trigger] members@[k])
            < accounts.len() by {
            assert(grouping@[g as int]@[k] < places.len());
            assert(members@[k] == places@[grouping@[g as int]@[k] as int]);
        }
        let list = sort_members(accounts, &members);
        let proxy = copy_proxy(&proxies[grouping[g][0]]);
        groups.push(LegacyProxyGroup { proxy, accounts: list });
        assert(is_proxy_group(accounts@, grouping@[g as int], groups@[g as int]));
        g += 1;
    }
    assert(is_grouping(grouping@, owner_keys(accounts@)));
    Ok(groups)
}

// ---------------------------------------------------------------------------
// Slots
// ---------------------------------------------------------------------------

pub open spec fn slot_proxy(slot: AdminProxyConfig) -> LegacyProxyView {
    LegacyProxyView {
        proxy_url: slot.proxy_url@,
        proxy_username: opt_text(slot.proxy_username),
        proxy_password: opt_text(slot.proxy_password),
    }
}

/// The slot that stands for a proxy: of several the last.
pub open spec fn slot_for(slots: Seq<AdminProxyConfig>, proxy: LegacyProxyView) -> Option<int>
    decreases slots.len(),
{
    if slots.len() == 0 {
        None
    } else if slot_proxy(slots.last()) == proxy {
        Some(slots.len() - 1)
    } else {
        slot_for(slots.drop_last(), proxy)
    }
}

/// Whether a slot that stands for its proxy has the given id.
pub open spec fn id_taken(slots: Seq<AdminProxyConfig>, id: Seq<char>) -> bool {
    exists|i: int|
        0 <= i < slots.len() && (#[trigger] slots[i]).id@ == id && slot_for(
            slots,
            slot_proxy(slots[i]),
        ) == Some(i)
}

fn same_opt(a: &Option<String>, b: &Option<String>) -> (result: bool)
    ensures
        result == (opt_text(*a) == opt_text(*b)),
{
    match (a, b) {
        (Some(a), Some(b)) => same_text(a.as_str(), b.as_str()),
        (None, None) => true,
        _ => false,
    }
}

fn slot_stands_for(
    slot: &AdminProxyConfig,
    proxy_url: &str,
    proxy_username: &Option<String>,
    proxy_password: &Option<String>,
) -> (result: bool)
    ensures
        result == (slot_proxy(*slot) == (LegacyProxyView {
            proxy_url: proxy_url@,
            proxy_username: opt_text(*proxy_username),
            proxy_password: opt_text(*proxy_password),
        })),
{
    same_text(slot.proxy_url.as_str(), proxy_url) && same_opt(
        &slot.proxy_username,
        proxy_username,
    ) && same_opt(&slot.proxy_password, proxy_password)
}

fn find_slot(
    slots: &Vec<AdminProxyConfig>,
    proxy_url: &str,
    proxy_username: &Option<String>,
    proxy_password: &Option<String>,
) -> (result: Option<usize>)
    ensures
        match result {
            Some(i) => i < slots.len() && slot_for(
                slots@,
                LegacyProxyView {
                    proxy_url: proxy_url@,
                    proxy_username: opt_text(*proxy_username),
                    proxy_password: opt_text(*proxy_password),
                },
            ) == Some(i as int),
            None => slot_for(
                slots@,
                LegacyProxyView {
                    proxy_url: proxy_url@,
                    proxy_username: opt_text(*proxy_username),
                    proxy_password: opt_text(*proxy_password),
                },
            ) is None,
        },
{
    let ghost proxy = LegacyProxyView {
        proxy_url: proxy_url@,
        proxy_username: opt_text(*proxy_username),
        proxy_password: opt_text(*proxy_password),
    };
    let mut n: usize = slots.len();
    assert(slots@.take(n as int) =~= slots@);
    while n > 0
        invariant
            n <= slots.len(),
            proxy == (LegacyProxyView {
                proxy_url: proxy_url@,
                proxy_username: opt_text(*proxy_username),
                proxy_password: opt_text(*proxy_password),
            }),
            slot_for(slots@, proxy) == slot_for(slots@.take(n as int), proxy),
        decreases n,
    {
        let ghost head = slots@.take(n as int);
        assert(head.drop_last() =~= slots@.take(n - 1));
        assert(head.last() == slots@[n - 1]);
        if slot_stands_for(&slots[n - 1], proxy_url, proxy_username, proxy_password) {
            return Some(n - 1);
        }
        n -= 1;
    }
    None
}

fn is_id_taken(slots: &Vec<AdminProxyConfig>, id: &str) -> (result: bool)
    ensures
        result == id_taken(slots@, id@),
{
    let mut i: usize = 0;
    while i < slots.len()
        invariant
            i <= slots.len(),
            forall|k: int|
                0 <= k < i ==> !((#[trigger] slots@[k]).id@ == id@ && slot_for(
                    slots@,
                    slot_proxy(slots@[k]),
                ) == Some(k)),
        decreases slots.len() - i,
    {
        let slot = &slots[i];
        if same_text(slot.id.as_str(), id) {
            let found = find_slot(
                slots,
                slot.proxy_url.as_str(),
                &slot.proxy_username,
                &slot.proxy_password,
            );
            assert(slot_proxy(*slot) =~= (LegacyProxyView {
                proxy_url: slot.proxy_url@,
                proxy_username: opt_text(slot.proxy_username),
                proxy_password: opt_text(slot.proxy_password),
            }));
            if let Some(at) = found {
                if at == i {
                    assert(slots@[i as int].id@ == id@);
                    return true;
                }
            }
        }
        i += 1;
    }
    false
}

/// The id that is tried for a new slot, the `suffix`-th time.
pub open spec fn slot_id(now_ms: i64, number: nat, suffix: nat) -> Seq<char> {
    let base = "llm-proxy-legacy-"@ + decimal_signed(now_ms as int) + "-"@ + decimal(number);
    if suffix == 0 {
        base
    } else {
        base + "-"@ + decimal(suffix)
    }
}

/// How often an id is tried.
pub const SLOT_ID_ATTEMPTS: u64 = 1000;

/// `suffix` is the first one whose id is free.
pub open spec fn first_free(slots: Seq<AdminProxyConfig>, now_ms: i64, number: nat, suffix: nat) -> bool {
    &&& suffix < SLOT_ID_ATTEMPTS
    &&& !id_taken(slots, slot_id(now_ms, number, suffix))
    &&& forall|t: nat| t < suffix ==> id_taken(slots, #[trigger] slot_id(now_ms, number, t))
}

/// The slot for a proxy.
pub enum SlotChoice {
    /// A slot that is there already, by its position.
    Reuse(usize),
    Create(NewAdminProxyConfig),
}

/// A new slot for a proxy, the `number`-th of the migration.
pub open spec fn is_new_slot(
    new: NewAdminProxyConfig,
    proxy: LegacyProxy,
    number: nat,
    slots: Seq<AdminProxyConfig>,
    now_ms: i64,
) -> bool {
    &&& new == (NewAdminProxyConfig {
        id: new.id,
        name: new.name,
        proxy_url: proxy.proxy_url,
        proxy_username: proxy.proxy_username,
        proxy_password: proxy.proxy_password,
        created_at_ms: now_ms,
    })
    &&& new.name@ == "legacy-kiro-"@ + decimal(number)
    &&& exists|suffix: nat|
        first_free(slots, now_ms, number, suffix) && new.id@ == #[trigger] slot_id(
            now_ms,
            number,
            suffix,
        )
}

/// The slot for the proxy of the group at `index`: one that stands for it already, or a
/// new one with a free id.
pub fn choose_legacy_slot(
    proxy: &LegacyProxy,
    index: usize,
    slots: &Vec<AdminProxyConfig>,
    now_ms: i64,
) -> (result: Result<SlotChoice, ProxyError>)
    requires
        index < usize::MAX,
    ensures
        match slot_for(slots@, proxy@) {
            Some(i) => result matches Ok(SlotChoice::Reuse(at)) && at == i,
            None => match result {
                Ok(SlotChoice::Create(new)) => is_new_slot(
                    new,
                    *proxy,
                    (index + 1) as nat,
                    slots@,
                    now_ms,
                ),
                Ok(_) => false,
                Err(error) => error is NoFreeId && forall|t: nat|
                    t < SLOT_ID_ATTEMPTS ==> id_taken(
                        slots@,
                        #[trigger] slot_id(now_ms, (index + 1) as nat, t),
                    ),
            },
        },
{
    assert(proxy@ =~= (LegacyProxyView {
        proxy_url: proxy.proxy_url@,
        proxy_username: opt_text(proxy.proxy_username),
        proxy_password: opt_text(proxy.proxy_password),
    }));
    if let Some(at) = find_slot(
        slots,
        proxy.proxy_url.as_str(),
        &proxy.proxy_username,
        &proxy.proxy_password,
    ) {
        return Ok(SlotChoice::Reuse(at));
    }
    let ghost number = (index + 1) as nat;
    let number_text = decimal_of((index + 1) as u64);
    let mut base = concat3(
        "llm-proxy-legacy-",
        decimal_of_signed(now_ms).as_str(),
        "-",
    );
    base.append(number_text.as_str());
    assert(base@ == slot_id(now_ms, number, 0));
    let mut suffix: u64 = 0;
    while suffix < SLOT_ID_ATTEMPTS
        invariant
            suffix <= SLOT_ID_ATTEMPTS,
            number == index + 1,
            index < usize::MAX,
            number_text@ == decimal(number),
            base@ == slot_id(now_ms, number, 0),
            slot_for(slots@, proxy@) is None,
            forall|t: nat| t < suffix ==> id_taken(slots@, #[trigger] slot_id(now_ms, number, t)),
        decreases SLOT_ID_ATTEMPTS - suffix,
    {
        let candidate = if suffix == 0 {
            base.clone()
        } else {
            concat3(base.as_str(), "-", decimal_of(suffix).as_str())
        };
        assert(candidate@ == slot_id(now_ms, number, suffix as nat));
        if !is_id_taken(slots, candidate.as_str()) {
            let new = NewAdminProxyConfig {
                id: candidate,
                name: concat2("legacy-kiro-", number_text.as_str()),
                proxy_url: proxy.proxy_url.clone(),
                proxy_username: clone_opt(&proxy.proxy_username),
                proxy_password: clone_opt(&proxy.proxy_password),
                created_at_ms: now_ms,
            };
            assert(first_free(slots@, now_ms, number, suffix as nat));
            assert(new.id@ == slot_id(now_ms, number, suffix as nat));
            return Ok(SlotChoice::Create(new));
        }
        suffix += 1;
    }
    Err(ProxyError::NoFreeId)
}

// ---------------------------------------------------------------------------
// The migration
// ---------------------------------------------------------------------------

/// One write of the migration.
pub enum MigrationWrite {
    CreateSlot(NewAdminProxyConfig),
    /// The account is bound to the slot, and its credentials are replaced.
    SaveAccount { account: usize, slot_id: String, auth_json: String },
}

/// What the migration does.
pub struct LegacyMigration {
    /// The writes, in their order. Where the migration fails they come before the failure.
    pub writes: Vec<MigrationWrite>,
    /// The positions of the slots that were there already, in the order of their use.
    pub reused: Vec<usize>,
    /// The names of the accounts that were moved, in order, each once.
    pub outcome: Result<Vec<String>, ProxyError>,
}

/// The credentials of an account once they point to a slot.
pub open spec fn cleared_text(auth_json: Seq<char>, slot_id: Seq<char>) -> Option<Seq<char>> {
    match parsed_text(auth_json) {
        Some(value) => written_text(cleared_auth(value, slot_id)),
        None => None,
    }
}

/// How many accounts are saved before one cannot be.
pub open spec fn saved_count(
    accounts: Seq<LegacyKiroAccount>,
    list: Seq<usize>,
    slot_id: Seq<char>,
) -> nat
    decreases list.len(),
{
    if list.len() == 0 || cleared_text(accounts[list[0] as int].auth_json@, slot_id) is None {
        0
    } else {
        1 + saved_count(accounts, list.drop_first(), slot_id)
    }
}

/// The account is saved with the slot and its cleared credentials.
pub open spec fn is_save(
    write: MigrationWrite,
    accounts: Seq<LegacyKiroAccount>,
    at: usize,
    id: Seq<char>,
) -> bool {
    write matches MigrationWrite::SaveAccount { account, slot_id, auth_json } && account == at
        && slot_id@ == id && cleared_text(accounts[at as int].auth_json@, id) == Some(auth_json@)
}

/// The accounts of a list are saved one after the other.
pub open spec fn are_saves(
    writes: Seq<MigrationWrite>,
    accounts: Seq<LegacyKiroAccount>,
    list: Seq<usize>,
    id: Seq<char>,
) -> bool {
    writes.len() <= list.len() && forall|k: int|
        0 <= k < writes.len() ==> is_save(#[trigger] writes[k], accounts, list[k], id)
}

/// A slot that was just created, as the node that created it sees it.
pub open spec fn is_created_slot(
    slot: AdminProxyConfig,
    new: NewAdminProxyConfig,
    scope: ProxyScope,
) -> bool {
    &&& slot == (AdminProxyConfig {
        id: new.id,
        name: new.name,
        proxy_url: new.proxy_url,
        proxy_username: new.proxy_username,
        proxy_password: new.proxy_password,
        status: slot.status,
        created_at: new.created_at_ms,
        updated_at: new.created_at_ms,
        scope_node_id: scope.scope_node_id,
        effective_source: slot.effective_source,
        has_node_override: false,
        can_edit_slot_metadata: scope.can_edit_slot_metadata,
        latest_codex_check: None,
        latest_kiro_check: None,
    })
    &&& slot.status@ == "active"@
    &&& slot.effective_source@ == "core"@
}

fn created_slot(new: &NewAdminProxyConfig, scope: &ProxyScope) -> (slot: AdminProxyConfig)
    ensures
        is_created_slot(slot, *new, *scope),
{
    AdminProxyConfig {
        id: new.id.clone(),
        name: new.name.clone(),
        proxy_url: new.proxy_url.clone(),
        proxy_username: clone_opt(&new.proxy_username),
        proxy_password: clone_opt(&new.proxy_password),
        status: "active".to_owned(),
        created_at: new.created_at_ms,
        updated_at: new.created_at_ms,
        scope_node_id: clone_opt(&scope.scope_node_id),
        effective_source: "core".to_owned(),
        has_node_override: false,
        can_edit_slot_metadata: scope.can_edit_slot_metadata,
        latest_codex_check: None,
        latest_kiro_check: None,
    }
}

/// Whether no id is left for a new slot.
pub open spec fn no_free_id(slots: Seq<AdminProxyConfig>, now_ms: i64, number: nat) -> bool {
    forall|t: nat| t < SLOT_ID_ATTEMPTS ==> id_taken(slots, #[trigger] slot_id(now_ms, number, t))
}

/// What follows once a group has its slot: its accounts are saved, then the other groups
/// have their turn.
pub open spec fn goes_on(
    accounts: Seq<LegacyKiroAccount>,
    groups: Seq<LegacyProxyGroup>,
    id: Seq<char>,
    slots: Seq<AdminProxyConfig>,
    number: nat,
    scope: ProxyScope,
    now_ms: i64,
    writes: Seq<MigrationWrite>,
    reused: Seq<usize>,
    failure: Option<ProxyError>,
) -> bool
    decreases groups.len(), 0nat,
    when groups.len() > 0
{
    let list = groups[0].accounts@;
    let saved = saved_count(accounts, list, id);
    &&& saved <= writes.len()
    &&& are_saves(writes.take(saved as int), accounts, list, id)
    &&& if saved < list.len() {
        &&& writes.len() == saved
        &&& reused.len() == 0
        &&& failure matches Some(error) && error is AuthUnwritable
    } else {
        migrates(
            accounts,
            groups.drop_first(),
            slots,
            number + 1,
            scope,
            now_ms,
            writes.skip(saved as int),
            reused,
            failure,
        )
    }
}

/// The groups are moved one after the other, the first of them as the `number`-th of the
/// migration. A group takes the slot that stands for its proxy, or a new one.
pub open spec fn migrates(
    accounts: Seq<LegacyKiroAccount>,
    groups: Seq<LegacyProxyGroup>,
    slots: Seq<AdminProxyConfig>,
    number: nat,
    scope: ProxyScope,
    now_ms: i64,
    writes: Seq<MigrationWrite>,
    reused: Seq<usize>,
    failure: Option<ProxyError>,
) -> bool
    decreases groups.len(), 1nat,
{
    if groups.len() == 0 {
        writes.len() == 0 && reused.len() == 0 && failure is None
    } else {
        match slot_for(slots, groups[0].proxy@) {
            Some(at) => reused.len() > 0 && reused[0] == at && goes_on(
                accounts,
                groups,
                slots[at].id@,
                slots,
                number,
                scope,
                now_ms,
                writes,
                reused.drop_first(),
                failure,
            ),
            None => if no_free_id(slots, now_ms, number) {
                writes.len() == 0 && reused.len() == 0 && (failure matches Some(error)
                    && error is NoFreeId)
            } else if !scope.can_edit_slot_metadata {
                writes.len() == 0 && reused.len() == 0 && (failure matches Some(error)
                    && error is CreateOffCore)
            } else {
                writes.len() > 0 && (writes[0] matches MigrationWrite::CreateSlot(new)
                    && is_new_slot(new, groups[0].proxy, number, slots, now_ms) && exists|
                    slot: AdminProxyConfig,
                | #[trigger]
                    is_created_slot(slot, new, scope) && goes_on(
                        accounts,
                        groups,
                        new.id@,
                        slots.push(slot),
                        number,
                        scope,
                        now_ms,
                        writes.drop_first(),
                        reused,
                        failure,
                    ))
            },
        }
    }
}

/// Saves the accounts of a list up to the first one that cannot be saved.
fn save_accounts(
    accounts: &Vec<LegacyKiroAccount>,
    list: &Vec<usize>,
    id: &str,
    writes: &mut Vec<MigrationWrite>,
) -> (failure: Option<ProxyError>)
    requires
        in_range(accounts@, list@),
        all_readable(accounts@),
    ensures
        ({
            let before = old(writes)@.len() as int;
            let saved = saved_count(accounts@, list@, id@);
            &&& final(writes)@.len() == before + saved
            &&& final(writes)@.take(before) == old(writes)@
            &&& are_saves(final(writes)@.skip(before), accounts@, list@, id@)
            &&& match failure {
                Some(error) => error is AuthUnwritable && saved < list.len(),
                None => saved == list.len(),
            }
        }),
{
    let ghost before = writes@;
    let mut i: usize = 0;
    assert(list@.skip(0) =~= list@);
    while i < list.len()
        invariant
            i <= list.len(),
            in_range(accounts@, list@),
            all_readable(accounts@),
            before == old(writes)@,
            writes@.len() == before.len() + i,
            writes@.take(before.len() as int) == before,
            are_saves(writes@.skip(before.len() as int), accounts@, list@, id@),
            saved_count(accounts@, list@, id@) == i + saved_count(
                accounts@,
                list@.skip(i as int),
                id@,
            ),
        decreases list.len() - i,
    {
        let ghost rest = list@.skip(i as int);
        assert(rest.drop_first() =~= list@.skip(i + 1));
        assert(rest[0] == list@[i as int]);
        let at = list[i];
        assert(parsed_text(accounts@[at as int].auth_json@) is Some);
        match clear_legacy_kiro_proxy_json(accounts[at].auth_json.as_str(), id) {
            Ok(auth_json) => {
                let ghost so_far = writes@;
                writes.push(
                    MigrationWrite::SaveAccount { account: at, slot_id: id.to_owned(), auth_json },
                );
                let ghost saves = writes@.skip(before.len() as int);
                assert(writes@.take(before.len() as int) =~= so_far.take(before.len() as int));
                assert(is_save(saves[i as int], accounts@, list@[i as int], id@));
                assert forall|k: int| 0 <= k < saves.len() implies is_save(
                    #[trigger] saves[k],
                    accounts@,
                    list@[k],
                    id@,
                ) by {
                    if k < i {
                        assert(saves[k] == so_far.skip(before.len() as int)[k]);
                    }
                }
            },
            Err(error) => {
                assert(saved_count(accounts@, rest, id@) == 0);
                return Some(error);
            },
        }
        i += 1;
    }
    assert(list@.skip(i as int) =~= Seq::<usize>::empty());
    None
}

/// Moves the groups from the one at `g` on.
fn migrate_from(
    accounts: &Vec<LegacyKiroAccount>,
    groups: &Vec<LegacyProxyGroup>,
    g: usize,
    slots: &mut Vec<AdminProxyConfig>,
    scope: &ProxyScope,
    now_ms: i64,
    writes: &mut Vec<MigrationWrite>,
    reused: &mut Vec<usize>,
) -> (failure: Option<ProxyError>)
    requires
        g <= groups.len(),
        groups_in_range(accounts@, groups@),
        all_readable(accounts@),
    ensures
        final(writes)@.len() >= old(writes)@.len(),
        final(writes)@.take(old(writes)@.len() as int) == old(writes)@,
        final(reused)@.len() >= old(reused)@.len(),
        final(reused)@.take(old(reused)@.len() as int) == old(reused)@,
        migrates(
            accounts@,
            groups@.skip(g as int),
            old(slots)@,
            (g + 1) as nat,
            *scope,
            now_ms,
            final(writes)@.skip(old(writes)@.len() as int),
            final(reused)@.skip(old(reused)@.len() as int),
            failure,
        ),
    decreases groups.len() - g,
{
    let ghost w = writes@.len() as int;
    let ghost r = reused@.len() as int;
    let ghost left = groups@.skip(g as int);
    if g == groups.len() {
        return None;
    }
    let group = &groups[g];
    assert(left[0] == *group);
    assert(left.drop_first() =~= groups@.skip(g + 1));
    assert(in_range(accounts@, group.accounts@));
    match choose_legacy_slot(&group.proxy, g, slots, now_ms) {
        Err(error) => Some(error),
        Ok(SlotChoice::Reuse(at)) => {
            proof {
                lemma_slot_for_in_range(slots@, group.proxy@);
            }
            let id = slots[at].id.clone();
            reused.push(at);
            let failure = save_accounts(accounts, &group.accounts, id.as_str(), writes);
            let ghost middle = writes@;
            let ghost saved = saved_count(accounts@, group.accounts@, id@) as int;
            if failure.is_some() {
                assert(middle.skip(w).take(saved) =~= middle.skip(w));
                assert(reused@.skip(r).drop_first() =~= Seq::<usize>::empty());
                assert(reused@.take(r) =~= old(reused)@);
                return failure;
            }
            let ghost one = reused@;
            let failure = migrate_from(
                accounts,
                groups,
                g + 1,
                slots,
                scope,
                now_ms,
                writes,
                reused,
            );
            proof {
                assert(writes@.take(w) =~= writes@.take(middle.len() as int).take(w));
                assert(writes@.skip(w).take(saved) =~= writes@.take(middle.len() as int).skip(w));
                assert(writes@.skip(w).skip(saved) =~= writes@.skip(middle.len() as int));
                assert(reused@.take(r) =~= reused@.take(one.len() as int).take(r));
                assert(one.take(r) =~= old(reused)@);
                assert(reused@.skip(r)[0] == reused@.take(one.len() as int)[r]);
                assert(reused@.skip(r).drop_first() =~= reused@.skip(one.len() as int));
            }
            failure
        },
        Ok(SlotChoice::Create(new)) => {
            proof {
                let suffix = choose|suffix: nat|
                    first_free(slots@, now_ms, (g + 1) as nat, suffix) && new.id@
                        == #[trigger] slot_id(now_ms, (g + 1) as nat, suffix);
                assert(!no_free_id(slots@, now_ms, (g + 1) as nat));
            }
            if !scope.can_edit_slot_metadata {
                return Some(ProxyError::CreateOffCore);
            }
            let id = new.id.clone();
            let slot = created_slot(&new, scope);
            let ghost made = slot;
            let ghost row = new;
            writes.push(MigrationWrite::CreateSlot(new));
            let ghost first = writes@;
            slots.push(slot);
            let failure = save_accounts(accounts, &group.accounts, id.as_str(), writes);
            let ghost middle = writes@;
            let ghost saved = saved_count(accounts@, group.accounts@, id@) as int;
            assert(first.take(w) =~= old(writes)@);
            assert(middle.take(w) =~= middle.take(first.len() as int).take(w));
            assert(middle.skip(w)[0] == middle.take(first.len() as int)[w]);
            assert(middle.skip(w).drop_first() =~= middle.skip(first.len() as int));
            assert(is_created_slot(made, row, *scope));
            if failure.is_some() {
                assert(middle.skip(w).drop_first().take(saved) =~= middle.skip(
                    first.len() as int,
                ));
                return failure;
            }
            let failure = migrate_from(
                accounts,
                groups,
                g + 1,
                slots,
                scope,
                now_ms,
                writes,
                reused,
            );
            proof {
                let all = writes@.skip(w);
                assert(writes@.take(w) =~= writes@.take(middle.len() as int).take(w));
                assert(all[0] == writes@.take(middle.len() as int)[w]);
                assert(all.drop_first().take(saved) =~= middle.skip(first.len() as int)) by {
                    assert(writes@.take(middle.len() as int) == middle);
                }
                assert(all.drop_first().skip(saved) =~= writes@.skip(middle.len() as int));
            }
            failure
        },
    }
}

proof fn lemma_slot_for_in_range(slots: Seq<AdminProxyConfig>, proxy: LegacyProxyView)
    ensures
        slot_for(slots, proxy) matches Some(at) ==> 0 <= at < slots.len(),
    decreases slots.len(),
{
    if slots.len() > 0 {
        lemma_slot_for_in_range(slots.drop_last(), proxy);
    }
}

/// Only accounts that are there are saved.
pub open spec fn saves_in_range(
    writes: Seq<MigrationWrite>,
    accounts: Seq<LegacyKiroAccount>,
) -> bool {
    forall|i: int|
        0 <= i < writes.len() ==> ((#[trigger] writes[i]) matches MigrationWrite::SaveAccount {
            account,
            ..
        } ==> account < accounts.len())
}

proof fn lemma_saves_in_range(
    writes: Seq<MigrationWrite>,
    accounts: Seq<LegacyKiroAccount>,
    groups: Seq<LegacyProxyGroup>,
    id: Seq<char>,
    slots: Seq<AdminProxyConfig>,
    number: nat,
    scope: ProxyScope,
    now_ms: i64,
    reused: Seq<usize>,
    failure: Option<ProxyError>,
)
    requires
        groups.len() > 0,
        groups_in_range(accounts, groups),
        goes_on(
            accounts,
            groups,
            id,
            slots,
            number,
            scope,
            now_ms,
            writes,
            reused,
            failure,
        ),
    ensures
        saves_in_range(writes, accounts),
    decreases groups.len(), 0nat,
{
    let list = groups[0].accounts@;
    let saved = saved_count(accounts, list, id) as int;
    assert(in_range(accounts, list));
    if saved >= list.len() {
        lemma_writes_in_range(
            accounts,
            groups.drop_first(),
            slots,
            number + 1,
            scope,
            now_ms,
            writes.skip(saved),
            reused,
            failure,
        );
    }
    assert forall|i: int| 0 <= i < writes.len() implies ((
    #[trigger] writes[i]) matches MigrationWrite::SaveAccount { account, .. } ==> account
        < accounts.len()) by {
        if i < saved {
            assert(is_save(writes.take(saved)[i], accounts, list[i], id));
        } else {
            assert(writes[i] == writes.skip(saved)[i - saved]);
        }
    }
}

proof fn lemma_writes_in_range(
    accounts: Seq<LegacyKiroAccount>,
    groups: Seq<LegacyProxyGroup>,
    slots: Seq<AdminProxyConfig>,
    number: nat,
    scope: ProxyScope,
    now_ms: i64,
    writes: Seq<MigrationWrite>,
    reused: Seq<usize>,
    failure: Option<ProxyError>,
)
    requires
        groups_in_range(accounts, groups),
        migrates(accounts, groups, slots, number, scope, now_ms, writes, reused, failure),
    ensures
        saves_in_range(writes, accounts),
    decreases groups.len(), 1nat,
{
    if groups.len() > 0 {
        match slot_for(slots, groups[0].proxy@) {
            Some(at) => lemma_saves_in_range(
                writes,
                accounts,
                groups,
                slots[at].id@,
                slots,
                number,
                scope,
                now_ms,
                reused.drop_first(),
                failure,
            ),
            None => if !no_free_id(slots, now_ms, number) && scope.can_edit_slot_metadata {
                let new = writes[0]->CreateSlot_0;
                let slot = choose|slot: AdminProxyConfig| #[trigger]
                    is_created_slot(slot, new, scope) && goes_on(
                        accounts,
                        groups,
                        new.id@,
                        slots.push(slot),
                        number,
                        scope,
                        now_ms,
                        writes.drop_first(),
                        reused,
                        failure,
                    );
                lemma_saves_in_range(
                    writes.drop_first(),
                    accounts,
                    groups,
                    new.id@,
                    slots.push(slot),
                    number,
                    scope,
                    now_ms,
                    reused,
                    failure,
                );
                assert forall|i: int| 0 <= i < writes.len() implies ((
                #[trigger] writes[i]) matches MigrationWrite::SaveAccount { account, .. }
                    ==> account < accounts.len()) by {
                    if i > 0 {
                        assert(writes[i] == writes.drop_first()[i - 1]);
                    }
                }
            },
        }
    }
}

/// The names of the accounts that are saved.
pub open spec fn saved_names(
    writes: Seq<MigrationWrite>,
    accounts: Seq<LegacyKiroAccount>,
) -> Seq<Seq<char>>
    decreases writes.len(),
{
    if writes.len() == 0 {
        Seq::empty()
    } else {
        match writes.last() {
            MigrationWrite::SaveAccount { account, .. } => saved_names(
                writes.drop_last(),
                accounts,
            ).push(accounts[account as int].account_name@),
            MigrationWrite::CreateSlot(_) => saved_names(writes.drop_last(), accounts),
        }
    }
}

/// `result` holds the given names in alphabetical order, each once.
pub open spec fn are_sorted_names(names: Seq<Seq<char>>, result: Seq<Seq<char>>) -> bool {
    &&& forall|a: int, b: int|
        0 <= a < b < result.len() ==> text_before(#[trigger] result[a], #[trigger] result[b])
    &&& forall|name: Seq<char>| #[trigger] result.contains(name) == names.contains(name)
}

// ---------------------------------------------------------------------------
// Names
// ---------------------------------------------------------------------------

/// The names in alphabetical order, each once.
pub fn sorted_names(names: &Vec<String>) -> (result: Vec<String>)
    ensures
        are_sorted_names(texts(names@), texts(result@)),
{
    let groups = group_texts(names);
    let ghost keys = text_keys(texts(names@));
    let mut result: Vec<String> = Vec::new();
    let mut g: usize = 0;
    while g < groups.len()
        invariant
            g <= groups.len(),
            result.len() == g,
            keys == text_keys(texts(names@)),
            is_grouping(groups@, keys),
            forall|k: int|
                0 <= k < g ==> (#[trigger] result@[k])@ == names@[groups@[k]@[0] as int]@
                    && groups@[k]@[0] < names.len(),
        decreases groups.len() - g,
    {
        assert(is_group(groups@[g as int], keys));
        result.push(names[groups[g][0]].clone());
        g += 1;
    }
    assert forall|a: int, b: int| 0 <= a < b < result@.len() implies text_before(
        (#[trigger] result@[a])@,
        (#[trigger] result@[b])@,
    ) by {
        assert(lex_less(
            crate::order::group_key(keys, groups@[a]),
            crate::order::group_key(keys, groups@[b]),
        ));
    }
    assert forall|i: int| 0 <= i < names@.len() implies texts(result@).contains(
        (#[trigger] names@[i])@,
    ) by {
        assert(has_group(groups@, keys, keys[i]));
        let at = choose|at: int|
            0 <= at < groups@.len() && crate::order::group_key(keys, #[trigger] groups@[at])
                == keys[i];
        let found = groups@[at]@[0] as int;
        assert(keys[found] == text_key(names@[found]@));
        assert(keys[i] == text_key(names@[i]@));
        lemma_text_order(names@[found]@, names@[i]@, names@[i]@);
        crate::order::lemma_lex_irreflexive(keys[i]);
        assert(texts(result@)[at] == names@[i]@);
    }
    assert forall|i: int| 0 <= i < result@.len() implies texts(names@).contains(
        (#[trigger] result@[i])@,
    ) by {
        assert(texts(names@)[groups@[i]@[0] as int] == result@[i]@);
    }
    assert forall|name: Seq<char>| #[trigger] texts(result@).contains(name) == texts(
        names@,
    ).contains(name) by {
        if texts(result@).contains(name) {
            let k = texts(result@).index_of(name);
            assert(texts(names@).contains(result@[k]@));
        }
        if texts(names@).contains(name) {
            let k = texts(names@).index_of(name);
            assert(texts(result@).contains(names@[k]@));
        }
    }
    assert forall|a: int, b: int| 0 <= a < b < texts(result@).len() implies text_before(
        #[trigger] texts(result@)[a],
        #[trigger] texts(result@)[b],
    ) by {
        assert(text_before(result@[a]@, result@[b]@));
    }
    result
}

fn names_of(writes: &Vec<MigrationWrite>, accounts: &Vec<LegacyKiroAccount>) -> (names: Vec<String>)
    requires
        saves_in_range(writes@, accounts@),
    ensures
        texts(names@) == saved_names(writes@, accounts@),
{
    let mut names: Vec<String> = Vec::new();
    let mut i: usize = 0;
    assert(writes@.take(0) =~= Seq::<MigrationWrite>::empty());
    assert(texts(names@) =~= Seq::<Seq<char>>::empty());
    while i < writes.len()
        invariant
            i <= writes.len(),
            saves_in_range(writes@, accounts@),
            texts(names@) == saved_names(writes@.take(i as int), accounts@),
        decreases writes.len() - i,
    {
        let ghost head = writes@.take(i + 1);
        assert(head.drop_last() =~= writes@.take(i as int));
        assert(head.last() == writes@[i as int]);
        if let MigrationWrite::SaveAccount { account, .. } = &writes[i] {
            let ghost before = texts(names@);
            names.push(accounts[*account].account_name.clone());
            assert(texts(names@) =~= before.push(accounts@[*account as int].account_name@));
        }
        i += 1;
    }
    assert(writes@.take(i as int) =~= writes@);
    names
}

/// Moves every proxy that stands inside credentials into a slot: one slot for each
/// proxy. `slots` are those that are there already.
pub fn import_legacy_kiro_proxy_configs(
    accounts: &Vec<LegacyKiroAccount>,
    slots: Vec<AdminProxyConfig>,
    scope: &ProxyScope,
    now_ms: i64,
) -> (migration: LegacyMigration)
    ensures
        if !all_readable(accounts@) {
            &&& migration.writes@.len() == 0
            &&& migration.reused@.len() == 0
            &&& migration.outcome matches Err(error) && error is MigrationAuthUnreadable
        } else {
            exists|groups: Seq<LegacyProxyGroup>| #[trigger]
                are_proxy_groups(accounts@, groups) && migrates(
                    accounts@,
                    groups,
                    slots@,
                    1,
                    *scope,
                    now_ms,
                    migration.writes@,
                    migration.reused@,
                    match migration.outcome {
                        Ok(_) => None,
                        Err(error) => Some(error),
                    },
                )
        },
        migration.outcome matches Ok(names) ==> are_sorted_names(
            saved_names(migration.writes@, accounts@),
            texts(names@),
        ),
{
    let groups = match legacy_proxy_groups(accounts) {
        Ok(groups) => groups,
        Err(error) => return LegacyMigration {
            writes: Vec::new(),
            reused: Vec::new(),
            outcome: Err(error),
        },
    };
    let ghost given = slots@;
    let mut slots = slots;
    let mut writes: Vec<MigrationWrite> = Vec::new();
    let mut reused: Vec<usize> = Vec::new();
    let failure = migrate_from(
        accounts,
        &groups,
        0,
        &mut slots,
        scope,
        now_ms,
        &mut writes,
        &mut reused,
    );
    assert(groups@.skip(0) =~= groups@);
    assert(writes@.skip(0) =~= writes@);
    assert(reused@.skip(0) =~= reused@);
    match failure {
        Some(error) => LegacyMigration { writes, reused, outcome: Err(error) },
        None => {
            proof {
                lemma_writes_in_range(
                    accounts@,
                    groups@,
                    given,
                    1,
                    *scope,
                    now_ms,
                    writes@,
                    reused@,
                    None,
                );
            }
            let names = sorted_names(&names_of(&writes, accounts));
            LegacyMigration { writes, reused, outcome: Ok(names) }
        },
    }
}

// ---------------------------------------------------------------------------
// Laws
// ---------------------------------------------------------------------------

pub open spec fn saves_account(write: MigrationWrite, at: usize) -> bool {
    write matches MigrationWrite::SaveAccount { account, .. } && account == at
}

/// Whether one of the writes saves an account.
pub open spec fn is_saved(writes: Seq<MigrationWrite>, at: usize) -> bool {
    exists|w: int| 0 <= w < writes.len() && saves_account(#[trigger] writes[w], at)
}

proof fn lemma_saved_count(
    accounts: Seq<LegacyKiroAccount>,
    list: Seq<usize>,
    slot_id: Seq<char>,
)
    ensures
        saved_count(accounts, list, slot_id) <= list.len(),
    decreases list.len(),
{
    if list.len() > 0 {
        lemma_saved_count(accounts, list.drop_first(), slot_id);
    }
}

proof fn lemma_rest_saved(
    accounts: Seq<LegacyKiroAccount>,
    groups: Seq<LegacyProxyGroup>,
    id: Seq<char>,
    slots: Seq<AdminProxyConfig>,
    number: nat,
    scope: ProxyScope,
    now_ms: i64,
    writes: Seq<MigrationWrite>,
    reused: Seq<usize>,
    g: int,
    k: int,
)
    requires
        0 <= g < groups.len(),
        0 <= k < groups[g].accounts@.len(),
        goes_on(accounts, groups, id, slots, number, scope, now_ms, writes, reused, None),
    ensures
        is_saved(writes, groups[g].accounts@[k]),
    decreases groups.len(), 0nat,
{
    let list = groups[0].accounts@;
    let saved = saved_count(accounts, list, id) as int;
    lemma_saved_count(accounts, list, id);
    if g == 0 {
        assert(is_save(writes.take(saved)[k], accounts, list[k], id));
        assert(saves_account(writes[k], list[k]));
    } else {
        let rest = writes.skip(saved);
        lemma_group_saved(
            accounts,
            groups.drop_first(),
            slots,
            number + 1,
            scope,
            now_ms,
            rest,
            reused,
            g - 1,
            k,
        );
        let at = groups[g].accounts@[k];
        let w = choose|w: int| 0 <= w < rest.len() && saves_account(#[trigger] rest[w], at);
        assert(saves_account(writes[saved + w], at));
    }
}

proof fn lemma_group_saved(
    accounts: Seq<LegacyKiroAccount>,
    groups: Seq<LegacyProxyGroup>,
    slots: Seq<AdminProxyConfig>,
    number: nat,
    scope: ProxyScope,
    now_ms: i64,
    writes: Seq<MigrationWrite>,
    reused: Seq<usize>,
    g: int,
    k: int,
)
    requires
        0 <= g < groups.len(),
        0 <= k < groups[g].accounts@.len(),
        migrates(accounts, groups, slots, number, scope, now_ms, writes, reused, None),
    ensures
        is_saved(writes, groups[g].accounts@[k]),
    decreases groups.len(), 1nat,
{
    match slot_for(slots, groups[0].proxy@) {
        Some(at) => lemma_rest_saved(
            accounts,
            groups,
            slots[at].id@,
            slots,
            number,
            scope,
            now_ms,
            writes,
            reused.drop_first(),
            g,
            k,
        ),
        None => {
            let new = writes[0]->CreateSlot_0;
            let slot = choose|slot: AdminProxyConfig| #[trigger]
                is_created_slot(slot, new, scope) && goes_on(
                    accounts,
                    groups,
                    new.id@,
                    slots.push(slot),
                    number,
                    scope,
                    now_ms,
                    writes.drop_first(),
                    reused,
                    None,
                );
            let rest = writes.drop_first();
            lemma_rest_saved(
                accounts,
                groups,
                new.id@,
                slots.push(slot),
                number,
                scope,
                now_ms,
                rest,
                reused,
                g,
                k,
            );
            let at = groups[g].accounts@[k];
            let w = choose|w: int| 0 <= w < rest.len() && saves_account(#[trigger] rest[w], at);
            assert(saves_account(writes[w + 1], at));
        },
    }
}

proof fn lemma_owner_position(accounts: Seq<LegacyKiroAccount>, i: int) -> (j: int)
    requires
        0 <= i < accounts.len() <= usize::MAX,
        account_proxy(accounts[i]) is Some,
    ensures
        0 <= j < owners(accounts).len(),
        owners(accounts)[j] == i,
    decreases accounts.len(),
{
    let head = accounts.drop_last();
    if i == accounts.len() - 1 {
        owners(head).len() as int
    } else {
        let j = lemma_owner_position(head, i);
        assert(owners(accounts)[j] == owners(head)[j]);
        j
    }
}

/// A migration that does not fail leaves no account behind: each one whose credentials
/// hold a proxy is saved.
pub proof fn law_every_proxy_moves(
    accounts: Seq<LegacyKiroAccount>,
    groups: Seq<LegacyProxyGroup>,
    slots: Seq<AdminProxyConfig>,
    scope: ProxyScope,
    now_ms: i64,
    writes: Seq<MigrationWrite>,
    reused: Seq<usize>,
    i: usize,
)
    requires
        i < accounts.len() <= usize::MAX,
        account_proxy(accounts[i as int]) is Some,
        are_proxy_groups(accounts, groups),
        migrates(accounts, groups, slots, 1, scope, now_ms, writes, reused, None),
    ensures
        is_saved(writes, i),
{
    let keys = owner_keys(accounts);
    lemma_owners(accounts);
    lemma_owner_count(accounts);
    let j = lemma_owner_position(accounts, i as int);
    let grouping = choose|grouping: Seq<Vec<usize>>| #[trigger]
        is_grouping(grouping, keys) && groups.len() == grouping.len() && forall|g: int|
            0 <= g < groups.len() ==> is_proxy_group(
                accounts,
                #[trigger] grouping[g],
                #[trigger] groups[g],
            );
    crate::order::law_each_position_in_one_group(grouping, keys, j);
    let g = choose|g: int|
        0 <= g < grouping.len() && (#[trigger] grouping[g])@.contains(j as usize);
    assert(is_proxy_group(accounts, grouping[g], groups[g]));
    let members = members_of(accounts, grouping[g]@);
    let m = grouping[g]@.index_of(j as usize);
    assert(members[m] == i);
    assert(m < grouping[g].len() <= usize::MAX);
    let order = choose|order: Seq<usize>| #[trigger]
        sorted_positions(lower_name_keys(accounts, members), order) && groups[g].accounts@
            == Seq::new(order.len(), |k: int| members[order[k] as int]);
    assert(order.contains(m as usize));
    let k = order.index_of(m as usize);
    assert(groups[g].accounts@[k] == i);
    lemma_group_saved(accounts, groups, slots, 1, scope, now_ms, writes, reused, g, k);
}

proof fn lemma_owner_count(accounts: Seq<LegacyKiroAccount>)
    ensures
        owners(accounts).len() <= accounts.len(),
    decreases accounts.len(),
{
    if accounts.len() > 0 {
        lemma_owner_count(accounts.drop_last());
    }
}

/// The proxy of an account as its credentials held it: under either spelling of the names,
/// without the space around the values; an account without an address has none.
pub proof fn law_where_an_old_proxy_stands(auth: JsonView, url: Seq<char>)
    ensures
        auth.get_str("proxyUrl"@) == Some(url) && trim(url).len() > 0 ==> (legacy_proxy(
            auth,
        ) matches Some(proxy) && proxy.proxy_url == trim(url)),
        auth.get("proxyUrl"@) is None && auth.get_str("proxy_url"@) == Some(url) && trim(url).len()
            > 0 ==> (legacy_proxy(auth) matches Some(proxy) && proxy.proxy_url == trim(url)),
        auth.get("proxyUrl"@) is None && auth.get("proxy_url"@) is None ==> legacy_proxy(
            auth,
        ) is None,
        auth.get_str("proxyUrl"@) == Some(url) && trim(url).len() == 0 ==> legacy_proxy(
            auth,
        ) is None,
        legacy_proxy(auth) matches Some(proxy) ==> (auth.get_str("proxyUsername"@) matches Some(
            name,
        ) ==> (trim(name).len() > 0 ==> proxy.proxy_username == Some(trim(name)))),
        legacy_proxy(auth) matches Some(proxy) ==> (auth.get_str("proxyPassword"@) matches Some(
            word,
        ) ==> (trim(word).len() > 0 ==> proxy.proxy_password == Some(trim(word)))),
        legacy_proxy(auth) matches Some(proxy) ==> (auth.get("proxyPassword"@) is None && auth.get(
            "proxy_password"@,
        ) is None ==> proxy.proxy_password is None),
{
    reveal_with_fuel(first_text, 3);
    let urls = seq!["proxyUrl"@, "proxy_url"@];
    let names = seq!["proxyUsername"@, "proxy_username"@];
    let words = seq!["proxyPassword"@, "proxy_password"@];
    assert(urls.drop_first() =~= seq!["proxy_url"@]);
    assert(urls.drop_first().drop_first() =~= Seq::<Seq<char>>::empty());
    assert(names.drop_first() =~= seq!["proxy_username"@]);
    assert(words.drop_first() =~= seq!["proxy_password"@]);
    assert(words.drop_first().drop_first() =~= Seq::<Seq<char>>::empty());
}

/// A slot that is reused holds the very proxy: its address, its name and its word; one is
/// found wherever there is one.
pub proof fn law_a_reused_slot_holds_the_proxy(slots: Seq<AdminProxyConfig>, proxy: LegacyProxyView)
    ensures
        slot_for(slots, proxy) matches Some(at) ==> 0 <= at < slots.len() && slots[at].proxy_url@
            == proxy.proxy_url && opt_text(slots[at].proxy_username) == proxy.proxy_username
            && opt_text(slots[at].proxy_password) == proxy.proxy_password,
        slot_for(slots, proxy) is None ==> forall|i: int|
            0 <= i < slots.len() ==> slot_proxy(#[trigger] slots[i]) != proxy,
    decreases slots.len(),
{
    if slots.len() > 0 {
        let head = slots.drop_last();
        law_a_reused_slot_holds_the_proxy(head, proxy);
        if slot_for(slots, proxy) is None {
            assert forall|i: int| 0 <= i < slots.len() implies slot_proxy(#[trigger] slots[i])
                != proxy by {
                if i < head.len() {
                    assert(head[i] == slots[i]);
                }
            }
        } else if slot_proxy(slots.last()) != proxy {
            let at = slot_for(slots, proxy)->0;
            assert(head[at] == slots[at]);
        }
    }
}

/// Every account whose credentials hold a proxy has it moved, and no other account.
pub proof fn law_the_owners_are_those_with_a_proxy(accounts: Seq<LegacyKiroAccount>, at: int)
    requires
        0 <= at < accounts.len() <= usize::MAX,
    ensures
        owners(accounts).contains(at as usize) <==> account_proxy(accounts[at]) is Some,
    decreases accounts.len(),
{
    let head = accounts.drop_last();
    let before = owners(head);
    let all = owners(accounts);
    let last = accounts.len() - 1;
    lemma_owners_are_positions(head);
    if at < last {
        assert(head[at] == accounts[at]);
        law_the_owners_are_those_with_a_proxy(head, at);
        if before.contains(at as usize) {
            let k = choose|k: int| 0 <= k < before.len() && before[k] == at as usize;
            assert(all[k] == at as usize);
        }
        if all.contains(at as usize) {
            let k = choose|k: int| 0 <= k < all.len() && all[k] == at as usize;
            if k < before.len() {
                assert(before[k] == at as usize);
            }
        }
    } else {
        if account_proxy(accounts[at]) is Some {
            assert(all[all.len() - 1] == at as usize);
        } else if all.contains(at as usize) {
            let k = choose|k: int| 0 <= k < all.len() && all[k] == at as usize;
            assert(before[k] < head.len());
        }
    }
}

proof fn lemma_owners_are_positions(accounts: Seq<LegacyKiroAccount>)
    requires
        accounts.len() <= usize::MAX,
    ensures
        forall|k: int| 0 <= k < owners(accounts).len() ==> (#[trigger] owners(accounts)[k])
            < accounts.len(),
    decreases accounts.len(),
{
    if accounts.len() > 0 {
        let head = accounts.drop_last();
        lemma_owners_are_positions(head);
        assert forall|k: int| 0 <= k < owners(accounts).len() implies (
        #[trigger] owners(accounts)[k]) < accounts.len() by {
            if k < owners(head).len() {
                assert(owners(accounts)[k] == owners(head)[k]);
            }
        }
    }
}

/// The accounts of each group have the proxy of the group.
pub open spec fn groups_share_their_proxy(
    accounts: Seq<LegacyKiroAccount>,
    groups: Seq<LegacyProxyGroup>,
) -> bool {
    forall|g: int, i: int|
        0 <= g < groups.len() && 0 <= i < groups[g].accounts@.len() ==> account_proxy(
            accounts[(#[trigger] groups[g].accounts@[i]) as int],
        ) == Some(groups[g].proxy@)
}

/// A slot with an id that was there, or that the first writes create, and that holds the
/// proxy.
pub open spec fn slot_stands(
    slots: Seq<AdminProxyConfig>,
    writes: Seq<MigrationWrite>,
    id: Seq<char>,
    proxy: LegacyProxyView,
) -> bool {
    ||| exists|i: int|
        0 <= i < slots.len() && (#[trigger] slots[i]).id@ == id && slot_proxy(slots[i]) == proxy
    ||| exists|w: int| 0 <= w < writes.len() && creates(#[trigger] writes[w], id, proxy)
}

pub open spec fn creates(write: MigrationWrite, id: Seq<char>, proxy: LegacyProxyView) -> bool {
    write matches MigrationWrite::CreateSlot(new) && new.id@ == id && new.proxy_url@
        == proxy.proxy_url && opt_text(new.proxy_username) == proxy.proxy_username && opt_text(
        new.proxy_password,
    ) == proxy.proxy_password
}

proof fn lemma_saves_stand(
    accounts: Seq<LegacyKiroAccount>,
    groups: Seq<LegacyProxyGroup>,
    id: Seq<char>,
    slots: Seq<AdminProxyConfig>,
    number: nat,
    scope: ProxyScope,
    now_ms: i64,
    writes: Seq<MigrationWrite>,
    reused: Seq<usize>,
    failure: Option<ProxyError>,
    k: int,
)
    requires
        groups.len() > 0,
        goes_on(
            accounts,
            groups,
            id,
            slots,
            number,
            scope,
            now_ms,
            writes,
            reused,
            failure,
        ),
        groups_share_their_proxy(accounts, groups),
        exists|i: int|
            0 <= i < slots.len() && (#[trigger] slots[i]).id@ == id && slot_proxy(slots[i])
                == groups[0].proxy@,
        0 <= k < writes.len(),
        writes[k] is SaveAccount,
    ensures
        writes[k] matches MigrationWrite::SaveAccount { account, slot_id, auth_json } && (
        account_proxy(accounts[account as int]) matches Some(proxy) && slot_stands(
            slots,
            writes.take(k),
            slot_id@,
            proxy,
        )),
    decreases groups.len(), 0nat,
{
    let list = groups[0].accounts@;
    let saved = saved_count(accounts, list, id) as int;
    if k < saved {
        assert(writes.take(saved)[k] == writes[k]);
        assert(is_save(writes.take(saved)[k], accounts, list[k], id));
        assert(account_proxy(accounts[groups[0].accounts@[k] as int]) == Some(groups[0].proxy@));
    } else {
        let rest = groups.drop_first();
        let later = writes.skip(saved);
        assert forall|g: int, i: int|
            0 <= g < rest.len() && 0 <= i < rest[g].accounts@.len() implies account_proxy(
            accounts[(#[trigger] rest[g].accounts@[i]) as int],
        ) == Some(rest[g].proxy@) by {
            assert(rest[g] == groups[g + 1]);
            assert(account_proxy(accounts[groups[g + 1].accounts@[i] as int]) == Some(
                groups[g + 1].proxy@,
            ));
        }
        assert(later[k - saved] == writes[k]);
        law_moved_accounts_keep_their_proxy(
            accounts,
            rest,
            slots,
            number + 1,
            scope,
            now_ms,
            later,
            reused,
            failure,
            k - saved,
        );
        if let MigrationWrite::SaveAccount { account, slot_id, auth_json } = writes[k] {
            let proxy = account_proxy(accounts[account as int])->0;
            let part = later.take(k - saved);
            if exists|w: int| 0 <= w < part.len() && creates(#[trigger] part[w], slot_id@, proxy) {
                let w = choose|w: int|
                    0 <= w < part.len() && creates(#[trigger] part[w], slot_id@, proxy);
                assert(writes.take(k)[w + saved] == part[w]);
            }
        }
    }
}

/// An account that is moved is bound to a slot that holds the very proxy that its
/// credentials held: one that was there, or one that was created before.
pub proof fn law_moved_accounts_keep_their_proxy(
    accounts: Seq<LegacyKiroAccount>,
    groups: Seq<LegacyProxyGroup>,
    slots: Seq<AdminProxyConfig>,
    number: nat,
    scope: ProxyScope,
    now_ms: i64,
    writes: Seq<MigrationWrite>,
    reused: Seq<usize>,
    failure: Option<ProxyError>,
    k: int,
)
    requires
        migrates(accounts, groups, slots, number, scope, now_ms, writes, reused, failure),
        groups_share_their_proxy(accounts, groups),
        0 <= k < writes.len(),
        writes[k] is SaveAccount,
    ensures
        writes[k] matches MigrationWrite::SaveAccount { account, slot_id, auth_json } && (
        account_proxy(accounts[account as int]) matches Some(proxy) && slot_stands(
            slots,
            writes.take(k),
            slot_id@,
            proxy,
        )),
    decreases groups.len(), 1nat,
{
    law_a_reused_slot_holds_the_proxy(slots, groups[0].proxy@);
    match slot_for(slots, groups[0].proxy@) {
        Some(at) => {
            assert(slots[at].id@ == slots[at].id@ && slot_proxy(slots[at]) == groups[0].proxy@);
            lemma_saves_stand(
                accounts,
                groups,
                slots[at].id@,
                slots,
                number,
                scope,
                now_ms,
                writes,
                reused.drop_first(),
                failure,
                k,
            );
        },
        None => {
            if let MigrationWrite::CreateSlot(new) = writes[0] {
                let slot = choose|slot: AdminProxyConfig| #[trigger]
                    is_created_slot(slot, new, scope) && goes_on(
                        accounts,
                        groups,
                        new.id@,
                        slots.push(slot),
                        number,
                        scope,
                        now_ms,
                        writes.drop_first(),
                        reused,
                        failure,
                    );
                let more = slots.push(slot);
                let later = writes.drop_first();
                assert(more[slots.len() as int] == slot);
                assert(slot_proxy(slot) == groups[0].proxy@);
                assert(later[k - 1] == writes[k]);
                lemma_saves_stand(
                    accounts,
                    groups,
                    new.id@,
                    more,
                    number,
                    scope,
                    now_ms,
                    later,
                    reused,
                    failure,
                    k - 1,
                );
                if let MigrationWrite::SaveAccount { account, slot_id, auth_json } = writes[k] {
                    let proxy = account_proxy(accounts[account as int])->0;
                    let part = later.take(k - 1);
                    let all = writes.take(k);
                    if exists|i: int|
                        0 <= i < more.len() && (#[trigger] more[i]).id@ == slot_id@ && slot_proxy(
                            more[i],
                        ) == proxy {
                        let i = choose|i: int|
                            0 <= i < more.len() && (#[trigger] more[i]).id@ == slot_id@
                                && slot_proxy(more[i]) == proxy;
                        if i < slots.len() {
                            assert(slots[i] == more[i]);
                        } else {
                            assert(creates(all[0], slot_id@, proxy));
                        }
                    } else {
                        let w = choose|w: int|
                            0 <= w < part.len() && creates(#[trigger] part[w], slot_id@, proxy);
                        assert(all[w + 1] == part[w]);
                    }
                }
            }
        },
    }
}

/// A new slot has a name and an id that no slot in use has, and carries the proxy.
pub proof fn law_a_new_slot_takes_a_free_id(
    new: NewAdminProxyConfig,
    proxy: LegacyProxy,
    number: nat,
    slots: Seq<AdminProxyConfig>,
    now_ms: i64,
)
    requires
        is_new_slot(new, proxy, number, slots, now_ms),
    ensures
        !id_taken(slots, new.id@),
        new.proxy_url == proxy.proxy_url,
        new.proxy_username == proxy.proxy_username,
        new.proxy_password == proxy.proxy_password,
        new.created_at_ms == now_ms,
        new.name@ == "legacy-kiro-"@ + decimal(number),
{
}

/// Accounts are saved from the first on, up to the first whose credentials cannot be written.
pub proof fn law_saving_stops_at_the_first_failure(
    accounts: Seq<LegacyKiroAccount>,
    list: Seq<usize>,
    slot_id: Seq<char>,
)
    ensures
        ({
            let saved = saved_count(accounts, list, slot_id);
            &&& saved <= list.len()
            &&& forall|i: int|
                0 <= i < saved ==> cleared_text(
                    accounts[#[trigger] list[i] as int].auth_json@,
                    slot_id,
                ) is Some
            &&& saved < list.len() ==> cleared_text(
                accounts[list[saved as int] as int].auth_json@,
                slot_id,
            ) is None
        }),
    decreases list.len(),
{
    if list.len() > 0 && cleared_text(accounts[list[0] as int].auth_json@, slot_id) is Some {
        let rest = list.drop_first();
        law_saving_stops_at_the_first_failure(accounts, rest, slot_id);
        let saved = saved_count(accounts, list, slot_id);
        assert forall|i: int| 0 <= i < saved implies cleared_text(
            accounts[#[trigger] list[i] as int].auth_json@,
            slot_id,
        ) is Some by {
            if i > 0 {
                assert(rest[i - 1] == list[i]);
            }
        }
        if saved < list.len() {
            assert(rest[saved - 1] == list[saved as int]);
        }
    }
}

} // verus!
