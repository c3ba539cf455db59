//! Sorting by lexicographic keys.

use vstd::prelude::*;
use crate::text::{chars_of, texts};

verus! {

/// `a` comes before `b`: they first differ where `a` is smaller, or `a` ends there.
pub open spec fn lex_less(a: Seq<i128>, b: Seq<i128>) -> bool
    decreases a.len(),
{
    if b.len() == 0 {
        false
    } else if a.len() == 0 {
        true
    } else if a[0] != b[0] {
        a[0] < b[0]
    } else {
        lex_less(a.drop_first(), b.drop_first())
    }
}

pub proof fn lemma_lex_irreflexive(a: Seq<i128>)
    ensures
        !lex_less(a, a),
    decreases a.len(),
{
    if a.len() > 0 {
        lemma_lex_irreflexive(a.drop_first());
    }
}

pub proof fn lemma_lex_total(a: Seq<i128>, b: Seq<i128>)
    ensures
        lex_less(a, b) || lex_less(b, a) || a == b,
    decreases a.len(),
{
    if a.len() == 0 || b.len() == 0 {
        if a.len() == 0 && b.len() == 0 {
            assert(a =~= b);
        }
    } else if a[0] == b[0] {
        lemma_lex_total(a.drop_first(), b.drop_first());
        if a.drop_first() == b.drop_first() {
            assert(a =~= seq![a[0]] + a.drop_first());
            assert(b =~= seq![b[0]] + b.drop_first());
        }
    }
}

pub proof fn lemma_lex_transitive(a: Seq<i128>, b: Seq<i128>, c: Seq<i128>)
    requires
        lex_less(a, b),
        lex_less(b, c),
    ensures
        lex_less(a, c),
    decreases a.len(),
{
    if a.len() > 0 && b.len() > 0 && c.len() > 0 && a[0] == b[0] && b[0] == c[0] {
        lemma_lex_transitive(a.drop_first(), b.drop_first(), c.drop_first());
    }
}

/// Keys that agree at first are ordered by what follows.
pub proof fn lemma_lex_after(a: Seq<i128>, b: Seq<i128>, n: int)
    requires
        0 <= n <= a.len(),
        n <= b.len(),
        forall|k: int| 0 <= k < n ==> a[k] == b[k],
        lex_less(a.skip(n), b.skip(n)),
    ensures
        lex_less(a, b),
    decreases n,
{
    if n == 0 {
        assert(a.skip(0) =~= a);
        assert(b.skip(0) =~= b);
    } else {
        assert(a[0] == b[0]);
        assert(a.drop_first().skip(n - 1) =~= a.skip(n));
        assert(b.drop_first().skip(n - 1) =~= b.skip(n));
        assert forall|k: int| 0 <= k < n - 1 implies a.drop_first()[k] == b.drop_first()[k] by {
            assert(a[k + 1] == b[k + 1]);
        }
        lemma_lex_after(a.drop_first(), b.drop_first(), n - 1);
    }
}

/// The position whose key is smaller stands earlier.
pub proof fn lemma_smaller_key_stands_earlier(
    keys: Seq<Seq<i128>>,
    order: Seq<usize>,
    i: int,
    j: int,
)
    requires
        sorted_positions(keys, order),
        0 <= i < order.len(),
        0 <= j < order.len(),
        lex_less(keys[order[i] as int], keys[order[j] as int]),
    ensures
        i < j,
{
    let a = keys[order[i] as int];
    let b = keys[order[j] as int];
    lemma_lex_irreflexive(a);
    if j < i {
        assert(in_order(keys, order[j], order[i]));
        if lex_less(b, a) {
            lemma_lex_transitive(a, b, a);
        }
    }
}

pub fn key_less(a: &Vec<i128>, b: &Vec<i128>) -> (result: bool)
    ensures
        result == lex_less(a@, b@),
{
    let mut i: usize = 0;
    assert(a@.skip(0) =~= a@);
    assert(b@.skip(0) =~= b@);
    while i < a.len() && i < b.len()
        invariant
            i <= a.len(),
            i <= b.len(),
            lex_less(a@, b@) == lex_less(a@.skip(i as int), b@.skip(i as int)),
        decreases a.len() - i,
    {
        if a[i] != b[i] {
            return a[i] < b[i];
        }
        assert(a@.skip(i as int).drop_first() =~= a@.skip(i as int + 1));
        assert(b@.skip(i as int).drop_first() =~= b@.skip(i as int + 1));
        i += 1;
    }
    i < b.len()
}

/// The characters of a text as numbers.
pub open spec fn text_key(text: Seq<char>) -> Seq<i128> {
    text.map_values(|c: char| c as u32 as i128)
}

/// `a` comes before `b` in the alphabetical order of their characters.
pub open spec fn text_before(a: Seq<char>, b: Seq<char>) -> bool {
    lex_less(text_key(a), text_key(b))
}

pub fn key_of_text(text: &str) -> (key: Vec<i128>)
    ensures
        key@ == text_key(text@),
{
    let chars = chars_of(text);
    let mut key: Vec<i128> = Vec::new();
    let mut i: usize = 0;
    while i < chars.len()
        invariant
            i <= chars.len(),
            key.len() == i,
            forall|k: int| 0 <= k < i ==> #[trigger] key@[k] == chars@[k] as u32 as i128,
        decreases chars.len() - i,
    {
        key.push(chars[i] as u32 as i128);
        i += 1;
    }
    assert(key@ =~= text_key(text@));
    key
}

pub fn text_less(a: &str, b: &str) -> (result: bool)
    ensures
        result == text_before(a@, b@),
{
    key_less(&key_of_text(a), &key_of_text(b))
}

proof fn lemma_char_code(a: char, b: char)
    requires
        a as u32 as i128 == b as u32 as i128,
    ensures
        a == b,
{
}

pub proof fn lemma_text_order(a: Seq<char>, b: Seq<char>, c: Seq<char>)
    ensures
        !text_before(a, a),
        text_before(a, b) || text_before(b, a) || a == b,
        text_before(a, b) && text_before(b, c) ==> text_before(a, c),
{
    lemma_lex_irreflexive(text_key(a));
    lemma_lex_total(text_key(a), text_key(b));
    if text_key(a) == text_key(b) {
        assert(a.len() == text_key(a).len());
        assert forall|i: int| 0 <= i < a.len() implies a[i] == b[i] by {
            assert(text_key(a)[i] == a[i] as u32 as i128);
            assert(text_key(b)[i] == b[i] as u32 as i128);
            lemma_char_code(a[i], b[i]);
        }
        assert(a =~= b);
    }
    if text_before(a, b) && text_before(b, c) {
        lemma_lex_transitive(text_key(a), text_key(b), text_key(c));
    }
}

/// `a` stands before `b` in the sorted order: by key, then by position.
pub open spec fn in_order(keys: Seq<Seq<i128>>, a: usize, b: usize) -> bool {
    lex_less(keys[a as int], keys[b as int]) || (keys[a as int] == keys[b as int] && a < b)
}

pub open spec fn key_views(keys: Seq<Vec<i128>>) -> Seq<Seq<i128>> {
    keys.map_values(|key: Vec<i128>| key@)
}

proof fn lemma_in_order_transitive(keys: Seq<Seq<i128>>, a: usize, b: usize, c: usize)
    requires
        in_order(keys, a, b),
        in_order(keys, b, c),
    ensures
        in_order(keys, a, c),
{
    let x = keys[a as int];
    let y = keys[b as int];
    let z = keys[c as int];
    if lex_less(x, y) && lex_less(y, z) {
        lemma_lex_transitive(x, y, z);
    }
}

/// Every position of `keys` once, in sorted order.
pub open spec fn sorted_positions(keys: Seq<Seq<i128>>, order: Seq<usize>) -> bool {
    &&& order.len() == keys.len()
    &&& forall|i: int| 0 <= i < order.len() ==> (#[trigger] order[i]) < keys.len()
    &&& forall|i: int, j: int|
        0 <= i < j < order.len() ==> in_order(keys, #[trigger] order[i], #[trigger] order[j])
    &&& forall|p: usize| p < keys.len() ==> #[trigger] order.contains(p)
}

/// The positions of `keys` in ascending order of their keys; equal keys keep their
/// order.
pub fn sort_positions(keys: &Vec<Vec<i128>>) -> (order: Vec<usize>)
    ensures
        sorted_positions(key_views(keys@), order@),
{
    let ghost views = key_views(keys@);
    let mut order: Vec<usize> = Vec::new();
    let mut m: usize = 0;
    while m < keys.len()
        invariant
            m <= keys.len(),
            views == key_views(keys@),
            order.len() == m,
            forall|i: int| 0 <= i < order.len() ==> (#[trigger] order@[i]) < m,
            forall|i: int, j: int|
                0 <= i < j < order.len() ==> in_order(
                    views,
                    #[trigger] order@[i],
                    #[trigger] order@[j],
                ),
            forall|p: usize| p < m ==> #[trigger] order@.contains(p),
        decreases keys.len() - m,
    {
        let mut at: usize = order.len();
        while at > 0 && key_less(&keys[m], &keys[order[at - 1]])
            invariant
                at <= order.len(),
                m < keys.len(),
                views == key_views(keys@),
                order.len() == m,
                forall|i: int| 0 <= i < order.len() ==> (#[trigger] order@[i]) < m,
                forall|i: int|
                    at <= i < order.len() ==> lex_less(
                        views[m as int],
                        views[(#[trigger] order@[i]) as int],
                    ),
            decreases at,
        {
            at -= 1;
        }
        proof {
            if at > 0 {
                let e = order@[at - 1];
                lemma_lex_total(views[m as int], views[e as int]);
                assert(in_order(views, e, m));
                assert forall|i: int| 0 <= i < at implies in_order(
                    views,
                    #[trigger] order@[i],
                    m,
                ) by {
                    if i < at - 1 {
                        lemma_in_order_transitive(views, order@[i], e, m);
                    }
                }
            }
        }
        let ghost before = order@;
        order.insert(at, m);
        assert(order@ == before.insert(at as int, m));
        assert forall|i: int, j: int| 0 <= i < j < order.len() implies in_order(
            views,
            #[trigger] order@[i],
            #[trigger] order@[j],
        ) by {
            let x = if i < at {
                i
            } else {
                i - 1
            };
            let y = if j < at {
                j
            } else {
                j - 1
            };
            if i == at {
                assert(order@[j] == before[y]);
            } else if j == at {
                assert(order@[i] == before[x]);
            } else {
                assert(order@[i] == before[x]);
                assert(order@[j] == before[y]);
            }
        }
        assert forall|p: usize| p < m + 1 implies #[trigger] order@.contains(p) by {
            if p == m {
                assert(order@[at as int] == m);
            } else {
                assert(before.contains(p));
                let k = choose|k: int| 0 <= k < before.len() && before[k] == p;
                if k < at {
                    assert(order@[k] == p);
                } else {
                    assert(order@[k + 1] == p);
                }
            }
        }
        m += 1;
    }
    order
}

// ---------------------------------------------------------------------------
// Grouping
// ---------------------------------------------------------------------------

/// The positions at which `key` stands in `keys`.
pub open spec fn positions_of(keys: Seq<Seq<i128>>, key: Seq<i128>) -> Seq<usize>
    decreases keys.len(),
{
    if keys.len() == 0 {
        Seq::empty()
    } else {
        let before = positions_of(keys.drop_last(), key);
        if keys.last() == key {
            before.push((keys.len() - 1) as usize)
        } else {
            before
        }
    }
}

/// The key of a group: that of its first position.
pub open spec fn group_key(keys: Seq<Seq<i128>>, group: Vec<usize>) -> Seq<i128> {
    keys[group@[0] as int]
}

/// A group holds all positions of its key, and at least one.
pub open spec fn is_group(group: Vec<usize>, keys: Seq<Seq<i128>>) -> bool {
    &&& group@.len() > 0
    &&& group@[0] < keys.len()
    &&& group@ == positions_of(keys, group_key(keys, group))
}

pub open spec fn has_group(groups: Seq<Vec<usize>>, keys: Seq<Seq<i128>>, key: Seq<i128>) -> bool {
    exists|g: int| 0 <= g < groups.len() && group_key(keys, #[trigger] groups[g]) == key
}

/// One group for each key, in ascending order of the keys.
pub open spec fn is_grouping(groups: Seq<Vec<usize>>, keys: Seq<Seq<i128>>) -> bool {
    &&& forall|g: int| 0 <= g < groups.len() ==> is_group(#[trigger] groups[g], keys)
    &&& forall|a: int, b: int|
        0 <= a < b < groups.len() ==> lex_less(
            group_key(keys, #[trigger] groups[a]),
            group_key(keys, #[trigger] groups[b]),
        )
    &&& forall|i: int| 0 <= i < keys.len() ==> has_group(groups, keys, #[trigger] keys[i])
}

proof fn lemma_positions_in_range(keys: Seq<Seq<i128>>, key: Seq<i128>)
    requires
        keys.len() <= usize::MAX,
    ensures
        forall|at: int|
            0 <= at < positions_of(keys, key).len() ==> (#[trigger] positions_of(keys, key)[at])
                < keys.len() && keys[positions_of(keys, key)[at] as int] == key,
    decreases keys.len(),
{
    if keys.len() > 0 {
        let head = keys.drop_last();
        let before = positions_of(head, key);
        lemma_positions_in_range(head, key);
        assert forall|at: int| 0 <= at < positions_of(keys, key).len() implies (
        #[trigger] positions_of(keys, key)[at]) < keys.len() && keys[positions_of(
            keys,
            key,
        )[at] as int] == key by {
            if at < before.len() {
                assert(positions_of(keys, key)[at] == before[at]);
                assert(head[before[at] as int] == keys[before[at] as int]);
            }
        }
    }
}

pub proof fn lemma_group_in_range(group: Vec<usize>, keys: Seq<Seq<i128>>)
    requires
        is_group(group, keys),
        keys.len() <= usize::MAX,
    ensures
        forall|i: int| 0 <= i < group@.len() ==> (#[trigger] group@[i]) < keys.len(),
{
    lemma_positions_in_range(keys, group_key(keys, group));
}

proof fn lemma_no_group_no_positions(
    groups: Seq<Vec<usize>>,
    all: Seq<Seq<i128>>,
    keys: Seq<Seq<i128>>,
    key: Seq<i128>,
)
    requires
        forall|i: int| 0 <= i < keys.len() ==> has_group(groups, all, #[trigger] keys[i]),
        !has_group(groups, all, key),
    ensures
        positions_of(keys, key).len() == 0,
    decreases keys.len(),
{
    if keys.len() > 0 {
        let head = keys.drop_last();
        assert forall|i: int| 0 <= i < head.len() implies has_group(
            groups,
            all,
            #[trigger] head[i],
        ) by {
            assert(head[i] == keys[i]);
        }
        lemma_no_group_no_positions(groups, all, head, key);
        assert(has_group(groups, all, keys[keys.len() - 1]));
    }
}

/// Groups the positions of `keys` by key.
pub fn group_positions(keys: &Vec<Vec<i128>>) -> (groups: Vec<Vec<usize>>)
    ensures
        is_grouping(groups@, key_views(keys@)),
{
    let mut groups: Vec<Vec<usize>> = Vec::new();
    let mut i: usize = 0;
    let ghost all = key_views(keys@);
    while i < keys.len()
        invariant
            i <= keys.len(),
            all == key_views(keys@),
            is_grouping(groups@, all.take(i as int)),
        decreases keys.len() - i,
    {
        let key = &keys[i];
        let ghost seen = all.take(i as int);
        let ghost next = all.take(i + 1);
        assert(next.drop_last() =~= seen);
        assert(next.last() == key@);
        let mut g: usize = 0;
        while g < groups.len() && key_less(&keys[groups[g][0]], key)
            invariant
                g <= groups.len(),
                i <= keys.len(),
                all == key_views(keys@),
                seen == all.take(i as int),
                is_grouping(groups@, seen),
                forall|k: int|
                    0 <= k < g ==> lex_less(group_key(seen, #[trigger] groups@[k]), key@),
            decreases groups.len() - g,
        {
            assert(is_group(groups@[g as int], seen));
            g += 1;
        }
        let ghost before = groups@;
        proof {
            if g < before.len() {
                assert(is_group(before[g as int], seen));
            }
            lemma_lex_irreflexive(key@);
        }
        let found = g < groups.len() && !key_less(key, &keys[groups[g][0]]) && !key_less(
            &keys[groups[g][0]],
            key,
        );
        if found {
            let ghost same = group_key(seen, before[g as int]);
            proof {
                lemma_lex_total(same, key@);
            }
            let mut group = groups.remove(g);
            group.push(i);
            groups.insert(g, group);
            assert forall|k: int| 0 <= k < before.len() && k != g implies groups@[k]
                == before[k] by {}
            assert(group@ == before[g as int]@.push(i));
            assert forall|k: int| 0 <= k < groups@.len() implies is_group(
                #[trigger] groups@[k],
                next,
            ) && group_key(next, groups@[k]) == group_key(seen, before[k]) by {
                assert(is_group(before[k], seen));
                if k != g {
                    if k < g {
                        assert(lex_less(group_key(seen, before[k]), same));
                    } else {
                        assert(lex_less(same, group_key(seen, before[k])));
                    }
                }
            }
            assert forall|a: int, b: int| 0 <= a < b < groups@.len() implies lex_less(
                group_key(next, #[trigger] groups@[a]),
                group_key(next, #[trigger] groups@[b]),
            ) by {
                assert(lex_less(group_key(seen, before[a]), group_key(seen, before[b])));
            }
            assert forall|k: int| 0 <= k < next.len() implies has_group(
                groups@,
                next,
                #[trigger] next[k],
            ) by {
                if k < i {
                    assert(has_group(before, seen, seen[k]));
                    let at = choose|at: int|
                        0 <= at < before.len() && group_key(seen, #[trigger] before[at]) == seen[k];
                    assert(group_key(next, groups@[at]) == seen[k]);
                } else {
                    assert(group_key(next, groups@[g as int]) == key@);
                }
            }
        } else {
            proof {
                if has_group(before, seen, key@) {
                    let k = choose|k: int|
                        0 <= k < before.len() && group_key(seen, #[trigger] before[k]) == key@;
                    if k > g {
                        assert(lex_less(
                            group_key(seen, before[g as int]),
                            group_key(seen, before[k]),
                        ));
                    }
                    assert(false);
                }
                assert forall|k: int| 0 <= k < seen.len() implies has_group(
                    before,
                    seen,
                    #[trigger] seen[k],
                ) by {}
                lemma_no_group_no_positions(before, seen, seen, key@);
            }
            let mut group: Vec<usize> = Vec::new();
            group.push(i);
            groups.insert(g, group);
            assert(positions_of(next, key@) =~= group@);
            assert forall|k: int| 0 <= k < groups@.len() implies is_group(
                #[trigger] groups@[k],
                next,
            ) && group_key(next, groups@[k]) == if k < g {
                group_key(seen, before[k])
            } else if k == g {
                key@
            } else {
                group_key(seen, before[k - 1])
            } by {
                if k != g {
                    let j = if k < g {
                        k
                    } else {
                        k - 1
                    };
                    assert(groups@[k] == before[j]);
                    assert(is_group(before[j], seen));
                    assert(has_group(before, seen, group_key(seen, before[j])));
                }
            }
            assert forall|a: int, b: int| 0 <= a < b < groups@.len() implies lex_less(
                group_key(next, #[trigger] groups@[a]),
                group_key(next, #[trigger] groups@[b]),
            ) by {
                let low = if a < g {
                    a
                } else {
                    a - 1
                };
                let high = if b < g {
                    b
                } else {
                    b - 1
                };
                if a == g {
                    let first = group_key(seen, before[g as int]);
                    lemma_lex_total(first, key@);
                    if first == key@ {
                        assert(has_group(before, seen, key@));
                    }
                    if high > g {
                        assert(lex_less(first, group_key(seen, before[high])));
                        lemma_lex_transitive(key@, first, group_key(seen, before[high]));
                    }
                } else if b != g {
                    assert(lex_less(group_key(seen, before[low]), group_key(seen, before[high])));
                }
            }
            assert forall|k: int| 0 <= k < next.len() implies has_group(
                groups@,
                next,
                #[trigger] next[k],
            ) by {
                if k < i {
                    assert(has_group(before, seen, seen[k]));
                    let at = choose|at: int|
                        0 <= at < before.len() && group_key(seen, #[trigger] before[at]) == seen[k];
                    let now = if at < g {
                        at
                    } else {
                        at + 1
                    };
                    assert(group_key(next, groups@[now]) == seen[k]);
                } else {
                    assert(group_key(next, groups@[g as int]) == key@);
                }
            }
        }
        i += 1;
    }
    assert(all.take(i as int) =~= all);
    groups
}

pub open spec fn text_keys(list: Seq<Seq<char>>) -> Seq<Seq<i128>> {
    Seq::new(list.len(), |i: int| text_key(list[i]))
}

/// Groups the positions of equal texts, in alphabetical order.
pub fn group_texts(list: &Vec<String>) -> (groups: Vec<Vec<usize>>)
    ensures
        is_grouping(groups@, text_keys(texts(list@))),
{
    let mut keys: Vec<Vec<i128>> = Vec::new();
    let mut i: usize = 0;
    while i < list.len()
        invariant
            i <= list.len(),
            keys.len() == i,
            forall|k: int| 0 <= k < i ==> (#[trigger] keys@[k])@ == text_key(list@[k]@),
        decreases list.len() - i,
    {
        keys.push(key_of_text(list[i].as_str()));
        i += 1;
    }
    assert(key_views(keys@) =~= text_keys(texts(list@)));
    group_positions(&keys)
}

proof fn lemma_position(keys: Seq<Seq<i128>>, key: Seq<i128>, i: int)
    requires
        0 <= i < keys.len() <= usize::MAX,
        keys[i] == key,
    ensures
        positions_of(keys, key).contains(i as usize),
    decreases keys.len(),
{
    let head = keys.drop_last();
    let before = positions_of(head, key);
    let all = positions_of(keys, key);
    if i < head.len() {
        lemma_position(head, key, i);
        let at = choose|at: int| 0 <= at < before.len() && before[at] == i as usize;
        assert(all[at] == i as usize);
    } else {
        assert(all[before.len() as int] == i as usize);
    }
}

/// Grouping loses nothing and counts nothing twice: each position stands in one group and
/// in no other.
pub proof fn law_each_position_in_one_group(groups: Seq<Vec<usize>>, keys: Seq<Seq<i128>>, i: int)
    requires
        is_grouping(groups, keys),
        0 <= i < keys.len() <= usize::MAX,
    ensures
        exists|g: int| 0 <= g < groups.len() && (#[trigger] groups[g])@.contains(i as usize),
        forall|a: int, b: int|
            0 <= a < groups.len() && 0 <= b < groups.len() && (#[trigger] groups[a])@.contains(
                i as usize,
            ) && (#[trigger] groups[b])@.contains(i as usize) ==> a == b,
{
    assert(has_group(groups, keys, keys[i]));
    let g = choose|g: int|
        0 <= g < groups.len() && group_key(keys, #[trigger] groups[g]) == keys[i];
    assert(is_group(groups[g], keys));
    lemma_position(keys, keys[i], i);
    assert forall|a: int, b: int|
        0 <= a < groups.len() && 0 <= b < groups.len() && (#[trigger] groups[a])@.contains(
            i as usize,
        ) && (#[trigger] groups[b])@.contains(i as usize) implies a == b by {
        assert(is_group(groups[a], keys));
        assert(is_group(groups[b], keys));
        lemma_positions_in_range(keys, group_key(keys, groups[a]));
        lemma_positions_in_range(keys, group_key(keys, groups[b]));
        lemma_lex_irreflexive(keys[i]);
        if a < b {
            assert(lex_less(group_key(keys, groups[a]), group_key(keys, groups[b])));
        } else if b < a {
            assert(lex_less(group_key(keys, groups[b]), group_key(keys, groups[a])));
        }
    }
}

/// The alphabetical order: of two texts that agree up to some place, the one that ends
/// there, or whose character there is smaller, comes before the other, and the other does
/// not come before it.
pub proof fn law_text_order_is_alphabetical(a: Seq<char>, b: Seq<char>, n: int)
    requires
        0 <= n <= a.len(),
        n < b.len(),
        forall|k: int| 0 <= k < n ==> a[k] == b[k],
        n == a.len() || (a[n] as u32) < (b[n] as u32),
    ensures
        text_before(a, b),
        !text_before(b, a),
{
    let x = text_key(a);
    let y = text_key(b);
    assert forall|k: int| 0 <= k < n implies x[k] == y[k] by {
        assert(a[k] == b[k]);
    }
    assert(lex_less(x.skip(n), y.skip(n)));
    lemma_lex_after(x, y, n);
    lemma_text_order(a, b, a);
}

} // verus!
