//! File paths as text: their components, and which path lies under which.

use vstd::prelude::*;
use crate::text::{chars_of, lemma_texts_push, same_text, split, split_chars, texts};

verus! {

/// Whether a piece between two slashes is a component: not where two slashes meet, and not
/// the present directory.
pub open spec fn counts(piece: Seq<char>) -> bool {
    piece.len() > 0 && piece != seq!['.']
}

pub open spec fn counted(pieces: Seq<Seq<char>>) -> Seq<Seq<char>>
    decreases pieces.len(),
{
    if pieces.len() == 0 {
        Seq::empty()
    } else if counts(pieces.last()) {
        counted(pieces.drop_last()).push(pieces.last())
    } else {
        counted(pieces.drop_last())
    }
}

/// What a path starts with: the root, the present directory where the path names it
/// first, or nothing.
pub open spec fn anchor(path: Seq<char>) -> Seq<Seq<char>> {
    if path.len() > 0 && path[0] == '/' {
        seq![seq!['/']]
    } else if path.len() > 0 && path[0] == '.' && (path.len() == 1 || path[1] == '/') {
        seq![seq!['.']]
    } else {
        Seq::empty()
    }
}

/// The components of a path.
pub open spec fn components(path: Seq<char>) -> Seq<Seq<char>> {
    anchor(path) + counted(split(path, '/'))
}

/// Whether the components of `root` are the first ones of `path`.
pub open spec fn is_under(root: Seq<char>, path: Seq<char>) -> bool {
    components(root).is_prefix_of(components(path))
}

/// `rest` inside `root`.
pub open spec fn inside(root: Seq<char>, rest: Seq<char>) -> Seq<char> {
    if root.len() == 0 || root.last() == '/' {
        root + rest
    } else {
        root + seq!['/'] + rest
    }
}

fn components_of(path: &str) -> (result: Vec<String>)
    ensures
        texts(result@) == components(path@),
{
    let chars = chars_of(path);
    let mut result: Vec<String> = Vec::new();
    proof {
        reveal_strlit("/");
        reveal_strlit(".");
    }
    assert("/"@ =~= seq!['/']);
    assert("."@ =~= seq!['.']);
    if chars.len() > 0 && chars[0] == '/' {
        result.push("/".to_owned());
    } else if chars.len() > 0 && chars[0] == '.' && (chars.len() == 1 || chars[1] == '/') {
        result.push(".".to_owned());
    }
    assert(texts(result@) =~= anchor(path@));
    let pieces = split_chars(&chars, '/');
    let mut i: usize = 0;
    assert(texts(pieces@).take(0) =~= Seq::<Seq<char>>::empty());
    assert(anchor(path@) + counted(texts(pieces@).take(0)) =~= anchor(path@));
    while i < pieces.len()
        invariant
            i <= pieces.len(),
            "."@ == seq!['.'],
            texts(result@) == anchor(path@) + counted(texts(pieces@).take(i as int)),
        decreases pieces.len() - i,
    {
        broadcast use lemma_texts_push;

        let ghost head = texts(pieces@).take(i as int + 1);
        assert(head.drop_last() =~= texts(pieces@).take(i as int));
        assert(head.last() == pieces@[i as int]@);
        let ghost before = counted(head.drop_last());
        if !pieces[i].as_str().is_empty() && !same_text(pieces[i].as_str(), ".") {
            assert(anchor(path@) + before.push(pieces@[i as int]@) =~= (anchor(path@) + before).push(
                pieces@[i as int]@,
            ));
            result.push(pieces[i].clone());
        }
        i += 1;
    }
    assert(texts(pieces@).take(i as int) =~= texts(pieces@));
    result
}

/// Whether `path` lies under `root`.
pub fn lies_under(root: &str, path: &str) -> (result: bool)
    ensures
        result == is_under(root@, path@),
{
    let outer = components_of(root);
    let inner = components_of(path);
    if outer.len() > inner.len() {
        return false;
    }
    let mut i: usize = 0;
    while i < outer.len()
        invariant
            i <= outer.len() <= inner.len(),
            texts(outer@) == components(root@),
            texts(inner@) == components(path@),
            forall|k: int| 0 <= k < i ==> components(root@)[k] == components(path@)[k],
        decreases outer.len() - i,
    {
        assert(texts(outer@)[i as int] == outer@[i as int]@);
        assert(texts(inner@)[i as int] == inner@[i as int]@);
        if !same_text(outer[i].as_str(), inner[i].as_str()) {
            return false;
        }
        i += 1;
    }
    assert(components(root@) =~= components(path@).subrange(
        0,
        components(root@).len() as int,
    ));
    true
}

/// `rest` inside `root`.
pub fn join_path(root: &str, rest: &str) -> (result: String)
    ensures
        result@ == inside(root@, rest@),
{
    let chars = chars_of(root);
    let mut result = root.to_owned();
    if chars.len() > 0 && chars[chars.len() - 1] != '/' {
        result.push('/');
        assert(result@ =~= root@ + seq!['/']);
    }
    result.append(rest);
    result
}

// ---------------------------------------------------------------------------
// Laws
// ---------------------------------------------------------------------------

proof fn lemma_split_concat(a: Seq<char>, b: Seq<char>)
    ensures
        split(a + seq!['/'] + b, '/') == split(a, '/') + split(b, '/'),
    decreases b.len(),
{
    crate::text::lemma_split_nonempty(a, '/');
    crate::text::lemma_split_nonempty(b, '/');
    let whole = a + seq!['/'] + b;
    if b.len() == 0 {
        assert(whole.drop_last() =~= a);
        assert(split(whole, '/') =~= split(a, '/').push(Seq::empty()));
        assert(split(b, '/') =~= seq![Seq::<char>::empty()]);
        assert(split(a, '/') + split(b, '/') =~= split(a, '/').push(Seq::empty()));
    } else {
        lemma_split_concat(a, b.drop_last());
        crate::text::lemma_split_nonempty(b.drop_last(), '/');
        assert(whole.drop_last() =~= a + seq!['/'] + b.drop_last());
        assert(whole.last() == b.last());
        let left = split(a, '/');
        let before = split(b.drop_last(), '/');
        if b.last() == '/' {
            assert(left + before.push(Seq::empty()) =~= (left + before).push(Seq::empty()));
        } else {
            assert((left + before).drop_last() =~= left + before.drop_last());
            assert((left + before).last() == before.last());
            assert(left + before.drop_last().push(before.last().push(b.last())) =~= (left
                + before).drop_last().push((left + before).last().push(b.last())));
        }
    }
}

proof fn lemma_counted_concat(a: Seq<Seq<char>>, b: Seq<Seq<char>>)
    ensures
        counted(a + b) == counted(a) + counted(b),
    decreases b.len(),
{
    if b.len() == 0 {
        assert(a + b =~= a);
        assert(counted(a) + counted(b) =~= counted(a));
    } else {
        lemma_counted_concat(a, b.drop_last());
        assert((a + b).drop_last() =~= a + b.drop_last());
        assert((a + b).last() == b.last());
        if counts(b.last()) {
            assert(counted(a) + counted(b.drop_last()).push(b.last()) =~= (counted(a) + counted(
                b.drop_last(),
            )).push(b.last()));
        }
    }
}

/// What is joined to a directory lies under it.
pub proof fn law_joined_path_lies_under(root: Seq<char>, rest: Seq<char>)
    requires
        rest.len() > 0,
        rest[0] != '/',
    ensures
        is_under(root, inside(root, rest)),
{
    let whole = inside(root, rest);
    if root.len() == 0 {
        assert(split(root, '/') =~= seq![Seq::<char>::empty()]);
        reveal_with_fuel(counted, 2);
        assert(components(root) =~= Seq::<Seq<char>>::empty());
        assert(components(root) =~= components(whole).subrange(0, 0));
    } else {
        let stem = if root.last() == '/' {
            root.drop_last()
        } else {
            root
        };
        assert(whole =~= stem + seq!['/'] + rest);
        lemma_split_concat(stem, rest);
        lemma_counted_concat(split(stem, '/'), split(rest, '/'));
        if root.last() == '/' {
            lemma_split_concat(stem, Seq::empty());
            assert(root =~= stem + seq!['/'] + Seq::<char>::empty());
            assert(split(Seq::<char>::empty(), '/') =~= seq![Seq::<char>::empty()]);
            lemma_counted_concat(split(stem, '/'), seq![Seq::<char>::empty()]);
            reveal_with_fuel(counted, 2);
            assert(counted(seq![Seq::<char>::empty()]) =~= Seq::<Seq<char>>::empty());
            assert(counted(split(root, '/')) =~= counted(split(stem, '/')));
        }
        assert(anchor(whole) =~= anchor(root));
        let under = components(whole);
        let over = components(root);
        assert(over =~= under.subrange(0, over.len() as int));
    }
}

/// Lying under is transitive.
pub proof fn law_under_is_transitive(a: Seq<char>, b: Seq<char>, c: Seq<char>)
    requires
        is_under(a, b),
        is_under(b, c),
    ensures
        is_under(a, c),
{
    let n = components(a).len() as int;
    assert(components(a) =~= components(c).subrange(0, n));
}

/// A path lies under itself, and a slash at its end changes nothing.
pub proof fn law_a_slash_at_the_end_changes_nothing(path: Seq<char>)
    requires
        path.len() > 0,
    ensures
        is_under(path, path),
        components(path + seq!['/']) == components(path),
        is_under(path + seq!['/'], path),
        is_under(path, path + seq!['/']),
{
    let longer = path + seq!['/'];
    assert(longer.drop_last() =~= path);
    assert(longer.last() == '/');
    let parts = split(path, '/');
    assert(split(longer, '/') == parts.push(Seq::<char>::empty()));
    assert(parts.push(Seq::<char>::empty()).drop_last() =~= parts);
    assert(counted(split(longer, '/')) == counted(parts));
    assert(anchor(longer) == anchor(path)) by {
        assert(longer[0] == path[0]);
        if path.len() > 1 {
            assert(longer[1] == path[1]);
        }
    }
    assert(components(path) =~= components(path).subrange(0, components(path).len() as int));
}

/// Only empty pieces and single dots do not count; every other piece does, in its order.
pub proof fn law_which_pieces_count(pieces: Seq<Seq<char>>)
    ensures
        forall|i: int|
            0 <= i < pieces.len() && (#[trigger] pieces[i]).len() > 0 && pieces[i] != seq!['.']
                ==> counted(pieces).contains(pieces[i]),
        forall|k: int|
            0 <= k < counted(pieces).len() ==> (#[trigger] counted(pieces)[k]).len() > 0
                && counted(pieces)[k] != seq!['.'],
        counted(pieces).len() <= pieces.len(),
    decreases pieces.len(),
{
    if pieces.len() > 0 {
        let head = pieces.drop_last();
        let before = counted(head);
        let all = counted(pieces);
        law_which_pieces_count(head);
        assert forall|i: int|
            0 <= i < pieces.len() && (#[trigger] pieces[i]).len() > 0 && pieces[i]
                != seq!['.'] implies all.contains(pieces[i]) by {
            if i < head.len() {
                assert(head[i] == pieces[i]);
                let k = choose|k: int| 0 <= k < before.len() && before[k] == pieces[i];
                assert(all[k] == before[k]);
            } else {
                assert(all[all.len() - 1] == pieces[i]);
            }
        }
        assert forall|k: int| 0 <= k < all.len() implies (#[trigger] all[k]).len() > 0 && all[k]
            != seq!['.'] by {
            if k < before.len() {
                assert(all[k] == before[k]);
            }
        }
    }
}

/// A joined path is the root, one slash and the rest.
pub proof fn law_one_slash_joins(root: Seq<char>, rest: Seq<char>)
    ensures
        root.len() > 0 && root.last() != '/' ==> inside(root, rest) == root + seq!['/'] + rest,
        root.len() > 0 && root.last() != '/' ==> inside(root + seq!['/'], rest) == inside(
            root,
            rest,
        ),
        root.len() == 0 ==> inside(root, rest) == rest,
{
    assert((root + seq!['/']).last() == '/');
    assert(root.len() == 0 ==> root + rest =~= rest);
}

} // verus!
