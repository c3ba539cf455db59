//! Text primitives. A string is modelled by its sequence of characters; the
//! functions here work on character buffers and state their result over that
//! model.

use vstd::prelude::*;

verus! {

/// `String::push` appends the given character to the end of the string.
pub assume_specification[ String::push ](s: &mut String, c: char)
    ensures
        final(s)@ == old(s)@.push(c),
;

// ---------------------------------------------------------------------------
// Characters
// ---------------------------------------------------------------------------

/// The characters with Unicode's `White_Space` property.
pub open spec fn is_space(c: char) -> bool {
    ||| '\u{9}' <= c <= '\u{d}'
    ||| c == ' '
    ||| c == '\u{85}'
    ||| c == '\u{a0}'
    ||| c == '\u{1680}'
    ||| '\u{2000}' <= c <= '\u{200a}'
    ||| c == '\u{2028}'
    ||| c == '\u{2029}'
    ||| c == '\u{202f}'
    ||| c == '\u{205f}'
    ||| c == '\u{3000}'
}

pub fn char_is_space(c: char) -> (result: bool)
    ensures
        result == is_space(c),
{
    ('\u{9}' <= c && c <= '\u{d}') || c == ' ' || c == '\u{85}' || c == '\u{a0}' || c == '\u{1680}'
        || ('\u{2000}' <= c && c <= '\u{200a}') || c == '\u{2028}' || c == '\u{2029}' || c
        == '\u{202f}' || c == '\u{205f}' || c == '\u{3000}'
}

pub open spec fn is_digit(c: char) -> bool {
    '0' <= c <= '9'
}

pub open spec fn is_alphanumeric_ascii(c: char) -> bool {
    is_digit(c) || 'a' <= c <= 'z' || 'A' <= c <= 'Z'
}

/// ASCII upper case letters become lower case; every other character stays.
pub open spec fn lower_char(c: char) -> char {
    if 'A' <= c <= 'Z' {
        ((c as u32) + 32) as char
    } else {
        c
    }
}

pub open spec fn lower(s: Seq<char>) -> Seq<char> {
    s.map_values(|c: char| lower_char(c))
}

pub fn char_to_lower(c: char) -> (result: char)
    ensures
        result == lower_char(c),
{
    match c {
        'A' => 'a',
        'B' => 'b',
        'C' => 'c',
        'D' => 'd',
        'E' => 'e',
        'F' => 'f',
        'G' => 'g',
        'H' => 'h',
        'I' => 'i',
        'J' => 'j',
        'K' => 'k',
        'L' => 'l',
        'M' => 'm',
        'N' => 'n',
        'O' => 'o',
        'P' => 'p',
        'Q' => 'q',
        'R' => 'r',
        'S' => 's',
        'T' => 't',
        'U' => 'u',
        'V' => 'v',
        'W' => 'w',
        'X' => 'x',
        'Y' => 'y',
        'Z' => 'z',
        _ => c,
    }
}

// ---------------------------------------------------------------------------
// Buffers
// ---------------------------------------------------------------------------

pub fn chars_of(s: &str) -> (result: Vec<char>)
    ensures
        result@ == s@,
{
    let mut out: Vec<char> = Vec::new();
    for c in it: s.chars()
        invariant
            out@ == it.seq().take(it.index() as int),
            it.seq() == s@,
    {
        out.push(c);
        assert(out@ =~= it.seq().take(it.index() as int + 1));
    }
    assert(out@ =~= s@);
    out
}

pub fn string_of(chars: &Vec<char>) -> (result: String)
    ensures
        result@ == chars@,
{
    let mut out: String = String::new();
    let mut i: usize = 0;
    while i < chars.len()
        invariant
            i <= chars.len(),
            out@ == chars@.take(i as int),
        decreases chars.len() - i,
    {
        out.push(chars[i]);
        i += 1;
        assert(out@ =~= chars@.take(i as int));
    }
    assert(out@ =~= chars@);
    out
}


/// The character views of a list of strings.
pub open spec fn texts(list: Seq<String>) -> Seq<Seq<char>> {
    list.map_values(|s: String| s@)
}

/// The character views of a list of string slices.
pub open spec fn strs(list: Seq<&str>) -> Seq<Seq<char>> {
    list.map_values(|s: &str| s@)
}

pub broadcast proof fn lemma_texts_push(list: Seq<String>, s: String)
    ensures
        #[trigger] texts(list.push(s)) == texts(list).push(s@),
{
    assert(texts(list.push(s)) =~= texts(list).push(s@));
}

/// The character view of an optional string.
pub open spec fn opt_text(value: Option<String>) -> Option<Seq<char>> {
    match value {
        Some(s) => Some(s@),
        None => None,
    }
}

/// The character view of an optional string slice.
pub open spec fn opt_str(value: Option<&str>) -> Option<Seq<char>> {
    match value {
        Some(s) => Some(s@),
        None => None,
    }
}

pub fn same_chars(a: &Vec<char>, b: &Vec<char>) -> (result: bool)
    ensures
        result == (a@ == b@),
{
    if a.len() != b.len() {
        return false;
    }
    let mut i: usize = 0;
    while i < a.len()
        invariant
            i <= a.len(),
            a.len() == b.len(),
            forall|k: int| 0 <= k < i ==> a@[k] == b@[k],
        decreases a.len() - i,
    {
        if a[i] != b[i] {
            assert(a@[i as int] != b@[i as int]);
            return false;
        }
        i += 1;
    }
    assert(a@ =~= b@);
    true
}

pub fn same_text(a: &str, b: &str) -> (result: bool)
    ensures
        result == (a@ == b@),
{
    same_chars(&chars_of(a), &chars_of(b))
}

/// Whether `key` is one of `list`.
pub fn list_has(list: &Vec<String>, key: &str) -> (result: bool)
    ensures
        result == texts(list@).contains(key@),
{
    let mut i: usize = 0;
    while i < list.len()
        invariant
            i <= list.len(),
            forall|k: int| 0 <= k < i ==> list@[k]@ != key@,
        decreases list.len() - i,
    {
        if same_text(list[i].as_str(), key) {
            assert(texts(list@)[i as int] == key@);
            return true;
        }
        i += 1;
    }
    assert forall|k: int| 0 <= k < texts(list@).len() implies texts(list@)[k] != key@ by {
        assert(texts(list@)[k] == list@[k]@);
    }
    false
}

pub fn clone_opt(value: &Option<String>) -> (result: Option<String>)
    ensures
        result == *value,
{
    match value {
        Some(s) => Some(s.clone()),
        None => None,
    }
}

pub fn clone_list(list: &Vec<String>) -> (result: Vec<String>)
    ensures
        texts(result@) == texts(list@),
{
    let mut out: Vec<String> = Vec::new();
    let mut i: usize = 0;
    while i < list.len()
        invariant
            i <= list.len(),
            texts(out@) == texts(list@).take(i as int),
        decreases list.len() - i,
    {
        broadcast use lemma_texts_push;

        out.push(list[i].clone());
        i += 1;
        assert(texts(out@) =~= texts(list@).take(i as int));
    }
    assert(texts(out@) =~= texts(list@));
    out
}

pub fn subrange_chars(s: &Vec<char>, from: usize, to: usize) -> (result: Vec<char>)
    requires
        from <= to <= s.len(),
    ensures
        result@ == s@.subrange(from as int, to as int),
{
    let mut out: Vec<char> = Vec::new();
    let mut i: usize = from;
    while i < to
        invariant
            from <= i <= to <= s.len(),
            out@ == s@.subrange(from as int, i as int),
        decreases to - i,
    {
        out.push(s[i]);
        i += 1;
        assert(out@ =~= s@.subrange(from as int, i as int));
    }
    out
}

/// `a` followed by `b`.
pub fn concat2(a: &str, b: &str) -> (result: String)
    ensures
        result@ == a@ + b@,
{
    let mut out: String = a.to_owned();
    out.append(b);
    out
}

/// `a` followed by `b` and `c`.
pub fn concat3(a: &str, b: &str, c: &str) -> (result: String)
    ensures
        result@ == a@ + b@ + c@,
{
    let mut out: String = a.to_owned();
    out.append(b);
    out.append(c);
    out
}

// ---------------------------------------------------------------------------
// Searching
// ---------------------------------------------------------------------------

/// `needle` stands in `s` at position `at`.
pub open spec fn has_at(s: Seq<char>, needle: Seq<char>, at: int) -> bool {
    0 <= at && at + needle.len() <= s.len() && s.subrange(at, at + needle.len()) == needle
}

/// `needle` stands somewhere in `s`.
pub open spec fn contains(s: Seq<char>, needle: Seq<char>) -> bool {
    exists|at: int| has_at(s, needle, at)
}

pub open spec fn starts_with(s: Seq<char>, prefix: Seq<char>) -> bool {
    has_at(s, prefix, 0)
}

pub open spec fn ends_with(s: Seq<char>, suffix: Seq<char>) -> bool {
    has_at(s, suffix, s.len() - suffix.len())
}

pub fn matches_at(s: &Vec<char>, needle: &Vec<char>, at: usize) -> (result: bool)
    ensures
        result == has_at(s@, needle@, at as int),
{
    if at > s.len() || needle.len() > s.len() - at {
        return false;
    }
    let mut k: usize = 0;
    while k < needle.len()
        invariant
            k <= needle.len(),
            at + needle.len() <= s.len(),
            forall|j: int| 0 <= j < k ==> s@[at + j] == needle@[j],
        decreases needle.len() - k,
    {
        if s[at + k] != needle[k] {
            assert(s@.subrange(at as int, at + needle@.len())[k as int] != needle@[k as int]);
            return false;
        }
        k += 1;
    }
    assert(s@.subrange(at as int, at + needle@.len()) =~= needle@);
    true
}

/// The first position at or after `from` where `needle` stands.
pub fn find_chars(s: &Vec<char>, needle: &Vec<char>, from: usize) -> (result: Option<usize>)
    ensures
        match result {
            Some(i) => {
                &&& from <= i
                &&& has_at(s@, needle@, i as int)
                &&& forall|j: int| from <= j < i ==> !has_at(s@, needle@, j)
            },
            None => forall|j: int| from <= j ==> !has_at(s@, needle@, j),
        },
{
    let mut i: usize = from;
    while i < s.len()
        invariant
            from <= i,
            forall|j: int| from <= j < i ==> !has_at(s@, needle@, j),
        decreases s.len() - i,
    {
        if matches_at(s, needle, i) {
            return Some(i);
        }
        i += 1;
    }
    if matches_at(s, needle, i) {
        return Some(i);
    }
    None
}

pub fn chars_contain(s: &Vec<char>, needle: &Vec<char>) -> (result: bool)
    ensures
        result == contains(s@, needle@),
{
    match find_chars(s, needle, 0) {
        Some(i) => true,
        None => false,
    }
}

pub fn text_contains(s: &str, needle: &str) -> (result: bool)
    ensures
        result == contains(s@, needle@),
{
    chars_contain(&chars_of(s), &chars_of(needle))
}

pub fn text_starts_with(s: &str, prefix: &str) -> (result: bool)
    ensures
        result == starts_with(s@, prefix@),
{
    matches_at(&chars_of(s), &chars_of(prefix), 0)
}

pub fn text_ends_with(s: &str, suffix: &str) -> (result: bool)
    ensures
        result == ends_with(s@, suffix@),
{
    let chars = chars_of(s);
    let tail = chars_of(suffix);
    if tail.len() > chars.len() {
        return false;
    }
    matches_at(&chars, &tail, chars.len() - tail.len())
}

/// What follows `prefix`, where `s` starts with it.
pub fn strip_prefix(s: &str, prefix: &str) -> (result: Option<String>)
    ensures
        result is Some == starts_with(s@, prefix@),
        result is Some ==> result->0@ == s@.skip(prefix@.len() as int),
{
    let chars = chars_of(s);
    let head = chars_of(prefix);
    if matches_at(&chars, &head, 0) {
        let rest = subrange_chars(&chars, head.len(), chars.len());
        assert(rest@ =~= s@.skip(prefix@.len() as int));
        Some(string_of(&rest))
    } else {
        None
    }
}

/// The position of the first `c` in `s`, or the length of `s`.
pub open spec fn first_index(s: Seq<char>, c: char) -> int
    decreases s.len(),
{
    if s.len() == 0 || s[0] == c {
        0
    } else {
        1 + first_index(s.drop_first(), c)
    }
}

pub proof fn lemma_first_index(s: Seq<char>, c: char, at: int)
    requires
        0 <= at <= s.len(),
        forall|k: int| 0 <= k < at ==> s[k] != c,
        at < s.len() ==> s[at] == c,
    ensures
        first_index(s, c) == at,
    decreases s.len(),
{
    if s.len() > 0 && at > 0 {
        assert forall|k: int| 0 <= k < at - 1 implies s.drop_first()[k] != c by {
            assert(s.drop_first()[k] == s[k + 1]);
        }
        lemma_first_index(s.drop_first(), c, at - 1);
    }
}

pub fn find_char(s: &Vec<char>, c: char) -> (result: usize)
    ensures
        result == first_index(s@, c),
        result <= s.len(),
        forall|k: int| 0 <= k < result ==> s@[k] != c,
        result < s.len() ==> s@[result as int] == c,
{
    let mut i: usize = 0;
    while i < s.len() && s[i] != c
        invariant
            i <= s.len(),
            forall|k: int| 0 <= k < i ==> s@[k] != c,
        decreases s.len() - i,
    {
        i += 1;
    }
    proof {
        lemma_first_index(s@, c, i as int);
    }
    i
}

// ---------------------------------------------------------------------------
// Trimming
// ---------------------------------------------------------------------------

pub open spec fn trim_start(s: Seq<char>) -> Seq<char>
    decreases s.len(),
{
    if s.len() > 0 && is_space(s[0]) {
        trim_start(s.drop_first())
    } else {
        s
    }
}

pub open spec fn trim_end(s: Seq<char>) -> Seq<char>
    decreases s.len(),
{
    if s.len() > 0 && is_space(s.last()) {
        trim_end(s.drop_last())
    } else {
        s
    }
}

/// `s` without leading and trailing whitespace.
pub open spec fn trim(s: Seq<char>) -> Seq<char> {
    trim_end(trim_start(s))
}

/// `s` without the trailing run of `c`.
pub open spec fn trim_end_char(s: Seq<char>, c: char) -> Seq<char>
    decreases s.len(),
{
    if s.len() > 0 && s.last() == c {
        trim_end_char(s.drop_last(), c)
    } else {
        s
    }
}

pub fn trim_chars(s: &Vec<char>) -> (result: Vec<char>)
    ensures
        result@ == trim(s@),
{
    let mut from: usize = 0;
    assert(s@.skip(0) =~= s@);
    while from < s.len() && char_is_space(s[from])
        invariant
            from <= s.len(),
            trim_start(s@) == trim_start(s@.skip(from as int)),
        decreases s.len() - from,
    {
        assert(s@.skip(from as int).drop_first() =~= s@.skip(from as int + 1));
        from += 1;
    }
    let ghost tail = s@.skip(from as int);
    assert(trim_start(s@) == tail);
    let mut to: usize = s.len();
    assert(s@.subrange(from as int, to as int) =~= tail);
    while to > from && char_is_space(s[to - 1])
        invariant
            from <= to <= s.len(),
            trim_end(tail) == trim_end(s@.subrange(from as int, to as int)),
        decreases to,
    {
        assert(s@.subrange(from as int, to as int).drop_last() =~= s@.subrange(
            from as int,
            to - 1,
        ));
        to -= 1;
    }
    subrange_chars(s, from, to)
}

pub fn trimmed(s: &str) -> (result: String)
    ensures
        result@ == trim(s@),
{
    string_of(&trim_chars(&chars_of(s)))
}

/// The trimmed text, unless nothing is left of it.
pub open spec fn nonempty_trim(s: Seq<char>) -> Option<Seq<char>> {
    if trim(s).len() == 0 {
        None
    } else {
        Some(trim(s))
    }
}

pub fn trimmed_nonempty(s: &str) -> (result: Option<String>)
    ensures
        opt_text(result) == nonempty_trim(s@),
{
    let t = trim_chars(&chars_of(s));
    if t.len() == 0 {
        None
    } else {
        Some(string_of(&t))
    }
}

pub fn without_trailing(s: &str, c: char) -> (result: String)
    ensures
        result@ == trim_end_char(s@, c),
{
    let chars = chars_of(s);
    let mut to: usize = chars.len();
    assert(s@.take(to as int) =~= s@);
    while to > 0 && chars[to - 1] == c
        invariant
            to <= chars.len(),
            chars@ == s@,
            trim_end_char(s@, c) == trim_end_char(s@.take(to as int), c),
        decreases to,
    {
        assert(s@.take(to as int).drop_last() =~= s@.take(to - 1));
        to -= 1;
    }
    let kept = subrange_chars(&chars, 0, to);
    assert(kept@ =~= s@.take(to as int));
    string_of(&kept)
}

// ---------------------------------------------------------------------------
// Case
// ---------------------------------------------------------------------------

pub fn lower_chars(s: &Vec<char>) -> (result: Vec<char>)
    ensures
        result@ == lower(s@),
{
    let mut out: Vec<char> = Vec::new();
    let mut i: usize = 0;
    while i < s.len()
        invariant
            i <= s.len(),
            out@ == lower(s@.take(i as int)),
        decreases s.len() - i,
    {
        out.push(char_to_lower(s[i]));
        i += 1;
        assert(out@ =~= lower(s@.take(i as int)));
    }
    assert(s@.take(i as int) =~= s@);
    out
}

pub fn lowered(s: &str) -> (result: String)
    ensures
        result@ == lower(s@),
{
    string_of(&lower_chars(&chars_of(s)))
}

/// Equality that takes ASCII letters of either case for the same.
pub open spec fn eq_ignore_case(a: Seq<char>, b: Seq<char>) -> bool {
    lower(a) == lower(b)
}

pub fn same_ignore_case(a: &str, b: &str) -> (result: bool)
    ensures
        result == eq_ignore_case(a@, b@),
{
    same_chars(&lower_chars(&chars_of(a)), &lower_chars(&chars_of(b)))
}

// ---------------------------------------------------------------------------
// Splitting and joining
// ---------------------------------------------------------------------------

/// The pieces of `s` between occurrences of `sep`.
pub open spec fn split(s: Seq<char>, sep: char) -> Seq<Seq<char>>
    decreases s.len(),
{
    if s.len() == 0 {
        seq![Seq::<char>::empty()]
    } else {
        let before = split(s.drop_last(), sep);
        if s.last() == sep {
            before.push(Seq::<char>::empty())
        } else {
            before.drop_last().push(before.last().push(s.last()))
        }
    }
}

pub proof fn lemma_split_nonempty(s: Seq<char>, sep: char)
    ensures
        split(s, sep).len() > 0,
    decreases s.len(),
{
    if s.len() > 0 {
        lemma_split_nonempty(s.drop_last(), sep);
    }
}

pub fn split_chars(s: &Vec<char>, sep: char) -> (result: Vec<String>)
    ensures
        texts(result@) == split(s@, sep),
        result.len() > 0,
{
    let mut done: Vec<String> = Vec::new();
    let mut cur: Vec<char> = Vec::new();
    let mut i: usize = 0;
    assert(s@.take(0) =~= Seq::<char>::empty());
    assert(texts(done@).push(cur@) =~= split(s@.take(0), sep));
    while i < s.len()
        invariant
            i <= s.len(),
            texts(done@).push(cur@) == split(s@.take(i as int), sep),
        decreases s.len() - i,
    {
        let ghost before = texts(done@).push(cur@);
        let ghost head = s@.take(i as int + 1);
        assert(head.drop_last() =~= s@.take(i as int));
        assert(before.drop_last() =~= texts(done@));
        let ghost old_done = texts(done@);
        if s[i] == sep {
            done.push(string_of(&cur));
            cur = Vec::new();
            assert(texts(done@) =~= before);
            assert(texts(done@).push(cur@) =~= before.push(Seq::<char>::empty()));
        } else {
            cur.push(s[i]);
            assert(texts(done@).push(cur@) =~= before.drop_last().push(before.last().push(s@[i as int])));
        }
        i += 1;
    }
    assert(s@.take(i as int) =~= s@);
    let ghost all = texts(done@).push(cur@);
    done.push(string_of(&cur));
    assert(texts(done@) =~= all);
    done
}

/// `parts` with `sep` between each two.
pub open spec fn join(parts: Seq<Seq<char>>, sep: Seq<char>) -> Seq<char>
    decreases parts.len(),
{
    if parts.len() == 0 {
        Seq::empty()
    } else if parts.len() == 1 {
        parts[0]
    } else {
        join(parts.drop_last(), sep) + sep + parts.last()
    }
}

pub fn joined(parts: &Vec<String>, sep: &str) -> (result: String)
    ensures
        result@ == join(texts(parts@), sep@),
{
    let mut out: String = String::new();
    let mut i: usize = 0;
    assert(texts(parts@).take(0) =~= Seq::<Seq<char>>::empty());
    while i < parts.len()
        invariant
            i <= parts.len(),
            out@ == join(texts(parts@).take(i as int), sep@),
        decreases parts.len() - i,
    {
        let ghost head = texts(parts@).take(i as int + 1);
        assert(head.drop_last() =~= texts(parts@).take(i as int));
        assert(head.last() == parts@[i as int]@);
        if i > 0 {
            out.append(sep);
        }
        out.append(parts[i].as_str());
        i += 1;
        if i == 1 {
            assert(out@ =~= join(head, sep@));
        }
    }
    assert(texts(parts@).take(i as int) =~= texts(parts@));
    out
}

/// The lines of `s`: the pieces that end in a line feed, each without its line
/// feed and a carriage return before it, then what follows the last line feed
/// where that is not empty.
pub open spec fn lines(s: Seq<char>) -> Seq<Seq<char>> {
    let parts = split(s, '\n');
    let ended = parts.drop_last().map_values(|line: Seq<char>| strip_return(line));
    if parts.last().len() == 0 {
        ended
    } else {
        ended.push(parts.last())
    }
}

pub open spec fn strip_return(line: Seq<char>) -> Seq<char> {
    if line.len() > 0 && line.last() == '\r' {
        line.drop_last()
    } else {
        line
    }
}

pub fn lines_of(s: &str) -> (result: Vec<String>)
    ensures
        texts(result@) == lines(s@),
{
    let parts = split_chars(&chars_of(s), '\n');
    let ghost views = split(s@, '\n');
    assert(views == texts(parts@));
    let mut out: Vec<String> = Vec::new();
    let last: usize = parts.len() - 1;
    let ghost ended = views.drop_last().map_values(|line: Seq<char>| strip_return(line));
    let mut i: usize = 0;
    while i < last
        invariant
            i <= last,
            last + 1 == parts.len(),
            views == texts(parts@),
            ended == views.drop_last().map_values(|line: Seq<char>| strip_return(line)),
            texts(out@) == ended.take(i as int),
        decreases last - i,
    {
        broadcast use lemma_texts_push;

        let line = chars_of(parts[i].as_str());
        assert(line@ == views[i as int]);
        if line.len() > 0 && line[line.len() - 1] == '\r' {
            let cut = subrange_chars(&line, 0, line.len() - 1);
            assert(cut@ =~= line@.drop_last());
            out.push(string_of(&cut));
        } else {
            out.push(string_of(&line));
        }
        i += 1;
        assert(texts(out@) =~= ended.take(i as int));
    }
    assert(texts(out@) =~= ended);
    let tail = chars_of(parts[last].as_str());
    assert(tail@ == views.last());
    if tail.len() > 0 {
        out.push(string_of(&tail));
        assert(texts(out@) =~= ended.push(views.last()));
    }
    out
}

/// The first position at or after `from` where `needle` stands, or a negative number.
pub open spec fn first_at(s: Seq<char>, needle: Seq<char>, from: int) -> int
    decreases s.len() - from + 1,
{
    if from < 0 || from + needle.len() > s.len() {
        -1
    } else if has_at(s, needle, from) {
        from
    } else {
        first_at(s, needle, from + 1)
    }
}

proof fn lemma_first_at_found(s: Seq<char>, needle: Seq<char>, from: int, at: int)
    requires
        0 <= from <= at,
        has_at(s, needle, at),
        forall|j: int| from <= j < at ==> !has_at(s, needle, j),
    ensures
        first_at(s, needle, from) == at,
    decreases at - from,
{
    if from < at {
        assert(!has_at(s, needle, from));
        lemma_first_at_found(s, needle, from + 1, at);
    }
}

proof fn lemma_first_at_absent(s: Seq<char>, needle: Seq<char>, from: int)
    requires
        0 <= from,
        forall|j: int| from <= j ==> !has_at(s, needle, j),
    ensures
        first_at(s, needle, from) == -1,
    decreases s.len() - from + 1,
{
    if from + needle.len() <= s.len() {
        assert(!has_at(s, needle, from));
        lemma_first_at_absent(s, needle, from + 1);
    }
}

/// The pieces of `s` between the occurrences of `sep`, taken from the left without
/// overlap.
pub open spec fn split_on(s: Seq<char>, sep: Seq<char>) -> Seq<Seq<char>>
    decreases s.len(),
{
    let at = first_at(s, sep, 0);
    if at < 0 || sep.len() == 0 || at + sep.len() > s.len() {
        seq![s]
    } else {
        seq![s.take(at)] + split_on(s.skip(at + sep.len()), sep)
    }
}

/// `s` with every occurrence of `from` replaced by `to`.
pub open spec fn replace(s: Seq<char>, from: Seq<char>, to: Seq<char>) -> Seq<char> {
    join(split_on(s, from), to)
}

pub fn split_text_on(s: &str, sep: &str) -> (result: Vec<String>)
    requires
        sep@.len() > 0,
    ensures
        texts(result@) == split_on(s@, sep@),
{
    let mark = chars_of(sep);
    let mut rest = chars_of(s);
    let mut out: Vec<String> = Vec::new();
    assert(texts(out@) + split_on(rest@, sep@) =~= split_on(s@, sep@));
    loop
        invariant
            mark@ == sep@,
            sep@.len() > 0,
            texts(out@) + split_on(rest@, sep@) == split_on(s@, sep@),
        decreases rest.len(),
    {
        broadcast use lemma_texts_push;

        let found = find_chars(&rest, &mark, 0);
        match found {
            Some(at) => {
                proof {
                    lemma_first_at_found(rest@, sep@, 0, at as int);
                }
                let piece = subrange_chars(&rest, 0, at);
                assert(piece@ =~= rest@.take(at as int));
                let tail = subrange_chars(&rest, at + mark.len(), rest.len());
                assert(tail@ =~= rest@.skip(at + sep@.len()));
                let ghost before = texts(out@);
                out.push(string_of(&piece));
                assert(texts(out@) + split_on(tail@, sep@) =~= before + (seq![piece@] + split_on(
                    tail@,
                    sep@,
                )));
                rest = tail;
            },
            None => {
                proof {
                    lemma_first_at_absent(rest@, sep@, 0);
                }
                let ghost before = texts(out@);
                out.push(string_of(&rest));
                assert(texts(out@) =~= before + seq![rest@]);
                return out;
            },
        }
    }
}

pub fn replaced(s: &str, from: &str, to: &str) -> (result: String)
    requires
        from@.len() > 0,
    ensures
        result@ == replace(s@, from@, to@),
{
    joined(&split_text_on(s, from), to)
}

/// `s` without the leading copies of `prefix`.
pub open spec fn trim_start_text(s: Seq<char>, prefix: Seq<char>) -> Seq<char>
    decreases s.len(),
{
    if prefix.len() > 0 && starts_with(s, prefix) {
        trim_start_text(s.skip(prefix.len() as int), prefix)
    } else {
        s
    }
}

/// `s` without the trailing copies of `suffix`.
pub open spec fn trim_end_text(s: Seq<char>, suffix: Seq<char>) -> Seq<char>
    decreases s.len(),
{
    if suffix.len() > 0 && ends_with(s, suffix) {
        trim_end_text(s.take(s.len() - suffix.len()), suffix)
    } else {
        s
    }
}

pub fn without_leading_text(s: &str, prefix: &str) -> (result: String)
    requires
        prefix@.len() > 0,
    ensures
        result@ == trim_start_text(s@, prefix@),
{
    let chars = chars_of(s);
    let head = chars_of(prefix);
    let mut from: usize = 0;
    assert(s@.skip(0) =~= s@);
    while matches_at(&chars, &head, from)
        invariant
            from <= chars.len(),
            chars@ == s@,
            head@ == prefix@,
            prefix@.len() > 0,
            trim_start_text(s@, prefix@) == trim_start_text(s@.skip(from as int), prefix@),
        decreases chars.len() - from,
    {
        let ghost rest = s@.skip(from as int);
        assert(rest.subrange(0, prefix@.len() as int) =~= s@.subrange(
            from as int,
            from + prefix@.len(),
        ));
        assert(rest.skip(prefix@.len() as int) =~= s@.skip(from + prefix@.len()));
        from += head.len();
    }
    let ghost rest = s@.skip(from as int);
    proof {
        if starts_with(rest, prefix@) {
            assert(s@.subrange(from as int, from + prefix@.len()) =~= rest.subrange(
                0,
                prefix@.len() as int,
            ));
        }
    }
    let kept = subrange_chars(&chars, from, chars.len());
    assert(kept@ =~= rest);
    string_of(&kept)
}

pub fn without_trailing_text(s: &str, suffix: &str) -> (result: String)
    requires
        suffix@.len() > 0,
    ensures
        result@ == trim_end_text(s@, suffix@),
{
    let chars = chars_of(s);
    let tail = chars_of(suffix);
    let mut to: usize = chars.len();
    assert(s@.take(to as int) =~= s@);
    while to >= tail.len() && matches_at(&chars, &tail, to - tail.len())
        invariant
            to <= chars.len(),
            chars@ == s@,
            tail@ == suffix@,
            suffix@.len() > 0,
            trim_end_text(s@, suffix@) == trim_end_text(s@.take(to as int), suffix@),
        decreases to,
    {
        let ghost kept = s@.take(to as int);
        assert(kept.subrange(to - suffix@.len(), to as int) =~= s@.subrange(
            to - suffix@.len(),
            to as int,
        ));
        assert(kept.take(to - suffix@.len()) =~= s@.take(to - suffix@.len()));
        to -= tail.len();
    }
    let ghost kept = s@.take(to as int);
    proof {
        if ends_with(kept, suffix@) {
            assert(s@.subrange(to - suffix@.len(), to as int) =~= kept.subrange(
                to - suffix@.len(),
                to as int,
            ));
        }
    }
    let out = subrange_chars(&chars, 0, to);
    assert(out@ =~= kept);
    string_of(&out)
}

// ---------------------------------------------------------------------------
// Decimal numbers
// ---------------------------------------------------------------------------

pub open spec fn digit_char(d: nat) -> char {
    ((('0' as u32) + d) as u32) as char
}

/// `n` in decimal digits, without leading zeros.
pub open spec fn decimal(n: nat) -> Seq<char>
    decreases n,
{
    if n < 10 {
        seq![digit_char(n)]
    } else {
        decimal(n / 10).push(digit_char(n % 10))
    }
}

/// `n` in decimal digits, after a minus sign where it is negative.
pub open spec fn decimal_signed(n: int) -> Seq<char> {
    if n < 0 {
        seq!['-'] + decimal((-n) as nat)
    } else {
        decimal(n as nat)
    }
}

fn char_of_digit(d: u64) -> (result: char)
    requires
        d < 10,
    ensures
        result == digit_char(d as nat),
{
    match d {
        0 => '0',
        1 => '1',
        2 => '2',
        3 => '3',
        4 => '4',
        5 => '5',
        6 => '6',
        7 => '7',
        8 => '8',
        _ => '9',
    }
}

pub fn decimal_of(n: u64) -> (result: String)
    ensures
        result@ == decimal(n as nat),
    decreases n,
{
    if n < 10 {
        let mut out: String = String::new();
        out.push(char_of_digit(n));
        assert(out@ =~= seq![digit_char(n as nat)]);
        out
    } else {
        let mut out: String = decimal_of(n / 10);
        out.push(char_of_digit(n % 10));
        out
    }
}

pub fn decimal_of_signed(n: i64) -> (result: String)
    ensures
        result@ == decimal_signed(n as int),
{
    if n < 0 {
        let magnitude: u64 = if n == i64::MIN {
            9223372036854775808
        } else {
            (-n) as u64
        };
        let digits = decimal_of(magnitude);
        let mut out: String = String::new();
        out.push('-');
        out.append(digits.as_str());
        assert(out@ =~= seq!['-'] + decimal((-(n as int)) as nat));
        out
    } else {
        decimal_of(n as u64)
    }
}

pub open spec fn all_digits(s: Seq<char>) -> bool {
    forall|i: int| 0 <= i < s.len() ==> is_digit(#[trigger] s[i])
}

/// The number that a run of decimal digits stands for.
pub open spec fn digits_value(s: Seq<char>) -> nat
    decreases s.len(),
{
    if s.len() == 0 {
        0
    } else {
        digits_value(s.drop_last()) * 10 + (s.last() as nat - '0' as nat) as nat
    }
}

/// The digits of an unsigned number, behind an optional plus sign.
pub open spec fn unsigned_body(s: Seq<char>) -> Seq<char> {
    if s.len() > 0 && s[0] == '+' {
        s.drop_first()
    } else {
        s
    }
}

/// The value of `s` as an unsigned number of at most `max`.
pub open spec fn parse_unsigned(s: Seq<char>, max: nat) -> Option<nat> {
    let body = unsigned_body(s);
    if body.len() > 0 && all_digits(body) && digits_value(body) <= max {
        Some(digits_value(body))
    } else {
        None
    }
}

proof fn lemma_digits_value_grows(s: Seq<char>, n: int)
    requires
        0 <= n <= s.len(),
    ensures
        digits_value(s.take(n)) <= digits_value(s),
    decreases s.len(),
{
    if n < s.len() {
        lemma_digits_value_grows(s.drop_last(), n);
        assert(s.drop_last().take(n) =~= s.take(n));
    } else {
        assert(s.take(n) =~= s);
    }
}

/// The unsigned number that `s` stands for, where it is at most `max`.
pub fn parse_number(s: &str, max: u64) -> (result: Option<u64>)
    ensures
        match result {
            Some(n) => parse_unsigned(s@, max as nat) == Some(n as nat),
            None => parse_unsigned(s@, max as nat) is None,
        },
{
    let chars = chars_of(s);
    let body = if chars.len() > 0 && chars[0] == '+' {
        let rest = subrange_chars(&chars, 1, chars.len());
        assert(rest@ =~= chars@.drop_first());
        rest
    } else {
        chars
    };
    if body.len() == 0 {
        return None;
    }
    let mut value: u64 = 0;
    let mut i: usize = 0;
    assert(body@.take(0) =~= Seq::<char>::empty());
    while i < body.len()
        invariant
            i <= body.len(),
            body@ == unsigned_body(s@),
            value == digits_value(body@.take(i as int)),
            value <= max,
            forall|k: int| 0 <= k < i ==> is_digit(#[trigger] body@[k]),
        decreases body.len() - i,
    {
        let c = body[i];
        if c < '0' || c > '9' {
            assert(!is_digit(body@[i as int]));
            return None;
        }
        let digit: u64 = (c as u32 - '0' as u32) as u64;
        let ghost head = body@.take(i as int + 1);
        assert(head.drop_last() =~= body@.take(i as int));
        assert(digits_value(head) == value as nat * 10 + digit);
        proof {
            lemma_digits_value_grows(body@, i as int + 1);
        }
        let wide: u128 = value as u128 * 10 + digit as u128;
        if wide > max as u128 {
            return None;
        }
        value = wide as u64;
        i += 1;
    }
    assert(body@.take(i as int) =~= body@);
    Some(value)
}

// ---------------------------------------------------------------------------
// Words and prefixes
// ---------------------------------------------------------------------------

/// The pieces of `s` between whitespace.
pub open spec fn words(s: Seq<char>) -> Seq<Seq<char>>
    decreases s.len(),
{
    if s.len() == 0 {
        Seq::empty()
    } else {
        let before = words(s.drop_last());
        if is_space(s.last()) {
            before
        } else if s.len() == 1 || is_space(s[s.len() - 2]) {
            before.push(seq![s.last()])
        } else {
            before.drop_last().push(before.last().push(s.last()))
        }
    }
}

pub fn words_of(s: &str) -> (result: Vec<String>)
    ensures
        texts(result@) == words(s@),
{
    let chars = chars_of(s);
    let mut done: Vec<String> = Vec::new();
    let mut cur: Vec<char> = Vec::new();
    let mut i: usize = 0;
    assert(chars@.take(0) =~= Seq::<char>::empty());
    assert(texts(done@) =~= words(chars@.take(0)));
    while i < chars.len()
        invariant
            i <= chars.len(),
            (cur.len() > 0) == (i > 0 && !is_space(chars@[i - 1])),
            words(chars@.take(i as int)) == if cur.len() > 0 {
                texts(done@).push(cur@)
            } else {
                texts(done@)
            },
        decreases chars.len() - i,
    {
        let ghost head = chars@.take(i + 1);
        let ghost before = words(chars@.take(i as int));
        assert(head.drop_last() =~= chars@.take(i as int));
        assert(head.last() == chars@[i as int]);
        assert(i > 0 ==> head[head.len() - 2] == chars@[i - 1]);
        if char_is_space(chars[i]) {
            if cur.len() > 0 {
                done.push(string_of(&cur));
                cur = Vec::new();
                assert(texts(done@) =~= before);
            }
        } else {
            let ghost old_cur = cur@;
            cur.push(chars[i]);
            proof {
                if old_cur.len() > 0 {
                    assert(before.drop_last() =~= texts(done@));
                    assert(before.last() == old_cur);
                } else {
                    assert(cur@ =~= seq![chars@[i as int]]);
                }
            }
        }
        i += 1;
    }
    assert(chars@.take(i as int) =~= chars@);
    if cur.len() > 0 {
        let ghost all = texts(done@).push(cur@);
        done.push(string_of(&cur));
        assert(texts(done@) =~= all);
    }
    done
}

/// The first `n` characters of `s`, or all of them.
pub open spec fn first_chars(s: Seq<char>, n: nat) -> Seq<char> {
    if s.len() <= n {
        s
    } else {
        s.take(n as int)
    }
}

pub fn take_chars(s: &str, n: usize) -> (result: String)
    ensures
        result@ == first_chars(s@, n as nat),
{
    let chars = chars_of(s);
    if chars.len() <= n {
        s.to_owned()
    } else {
        let head = subrange_chars(&chars, 0, n);
        assert(head@ =~= s@.take(n as int));
        string_of(&head)
    }
}

/// `s` without the leading copies of `c`.
pub open spec fn trim_start_char(s: Seq<char>, c: char) -> Seq<char>
    decreases s.len(),
{
    if s.len() > 0 && s[0] == c {
        trim_start_char(s.drop_first(), c)
    } else {
        s
    }
}

pub fn without_leading(s: &str, c: char) -> (result: String)
    ensures
        result@ == trim_start_char(s@, c),
{
    let chars = chars_of(s);
    let mut i: usize = 0;
    assert(chars@.skip(0) =~= chars@);
    while i < chars.len() && chars[i] == c
        invariant
            i <= chars.len(),
            trim_start_char(chars@, c) == trim_start_char(chars@.skip(i as int), c),
        decreases chars.len() - i,
    {
        assert(chars@.skip(i as int).drop_first() =~= chars@.skip(i + 1));
        i += 1;
    }
    let rest = subrange_chars(&chars, i, chars.len());
    assert(rest@ =~= chars@.skip(i as int));
    string_of(&rest)
}

/// The parts of `s` before and after its first `c`.
pub open spec fn split_once(s: Seq<char>, c: char) -> Option<(Seq<char>, Seq<char>)> {
    let at = first_index(s, c);
    if at < s.len() {
        Some((s.take(at), s.skip(at + 1)))
    } else {
        None
    }
}

pub fn split_text_once(s: &str, c: char) -> (result: Option<(String, String)>)
    ensures
        match result {
            Some(parts) => split_once(s@, c) == Some((parts.0@, parts.1@)),
            None => split_once(s@, c) is None,
        },
{
    let chars = chars_of(s);
    let at = find_char(&chars, c);
    if at >= chars.len() {
        return None;
    }
    let front = subrange_chars(&chars, 0, at);
    let back = subrange_chars(&chars, at + 1, chars.len());
    assert(front@ =~= s@.take(at as int));
    assert(back@ =~= s@.skip(at + 1));
    Some((string_of(&front), string_of(&back)))
}

// ---------------------------------------------------------------------------
// Templates
// ---------------------------------------------------------------------------

/// A text with its holes filled, one after the other.
pub open spec fn filled(text: Seq<char>, holes: Seq<(Seq<char>, Seq<char>)>) -> Seq<char>
    decreases holes.len(),
{
    if holes.len() == 0 {
        text
    } else {
        replace(filled(text, holes.drop_last()), holes.last().0, holes.last().1)
    }
}

pub open spec fn hole_views(holes: Seq<(&str, String)>) -> Seq<(Seq<char>, Seq<char>)> {
    Seq::new(holes.len(), |i: int| (holes[i].0@, holes[i].1@))
}

pub fn fill(text: &str, holes: &Vec<(&str, String)>) -> (result: String)
    requires
        forall|i: int| 0 <= i < holes.len() ==> (#[trigger] holes@[i]).0@.len() > 0,
    ensures
        result@ == filled(text@, hole_views(holes@)),
{
    let mut result = text.to_owned();
    let mut i: usize = 0;
    assert(hole_views(holes@).take(0) =~= Seq::<(Seq<char>, Seq<char>)>::empty());
    while i < holes.len()
        invariant
            i <= holes.len(),
            forall|k: int| 0 <= k < holes.len() ==> (#[trigger] holes@[k]).0@.len() > 0,
            result@ == filled(text@, hole_views(holes@).take(i as int)),
        decreases holes.len() - i,
    {
        let ghost head = hole_views(holes@).take(i + 1);
        assert(head.drop_last() =~= hole_views(holes@).take(i as int));
        assert(head.last() == (holes@[i as int].0@, holes@[i as int].1@));
        result = replaced(result.as_str(), holes[i].0, holes[i].1.as_str());
        i += 1;
    }
    assert(hole_views(holes@).take(i as int) =~= hole_views(holes@));
    result
}

/// `pieces` with `values` between them.
pub open spec fn interleaved(pieces: Seq<Seq<char>>, values: Seq<Seq<char>>) -> Seq<char>
    decreases values.len(),
{
    if pieces.len() == 0 {
        Seq::empty()
    } else if values.len() == 0 || pieces.len() == 1 {
        pieces[0]
    } else {
        pieces[0] + values[0] + interleaved(pieces.drop_first(), values.drop_first())
    }
}

/// A text whose braces are filled with values, the first with the first and so on.
pub open spec fn formatted(template: Seq<char>, values: Seq<Seq<char>>) -> Seq<char> {
    interleaved(split_on(template, "{}"@), values)
}

pub fn format_text(template: &str, values: &Vec<String>) -> (result: String)
    ensures
        result@ == formatted(template@, texts(values@)),
{
    proof {
        reveal_strlit("{}");
    }
    let pieces = split_text_on(template, "{}");
    let ghost all = texts(pieces@);
    let ghost given = texts(values@);
    let mut result = String::new();
    let mut i: usize = 0;
    assert(all.skip(0) =~= all);
    assert(given.skip(0) =~= given);
    assert(result@ + interleaved(all, given) =~= interleaved(all, given));
    while i < pieces.len() && i < values.len() && pieces.len() - i > 1
        invariant
            i <= pieces.len(),
            i <= values.len(),
            all == texts(pieces@),
            given == texts(values@),
            pieces.len() > 0 ==> i < pieces.len(),
            interleaved(all, given) == result@ + interleaved(
                all.skip(i as int),
                given.skip(i as int),
            ),
        decreases pieces.len() - i,
    {
        let ghost before = result@;
        assert(all.skip(i as int).drop_first() =~= all.skip(i + 1));
        assert(given.skip(i as int).drop_first() =~= given.skip(i + 1));
        assert(all.skip(i as int)[0] == pieces@[i as int]@);
        assert(given.skip(i as int)[0] == values@[i as int]@);
        result.append(pieces[i].as_str());
        result.append(values[i].as_str());
        let ghost rest = interleaved(all.skip(i + 1), given.skip(i + 1));
        assert(before + (pieces@[i as int]@ + values@[i as int]@ + rest) =~= result@ + rest);
        i += 1;
    }
    if i < pieces.len() {
        assert(all.skip(i as int)[0] == pieces@[i as int]@);
        result.append(pieces[i].as_str());
    } else {
        assert(result@ + Seq::<char>::empty() =~= result@);
    }
    result
}

// ---------------------------------------------------------------------------
// Laws
// ---------------------------------------------------------------------------

proof fn lemma_trim_start(s: Seq<char>) -> (from: int)
    ensures
        0 <= from <= s.len(),
        trim_start(s) == s.skip(from),
        forall|k: int| 0 <= k < from ==> is_space(#[trigger] s[k]),
        from < s.len() ==> !is_space(s[from]),
    decreases s.len(),
{
    if s.len() > 0 && is_space(s[0]) {
        let rest = lemma_trim_start(s.drop_first());
        assert(s.drop_first().skip(rest) =~= s.skip(rest + 1));
        assert forall|k: int| 0 <= k < rest + 1 implies is_space(#[trigger] s[k]) by {
            if k > 0 {
                assert(s.drop_first()[k - 1] == s[k]);
            }
        }
        if rest + 1 < s.len() {
            assert(s.drop_first()[rest] == s[rest + 1]);
        }
        rest + 1
    } else {
        assert(s.skip(0) =~= s);
        0
    }
}

proof fn lemma_trim_end(s: Seq<char>) -> (to: int)
    ensures
        0 <= to <= s.len(),
        trim_end(s) == s.take(to),
        forall|k: int| to <= k < s.len() ==> is_space(#[trigger] s[k]),
        to > 0 ==> !is_space(s[to - 1]),
    decreases s.len(),
{
    if s.len() > 0 && is_space(s.last()) {
        let to = lemma_trim_end(s.drop_last());
        assert(s.drop_last().take(to) =~= s.take(to));
        assert forall|k: int| to <= k < s.len() implies is_space(#[trigger] s[k]) by {
            if k < s.len() - 1 {
                assert(s.drop_last()[k] == s[k]);
            }
        }
        to
    } else {
        assert(s.take(s.len() as int) =~= s);
        s.len() as int
    }
}

/// What trimming leaves is the text between the first and the last character that is no
/// space: only spaces were taken away, and none is left at either end.
pub proof fn law_trimming_takes_the_space_around(s: Seq<char>)
    ensures
        exists|from: int, to: int| #[trigger]
            is_between(s, from, to) && trim(s) == s.subrange(from, to) && (forall|k: int|
                0 <= k < from || to <= k < s.len() ==> is_space(#[trigger] s[k])),
        trim(s).len() > 0 ==> !is_space(trim(s)[0]) && !is_space(trim(s).last()),
        trim(trim(s)) == trim(s),
        trim(s).len() == 0 <==> forall|k: int| 0 <= k < s.len() ==> is_space(#[trigger] s[k]),
{
    let from = lemma_trim_start(s);
    let rest = s.skip(from);
    let to = lemma_trim_end(rest);
    assert(rest.take(to) =~= s.subrange(from, from + to));
    assert(is_between(s, from, from + to));
    assert forall|k: int| 0 <= k < from || from + to <= k < s.len() implies is_space(
        #[trigger] s[k],
    ) by {
        if k >= from + to {
            assert(rest[k - from] == s[k]);
        }
    }
    let t = trim(s);
    if t.len() > 0 {
        assert(t[0] == s[from]);
        assert(t.last() == rest[to - 1]);
        let again = lemma_trim_start(t);
        assert(again == 0);
        assert(t.skip(0) =~= t);
        let end = lemma_trim_end(t);
        assert(end == t.len()) by {
            if end < t.len() {
                assert(is_space(t[t.len() - 1]));
            }
        }
        assert(t.take(t.len() as int) =~= t);
        assert(!is_space(s[from]));
    } else {
        assert(t =~= Seq::<char>::empty());
        assert forall|k: int| 0 <= k < s.len() implies is_space(#[trigger] s[k]) by {
        }
    }
}

pub open spec fn is_between(s: Seq<char>, from: int, to: int) -> bool {
    0 <= from <= to <= s.len()
}

/// Blanks, tabs and line ends are spaces; no printable character of ASCII is.
pub proof fn law_which_characters_are_spaces(c: char)
    ensures
        c == ' ' || c == '\t' || c == '\n' || c == '\r' ==> is_space(c),
        '!' <= c <= '~' ==> !is_space(c),
{
}

/// Lowering changes the capital letters of ASCII and nothing else, keeps the length, and is
/// done once.
pub proof fn law_lowering_changes_capitals(s: Seq<char>, i: int)
    requires
        0 <= i < s.len(),
    ensures
        lower(s).len() == s.len(),
        'A' <= s[i] <= 'Z' ==> lower(s)[i] as u32 == s[i] as u32 + 32,
        !('A' <= s[i] <= 'Z') ==> lower(s)[i] == s[i],
        !('A' <= lower(s)[i] <= 'Z'),
        lower(lower(s)) == lower(s),
{
    assert forall|k: int| 0 <= k < s.len() implies !('A' <= #[trigger] lower(s)[k] <= 'Z') by {
        let c = s[k];
        if 'A' <= c <= 'Z' {
            assert(lower(s)[k] as u32 == c as u32 + 32);
        }
    }
    assert(lower(lower(s)) =~= lower(s));
}

/// Splitting and joining undo each other, and no part holds the separator.
pub proof fn law_splitting_loses_nothing(s: Seq<char>, sep: char)
    ensures
        join(split(s, sep), seq![sep]) == s,
        forall|i: int, k: int|
            0 <= i < split(s, sep).len() && 0 <= k < split(s, sep)[i].len()
                ==> #[trigger] split(s, sep)[i][k] != sep,
        split(s, sep).len() > 0,
    decreases s.len(),
{
    if s.len() > 0 {
        let head = s.drop_last();
        let before = split(head, sep);
        let parts = split(s, sep);
        law_splitting_loses_nothing(head, sep);
        assert(s =~= head.push(s.last()));
        if s.last() == sep {
            assert(parts.drop_last() =~= before);
            assert(join(parts, seq![sep]) =~= join(before, seq![sep]) + seq![sep]);
            assert forall|i: int, k: int|
                0 <= i < parts.len() && 0 <= k < parts[i].len() implies #[trigger] parts[i][k]
                != sep by {
                if i < before.len() {
                    assert(parts[i] == before[i]);
                    assert(before[i][k] != sep);
                }
            }
        } else {
            let front = before.drop_last();
            assert(parts.drop_last() =~= front);
            assert(parts.last() == before.last().push(s.last()));
            if before.len() == 1 {
                assert(join(parts, seq![sep]) == parts[0]);
                assert(join(before, seq![sep]) == before[0]);
            } else {
                assert(join(parts, seq![sep]) == join(front, seq![sep]) + seq![sep]
                    + parts.last());
                assert(join(before, seq![sep]) == join(front, seq![sep]) + seq![sep]
                    + before.last());
                assert(join(parts, seq![sep]) =~= join(before, seq![sep]).push(s.last()));
            }
            assert(join(parts, seq![sep]) =~= s);
            assert forall|i: int, k: int|
                0 <= i < parts.len() && 0 <= k < parts[i].len() implies #[trigger] parts[i][k]
                != sep by {
                if i < front.len() {
                    assert(parts[i] == before[i]);
                    assert(before[i][k] != sep);
                } else if k < before.last().len() {
                    assert(before[before.len() - 1][k] != sep);
                    assert(parts[i][k] == before.last()[k]);
                }
            }
        }
    }
}

proof fn lemma_join_first(parts: Seq<Seq<char>>, sep: Seq<char>)
    requires
        parts.len() > 1,
    ensures
        join(parts, sep) == parts[0] + sep + join(parts.drop_first(), sep),
    decreases parts.len(),
{
    let rest = parts.drop_first();
    if parts.len() == 2 {
        assert(join(parts.drop_last(), sep) == parts[0]);
        assert(join(rest, sep) == parts[1]);
    } else {
        assert(parts.drop_last().drop_first() =~= rest.drop_last());
        lemma_join_first(parts.drop_last(), sep);
        assert(join(rest, sep) == join(rest.drop_last(), sep) + sep + rest.last());
        assert(join(parts, sep) =~= parts[0] + sep + join(rest, sep));
    }
}

proof fn lemma_first_at_range(s: Seq<char>, needle: Seq<char>, from: int)
    requires
        0 <= from,
    ensures
        ({
            let at = first_at(s, needle, from);
            at == -1 || (from <= at && has_at(s, needle, at))
        }),
    decreases s.len() - from + 1,
{
    if from + needle.len() <= s.len() && !has_at(s, needle, from) {
        lemma_first_at_range(s, needle, from + 1);
    }
}

/// The parts between the places of a text, put together with that text, are the whole again:
/// putting a text in its own place changes nothing, and neither does putting any in the
/// place of one that does not occur.
pub proof fn law_replacing_keeps_the_rest(s: Seq<char>, from: Seq<char>, to: Seq<char>)
    requires
        from.len() > 0,
    ensures
        replace(s, from, from) == s,
        !contains(s, from) ==> replace(s, from, to) == s,
        contains(s, from) ==> split_on(s, from).len() > 1,
    decreases s.len(),
{
    let at = first_at(s, from, 0);
    lemma_first_at_range(s, from, 0);
    if at < 0 {
        assert(split_on(s, from) =~= seq![s]);
        if contains(s, from) {
            let place = choose|place: int| has_at(s, from, place);
            lemma_first_at_finds(s, from, 0, place);
        }
    } else {
        assert(has_at(s, from, at));
        let rest = s.skip(at + from.len());
        law_replacing_keeps_the_rest(rest, from, to);
        let parts = split_on(s, from);
        lemma_split_on_nonempty(rest, from);
        assert(parts =~= seq![s.take(at)] + split_on(rest, from));
        assert(parts.drop_first() =~= split_on(rest, from));
        lemma_join_first(parts, from);
        assert(s.subrange(at, at + from.len()) == from);
        assert(s.take(at) + s.subrange(at, at + from.len()) + rest =~= s);
    }
}

proof fn lemma_first_at_finds(s: Seq<char>, needle: Seq<char>, from: int, place: int)
    requires
        0 <= from <= place,
        has_at(s, needle, place),
    ensures
        first_at(s, needle, from) >= 0,
    decreases place - from,
{
    if from < place && !has_at(s, needle, from) {
        lemma_first_at_finds(s, needle, from + 1, place);
    }
}

proof fn lemma_split_on_nonempty(s: Seq<char>, sep: Seq<char>)
    ensures
        split_on(s, sep).len() > 0,
{
}

/// A text in which another does not occur is not split at it.
pub proof fn lemma_whole_text(s: Seq<char>, sep: Seq<char>)
    requires
        !contains(s, sep),
    ensures
        split_on(s, sep) == seq![s],
{
    lemma_first_at_range(s, sep, 0);
    assert(split_on(s, sep) =~= seq![s]);
}

proof fn lemma_digit_value(d: nat)
    requires
        d < 10,
    ensures
        is_digit(digit_char(d)),
        digit_char(d) as nat - '0' as nat == d,
        d > 0 ==> digit_char(d) != '0',
{
}

/// A number reads back from its digits, which begin with no zero but for zero itself.
pub proof fn law_a_number_reads_back(n: nat, max: nat)
    ensures
        all_digits(decimal(n)),
        digits_value(decimal(n)) == n,
        decimal(n).len() > 0,
        n > 0 ==> decimal(n)[0] != '0',
        n <= max ==> parse_unsigned(decimal(n), max) == Some(n),
        n > max ==> parse_unsigned(decimal(n), max) is None,
    decreases n,
{
    if n < 10 {
        lemma_digit_value(n);
        let s = decimal(n);
        assert(s.drop_last() =~= Seq::<char>::empty());
        assert(s.last() == digit_char(n));
        assert(digits_value(s.drop_last()) == 0);
    } else {
        lemma_digit_value(n % 10);
        law_a_number_reads_back(n / 10, max);
        let head = decimal(n / 10);
        let s = decimal(n);
        assert(s == head.push(digit_char(n % 10)));
        assert(s.drop_last() =~= head);
        assert forall|i: int| 0 <= i < s.len() implies is_digit(#[trigger] s[i]) by {
            if i < head.len() {
                assert(s[i] == head[i]);
            }
        }
        assert(s[0] == head[0]);
    }
    assert(is_digit(decimal(n)[0]));
    assert(unsigned_body(decimal(n)) == decimal(n));
}

/// Two numbers are written alike only where they are the same; a number below zero begins
/// with a hyphen, no other does.
pub proof fn law_numbers_are_told_apart(a: int, b: int)
    ensures
        decimal_signed(a) == decimal_signed(b) ==> a == b,
        a < 0 <==> decimal_signed(a)[0] == '-',
{
    law_a_number_reads_back(if a < 0 {
        (-a) as nat
    } else {
        a as nat
    }, 0);
    law_a_number_reads_back(if b < 0 {
        (-b) as nat
    } else {
        b as nat
    }, 0);
    if a >= 0 {
        assert(is_digit(decimal(a as nat)[0]));
    } else {
        assert(decimal_signed(a).drop_first() =~= decimal((-a) as nat));
    }
    if b >= 0 {
        assert(is_digit(decimal(b as nat)[0]));
    } else {
        assert(decimal_signed(b).drop_first() =~= decimal((-b) as nat));
    }
}

/// A text that is cut at a character comes apart around its first place.
pub proof fn law_cutting_at_the_first_place(s: Seq<char>, c: char)
    ensures
        split_once(s, c) matches Some((left, right)) ==> left + seq![c] + right == s && forall|k: int|
            0 <= k < left.len() ==> #[trigger] left[k] != c,
        split_once(s, c) is None <==> forall|k: int| 0 <= k < s.len() ==> #[trigger] s[k] != c,
{
    lemma_first_index_is_first(s, c);
    let at = first_index(s, c);
    if at < s.len() {
        assert(s.take(at) + seq![c] + s.skip(at + 1) =~= s);
    }
}

proof fn lemma_first_index_is_first(s: Seq<char>, c: char)
    ensures
        0 <= first_index(s, c) <= s.len(),
        first_index(s, c) < s.len() ==> s[first_index(s, c)] == c,
        forall|k: int| 0 <= k < first_index(s, c) ==> #[trigger] s[k] != c,
    decreases s.len(),
{
    if s.len() > 0 && s[0] != c {
        let rest = s.drop_first();
        lemma_first_index_is_first(rest, c);
        assert forall|k: int| 0 <= k < first_index(s, c) implies #[trigger] s[k] != c by {
            if k > 0 {
                assert(rest[k - 1] == s[k]);
            }
        }
    }
}

/// Words are never empty and hold no space; a text without spaces is its only word.
pub proof fn law_words_hold_no_space(s: Seq<char>)
    ensures
        forall|i: int| 0 <= i < words(s).len() ==> (#[trigger] words(s)[i]).len() > 0,
        forall|i: int, k: int|
            0 <= i < words(s).len() && 0 <= k < words(s)[i].len() ==> !is_space(
                #[trigger] words(s)[i][k],
            ),
        s.len() > 0 && !is_space(s.last()) ==> words(s).len() > 0,
        s.len() > 0 && (forall|k: int| 0 <= k < s.len() ==> !is_space(#[trigger] s[k])) ==> words(s)
            == seq![s],
    decreases s.len(),
{
    if s.len() > 0 {
        let head = s.drop_last();
        let before = words(head);
        let all = words(s);
        law_words_hold_no_space(head);
        if !is_space(s.last()) && s.len() > 1 && !is_space(s[s.len() - 2]) {
            assert(head.last() == s[s.len() - 2]);
            assert forall|i: int| 0 <= i < all.len() implies (#[trigger] all[i]).len() > 0 by {
                if i < before.len() - 1 {
                    assert(all[i] == before[i]);
                }
            }
            assert forall|i: int, k: int|
                0 <= i < all.len() && 0 <= k < all[i].len() implies !is_space(
                #[trigger] all[i][k],
            ) by {
                if i < before.len() - 1 {
                    assert(all[i] == before[i]);
                    assert(!is_space(before[i][k]));
                } else if k < before.last().len() {
                    assert(!is_space(before[before.len() - 1][k]));
                    assert(all[i][k] == before.last()[k]);
                }
            }
            if forall|k: int| 0 <= k < s.len() ==> !is_space(#[trigger] s[k]) {
                assert forall|k: int| 0 <= k < head.len() implies !is_space(
                    #[trigger] head[k],
                ) by {
                    assert(head[k] == s[k]);
                }
                assert(before == seq![head]);
                assert(head.push(s.last()) =~= s);
                assert(all =~= seq![s]);
            }
        } else if !is_space(s.last()) {
            assert forall|i: int| 0 <= i < all.len() implies (#[trigger] all[i]).len() > 0 by {
                if i < before.len() {
                    assert(all[i] == before[i]);
                }
            }
            assert forall|i: int, k: int|
                0 <= i < all.len() && 0 <= k < all[i].len() implies !is_space(
                #[trigger] all[i][k],
            ) by {
                if i < before.len() {
                    assert(all[i] == before[i]);
                    assert(!is_space(before[i][k]));
                }
            }
            if s.len() == 1 {
                assert(before =~= Seq::<Seq<char>>::empty());
                assert(seq![s.last()] =~= s);
                assert(all =~= seq![s]);
            } else {
                assert(is_space(s[s.len() - 2]));
            }
        } else {
            assert(is_space(s[s.len() - 1]));
        }
    }
}

/// The first characters of a text are a beginning of it, and all of it where it is no
/// longer.
pub proof fn law_first_characters_begin_the_text(s: Seq<char>, n: nat)
    ensures
        first_chars(s, n).len() <= n,
        s.len() <= n ==> first_chars(s, n) == s,
        s.len() > n ==> first_chars(s, n).len() == n,
        forall|i: int| 0 <= i < first_chars(s, n).len() ==> #[trigger] first_chars(s, n)[i] == s[i],
{
}

/// Taking a character off the end takes all of it that stands there, and nothing else.
pub proof fn law_taking_a_character_off_the_end(s: Seq<char>, c: char)
    ensures
        trim_end_char(s, c).len() <= s.len(),
        forall|i: int|
            0 <= i < trim_end_char(s, c).len() ==> #[trigger] trim_end_char(s, c)[i] == s[i],
        forall|i: int| trim_end_char(s, c).len() <= i < s.len() ==> #[trigger] s[i] == c,
        trim_end_char(s, c).len() > 0 ==> trim_end_char(s, c).last() != c,
    decreases s.len(),
{
    if s.len() > 0 && s.last() == c {
        let head = s.drop_last();
        law_taking_a_character_off_the_end(head, c);
        assert forall|i: int| 0 <= i < trim_end_char(s, c).len() implies #[trigger] trim_end_char(
            s,
            c,
        )[i] == s[i] by {
            assert(head[i] == s[i]);
        }
        assert forall|i: int| trim_end_char(s, c).len() <= i < s.len() implies #[trigger] s[i]
            == c by {
            if i < head.len() {
                assert(head[i] == s[i]);
            }
        }
    }
}

proof fn lemma_split_without_separator(s: Seq<char>, sep: char)
    requires
        forall|k: int| 0 <= k < s.len() ==> #[trigger] s[k] != sep,
    ensures
        split(s, sep) == seq![s],
    decreases s.len(),
{
    if s.len() == 0 {
        assert(s =~= Seq::<char>::empty());
        assert(split(s, sep) =~= seq![s]);
    } else {
        let head = s.drop_last();
        assert forall|k: int| 0 <= k < head.len() implies #[trigger] head[k] != sep by {
            assert(head[k] == s[k]);
        }
        lemma_split_without_separator(head, sep);
        assert(s[s.len() - 1] != sep);
        assert(head.push(s.last()) =~= s);
        assert(split(s, sep) =~= seq![s]);
    }
}

/// Lines hold no line end. A line is the same with or without its end, and with the end of
/// either kind; one more line comes behind the others.
pub proof fn law_lines_end_at_line_ends(s: Seq<char>, line: Seq<char>)
    requires
        forall|k: int| 0 <= k < line.len() ==> #[trigger] line[k] != '\n' && line[k] != '\r',
        line.len() > 0,
    ensures
        lines(line) == seq![line],
        lines(line + seq!['\n']) == seq![line],
        lines(line + seq!['\r'] + seq!['\n']) == seq![line],
        lines(Seq::<char>::empty()).len() == 0,
        forall|i: int, k: int|
            0 <= i < lines(s).len() && 0 <= k < lines(s)[i].len() ==> #[trigger] lines(s)[i][k]
                != '\n',
{
    lemma_split_without_separator(line, '\n');
    assert(lines(line) =~= seq![line]);
    let ended = line + seq!['\n'];
    assert(ended.drop_last() =~= line);
    assert(split(ended, '\n') =~= seq![line, Seq::<char>::empty()]);
    assert(split(ended, '\n').drop_last() =~= seq![line]);
    assert(line.last() == line[line.len() - 1]);
    assert(strip_return(line) == line);
    assert(lines(ended) =~= seq![line]);
    let returned = line + seq!['\r'];
    assert forall|k: int| 0 <= k < returned.len() implies #[trigger] returned[k] != '\n' by {
    }
    lemma_split_without_separator(returned, '\n');
    let both = returned + seq!['\n'];
    assert(both.drop_last() =~= returned);
    assert(split(both, '\n') =~= seq![returned, Seq::<char>::empty()]);
    assert(split(both, '\n').drop_last() =~= seq![returned]);
    assert(returned.drop_last() =~= line);
    assert(strip_return(returned) == line);
    assert(lines(both) =~= seq![line]);
    law_splitting_loses_nothing(s, '\n');
    let parts = split(s, '\n');
    assert forall|i: int, k: int|
        0 <= i < lines(s).len() && 0 <= k < lines(s)[i].len() implies #[trigger] lines(s)[i][k]
        != '\n' by {
        if i < parts.len() - 1 {
            assert(lines(s)[i] == strip_return(parts[i]));
            assert(parts[i][k] != '\n');
        } else {
            assert(parts[parts.len() - 1][k] != '\n');
        }
    }
    assert(parts.len() > 0);
    let nothing = Seq::<char>::empty();
    assert(split(nothing, '\n') =~= seq![nothing]);
    assert(split(nothing, '\n').drop_last() =~= Seq::<Seq<char>>::empty());
}

/// What is left without its leading `c`s is the end of the text, and begins with another
/// character.
pub proof fn law_only_the_leading_characters_go(s: Seq<char>, c: char)
    ensures
        ({
            let left = trim_start_char(s, c);
            &&& left.len() <= s.len()
            &&& left == s.skip(s.len() - left.len())
            &&& left.len() > 0 ==> left[0] != c
            &&& forall|i: int| 0 <= i < s.len() - left.len() ==> #[trigger] s[i] == c
        }),
    decreases s.len(),
{
    if s.len() > 0 && s[0] == c {
        let rest = s.drop_first();
        law_only_the_leading_characters_go(rest, c);
        let left = trim_start_char(rest, c);
        assert(rest.skip(rest.len() - left.len()) =~= s.skip(s.len() - left.len()));
        assert forall|i: int| 0 <= i < s.len() - left.len() implies #[trigger] s[i] == c by {
            if i > 0 {
                assert(rest[i - 1] == s[i]);
            }
        }
    } else {
        assert(s.skip(0) =~= s);
    }
}

} // verus!
