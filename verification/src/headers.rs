//! Request headers as the gateways read them.

use vstd::prelude::*;
use crate::text::{eq_ignore_case, lower, nonempty_trim, opt_text, same_ignore_case, strs, trim,
    trimmed_nonempty};

verus! {

/// A list of headers in the order of the request. A value that is not visible
/// text stands as nothing.
pub struct Headers {
    pub entries: Vec<(String, Option<String>)>,
}

/// The value of the first header of the given name, letters of either case being
/// the same.
pub open spec fn first_value(
    entries: Seq<(String, Option<String>)>,
    name: Seq<char>,
) -> Option<Seq<char>>
    decreases entries.len(),
{
    if entries.len() == 0 {
        None
    } else if eq_ignore_case(entries[0].0@, name) {
        opt_text(entries[0].1)
    } else {
        first_value(entries.drop_first(), name)
    }
}

impl Headers {
    /// The trimmed value of a header, where it is not blank.
    pub open spec fn value(&self, name: Seq<char>) -> Option<Seq<char>> {
        match first_value(self.entries@, name) {
            Some(text) => nonempty_trim(text),
            None => None,
        }
    }
}

pub fn header_value(headers: &Headers, name: &str) -> (value: Option<String>)
    ensures
        opt_text(value) == headers.value(name@),
{
    let mut i: usize = 0;
    assert(headers.entries@.skip(0) =~= headers.entries@);
    while i < headers.entries.len()
        invariant
            i <= headers.entries.len(),
            first_value(headers.entries@, name@) == first_value(
                headers.entries@.skip(i as int),
                name@,
            ),
        decreases headers.entries.len() - i,
    {
        assert(headers.entries@.skip(i as int).drop_first() =~= headers.entries@.skip(
            i as int + 1,
        ));
        if same_ignore_case(headers.entries[i].0.as_str(), name) {
            return match &headers.entries[i].1 {
                Some(text) => trimmed_nonempty(text.as_str()),
                None => None,
            };
        }
        i += 1;
    }
    None
}

/// The first of the named headers that has a value.
pub open spec fn first_of(headers: Headers, names: Seq<Seq<char>>) -> Option<Seq<char>>
    decreases names.len(),
{
    if names.len() == 0 {
        None
    } else {
        match headers.value(names[0]) {
            Some(value) => Some(value),
            None => first_of(headers, names.drop_first()),
        }
    }
}

pub fn first_header_value(headers: &Headers, names: &[&str]) -> (value: Option<String>)
    ensures
        opt_text(value) == first_of(*headers, strs(names@)),
{
    let ghost views = strs(names@);
    let mut i: usize = 0;
    assert(views.skip(0) =~= views);
    while i < names.len()
        invariant
            i <= names.len(),
            views == strs(names@),
            first_of(*headers, views) == first_of(*headers, views.skip(i as int)),
        decreases names.len() - i,
    {
        assert(views.skip(i as int).drop_first() =~= views.skip(i as int + 1));
        let found = header_value(headers, names[i]);
        if found.is_some() {
            return found;
        }
        i += 1;
    }
    None
}

/// There is a header of the given name.
pub open spec fn has_name(entries: Seq<(String, Option<String>)>, name: Seq<char>) -> bool {
    exists|i: int| 0 <= i < entries.len() && eq_ignore_case((#[trigger] entries[i]).0@, name)
}

pub fn has_header(headers: &Headers, name: &str) -> (result: bool)
    ensures
        result == has_name(headers.entries@, name@),
{
    let mut i: usize = 0;
    while i < headers.entries.len()
        invariant
            i <= headers.entries.len(),
            forall|j: int|
                0 <= j < i ==> !eq_ignore_case((#[trigger] headers.entries@[j]).0@, name@),
        decreases headers.entries.len() - i,
    {
        if same_ignore_case(headers.entries[i].0.as_str(), name) {
            return true;
        }
        i += 1;
    }
    false
}

// ---------------------------------------------------------------------------
// Laws
// ---------------------------------------------------------------------------

/// The value of a header is that of the first entry of its name, however it is written,
/// without the space around it; a blank one counts as none.
pub proof fn law_the_first_entry_of_a_name_counts(headers: Headers, name: Seq<char>, i: int)
    requires
        0 <= i < headers.entries@.len(),
        lower(headers.entries@[i].0@) == lower(name),
        forall|k: int|
            0 <= k < i ==> lower((#[trigger] headers.entries@[k]).0@) != lower(name),
    ensures
        headers.entries@[i].1 is None ==> headers.value(name) is None,
        headers.entries@[i].1 matches Some(text) ==> (trim(text@).len() > 0
            ==> headers.value(name) == Some(trim(text@))) && (trim(
            text@,
        ).len() == 0 ==> headers.value(name) is None),
        has_name(headers.entries@, name),
{
    lemma_first_value(headers.entries@, name, i);
}

proof fn lemma_first_value(entries: Seq<(String, Option<String>)>, name: Seq<char>, i: int)
    requires
        0 <= i < entries.len(),
        eq_ignore_case(entries[i].0@, name),
        forall|k: int| 0 <= k < i ==> !eq_ignore_case((#[trigger] entries[k]).0@, name),
    ensures
        first_value(entries, name) == opt_text(entries[i].1),
    decreases entries.len(),
{
    if i > 0 {
        let rest = entries.drop_first();
        assert(!eq_ignore_case(entries[0].0@, name));
        assert forall|k: int| 0 <= k < i - 1 implies !eq_ignore_case(
            (#[trigger] rest[k]).0@,
            name,
        ) by {
            assert(rest[k] == entries[k + 1]);
        }
        lemma_first_value(rest, name, i - 1);
    }
}

/// A header that no entry names has no value.
pub proof fn law_a_missing_header_has_no_value(headers: Headers, name: Seq<char>)
    requires
        forall|k: int|
            0 <= k < headers.entries@.len() ==> lower((#[trigger] headers.entries@[k]).0@) != lower(
                name,
            ),
    ensures
        headers.value(name) is None,
        !has_name(headers.entries@, name),
{
    lemma_no_value(headers.entries@, name);
}

proof fn lemma_no_value(entries: Seq<(String, Option<String>)>, name: Seq<char>)
    requires
        forall|k: int| 0 <= k < entries.len() ==> !eq_ignore_case((#[trigger] entries[k]).0@, name),
    ensures
        first_value(entries, name) is None,
    decreases entries.len(),
{
    if entries.len() > 0 {
        let rest = entries.drop_first();
        assert(!eq_ignore_case(entries[0].0@, name));
        assert forall|k: int| 0 <= k < rest.len() implies !eq_ignore_case(
            (#[trigger] rest[k]).0@,
            name,
        ) by {
            assert(rest[k] == entries[k + 1]);
        }
        lemma_no_value(rest, name);
    }
}

/// Of several names the first that has a value gives it.
pub proof fn law_the_first_name_with_a_value_counts(
    headers: Headers,
    names: Seq<Seq<char>>,
    i: int,
)
    requires
        0 <= i <= names.len(),
        forall|k: int| 0 <= k < i ==> headers.value(#[trigger] names[k]) is None,
        i < names.len() ==> headers.value(names[i]) is Some,
    ensures
        i < names.len() ==> first_of(headers, names) == headers.value(names[i]),
        i == names.len() ==> first_of(headers, names) is None,
    decreases names.len(),
{
    if names.len() > 0 && i > 0 {
        assert(headers.value(names[0]) is None);
        assert forall|k: int| 0 <= k < i - 1 implies headers.value(
            #[trigger] names.drop_first()[k],
        ) is None by {
            assert(names[k + 1] == names.drop_first()[k]);
        }
        law_the_first_name_with_a_value_counts(headers, names.drop_first(), i - 1);
    }
}

} // verus!
