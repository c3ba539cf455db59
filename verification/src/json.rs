//! JSON values. Text is parsed and written by `serde_json`; the tree that the
//! rest of the crate reads and edits is the one declared here.

use vstd::prelude::*;
use crate::text::{nonempty_trim, opt_text, same_text, strs, trimmed_nonempty};

verus! {

/// An integer or float of `serde_json`, carried through unread.
#[verifier::external_type_specification]
#[verifier::external_body]
pub struct ExNumber(serde_json::Number);

/// The clone of a `serde_json::Number` is the same number.
pub assume_specification[ <serde_json::Number as Clone>::clone ](n: &serde_json::Number) -> (result:
    serde_json::Number)
    ensures
        result == *n,
;

/// A JSON tree of `serde_json`.
#[verifier::external_type_specification]
#[verifier::external_body]
pub struct ExValue(serde_json::Value);

/// A JSON value. An object keeps its members as a list of pairs; where a name
/// stands twice, the later pair counts.
#[derive(Debug, PartialEq)]
pub enum Json {
    Null,
    Bool(bool),
    Unsigned(u64),
    Negative(i64),
    Float(serde_json::Number),
    Str(String),
    Array(Vec<Json>),
    Object(Vec<(String, Json)>),
}

/// What a JSON value is: objects are maps, so the order of members is gone.
pub enum JsonView {
    Null,
    Bool(bool),
    Unsigned(u64),
    Negative(i64),
    Float(serde_json::Number),
    Str(Seq<char>),
    Array(Seq<JsonView>),
    Object(Map<Seq<char>, JsonView>),
}

impl View for Json {
    type V = JsonView;

    open spec fn view(&self) -> JsonView
        decreases self,
    {
        match self {
            Json::Null => JsonView::Null,
            Json::Bool(b) => JsonView::Bool(*b),
            Json::Unsigned(n) => JsonView::Unsigned(*n),
            Json::Negative(n) => JsonView::Negative(*n),
            Json::Float(n) => JsonView::Float(*n),
            Json::Str(s) => JsonView::Str(s@),
            Json::Array(items) => JsonView::Array(array_view(items@)),
            Json::Object(members) => JsonView::Object(members_view(members@)),
        }
    }
}

pub open spec fn array_view(items: Seq<Json>) -> Seq<JsonView>
    decreases items,
{
    if items.len() == 0 {
        Seq::empty()
    } else {
        array_view(items.drop_last()).push(items.last().view())
    }
}

pub open spec fn members_view(members: Seq<(String, Json)>) -> Map<Seq<char>, JsonView>
    decreases members,
{
    if members.len() == 0 {
        Map::empty()
    } else {
        members_view(members.drop_last()).insert(members.last().0@, members.last().1.view())
    }
}


pub proof fn lemma_array_view(items: Seq<Json>)
    ensures
        array_view(items).len() == items.len(),
        forall|i: int| 0 <= i < items.len() ==> #[trigger] array_view(items)[i] == items[i]@,
    decreases items.len(),
{
    if items.len() > 0 {
        lemma_array_view(items.drop_last());
        assert(array_view(items) == array_view(items.drop_last()).push(items.last().view()));
        assert forall|i: int| 0 <= i < items.len() implies #[trigger] array_view(items)[i]
            == items[i]@ by {
            if i < items.len() - 1 {
                assert(array_view(items.drop_last())[i] == items.drop_last()[i]@);
            }
        }
    }
}

pub proof fn lemma_array_view_push(items: Seq<Json>, item: Json)
    ensures
        array_view(items.push(item)) == array_view(items).push(item@),
{
    assert(items.push(item).drop_last() =~= items);
}

pub proof fn lemma_members_view_push(members: Seq<(String, Json)>, member: (String, Json))
    ensures
        members_view(members.push(member)) == members_view(members).insert(
            member.0@,
            member.1@,
        ),
{
    assert(members.push(member).drop_last() =~= members);
}

impl JsonView {
    /// The member `key` of an object.
    pub open spec fn get(self, key: Seq<char>) -> Option<JsonView> {
        match self {
            JsonView::Object(m) => if m.dom().contains(key) {
                Some(m[key])
            } else {
                None
            },
            _ => None,
        }
    }

    pub open spec fn as_str(self) -> Option<Seq<char>> {
        match self {
            JsonView::Str(s) => Some(s),
            _ => None,
        }
    }

    pub open spec fn as_bool(self) -> Option<bool> {
        match self {
            JsonView::Bool(b) => Some(b),
            _ => None,
        }
    }

    /// The value as an unsigned integer.
    pub open spec fn as_u64(self) -> Option<u64> {
        match self {
            JsonView::Unsigned(n) => Some(n),
            _ => None,
        }
    }

    /// The value as a signed integer, where it is one that fits.
    pub open spec fn as_i64(self) -> Option<i64> {
        match self {
            JsonView::Unsigned(n) => if n <= i64::MAX {
                Some(n as i64)
            } else {
                None
            },
            JsonView::Negative(n) => Some(n),
            _ => None,
        }
    }

    /// The text at `key` of an object.
    pub open spec fn get_str(self, key: Seq<char>) -> Option<Seq<char>> {
        match self.get(key) {
            Some(v) => v.as_str(),
            None => None,
        }
    }

    /// The value at `inner` of the object at `outer`.
    pub open spec fn get2(self, outer: Seq<char>, inner: Seq<char>) -> Option<JsonView> {
        match self.get(outer) {
            Some(v) => v.get(inner),
            None => None,
        }
    }

    /// The text at `inner` of the object at `outer`.
    pub open spec fn get2_str(self, outer: Seq<char>, inner: Seq<char>) -> Option<Seq<char>> {
        match self.get2(outer, inner) {
            Some(v) => v.as_str(),
            None => None,
        }
    }

    /// The object with `key` set to `value`.
    pub open spec fn with(self, key: Seq<char>, value: JsonView) -> JsonView {
        match self {
            JsonView::Object(m) => JsonView::Object(m.insert(key, value)),
            _ => self,
        }
    }

    /// The object without the member `key`.
    pub open spec fn without(self, key: Seq<char>) -> JsonView {
        match self {
            JsonView::Object(m) => JsonView::Object(m.remove(key)),
            _ => self,
        }
    }
}

/// The object without members.
pub open spec fn empty_object() -> JsonView {
    JsonView::Object(Map::empty())
}

/// The view of an optional value.
pub open spec fn opt_json(value: Option<Json>) -> Option<JsonView> {
    match value {
        Some(v) => Some(v@),
        None => None,
    }
}

/// The view of an optional borrowed value.
pub open spec fn opt_json_ref(value: Option<&Json>) -> Option<JsonView> {
    match value {
        Some(v) => Some(v@),
        None => None,
    }
}

pub(crate) fn find_member(members: &Vec<(String, Json)>, key: &str) -> (result: Option<usize>)
    ensures
        match result {
            Some(i) => {
                &&& i < members.len()
                &&& members@[i as int].0@ == key@
                &&& members_view(members@).dom().contains(key@)
                &&& members_view(members@)[key@] == members@[i as int].1@
            },
            None => {
                &&& !members_view(members@).dom().contains(key@)
                &&& forall|k: int| 0 <= k < members.len() ==> (#[trigger] members@[k]).0@ != key@
            },
        },
{
    let mut n: usize = members.len();
    assert(members@.take(n as int) =~= members@);
    while n > 0
        invariant
            n <= members.len(),
            members_view(members@).dom().contains(key@) == members_view(
                members@.take(n as int),
            ).dom().contains(key@),
            members_view(members@.take(n as int)).dom().contains(key@) ==> members_view(
                members@,
            )[key@] == members_view(members@.take(n as int))[key@],
            forall|k: int| n <= k < members.len() ==> (#[trigger] members@[k]).0@ != key@,
        decreases n,
    {
        let ghost head = members@.take(n as int);
        assert(head.drop_last() =~= members@.take(n - 1));
        assert(head.last() == members@[n - 1]);
        proof {
            lemma_members_view_step(head);
        }
        if same_text(members[n - 1].0.as_str(), key) {
            return Some(n - 1);
        }
        n -= 1;
    }
    None
}

proof fn lemma_members_view_step(members: Seq<(String, Json)>)
    requires
        members.len() > 0,
    ensures
        members_view(members) == members_view(members.drop_last()).insert(
            members.last().0@,
            members.last().1@,
        ),
{
}

proof fn lemma_members_view_absent(members: Seq<(String, Json)>, key: Seq<char>)
    requires
        forall|k: int| 0 <= k < members.len() ==> (#[trigger] members[k]).0@ != key,
    ensures
        !members_view(members).dom().contains(key),
    decreases members.len(),
{
    if members.len() > 0 {
        let head = members.drop_last();
        assert forall|k: int| 0 <= k < head.len() implies (#[trigger] head[k]).0@ != key by {
            assert(head[k] == members[k]);
        }
        lemma_members_view_absent(head, key);
        lemma_members_view_step(members);
        assert(members[members.len() - 1].0@ != key);
    }
}

proof fn lemma_members_view_remove(members: Seq<(String, Json)>, i: int, key: Seq<char>)
    requires
        0 <= i < members.len(),
        members[i].0@ == key,
    ensures
        members_view(members.remove(i)).remove(key) =~= members_view(members).remove(key),
    decreases members.len(),
{
    let head = members.drop_last();
    if i == members.len() - 1 {
        assert(members.remove(i) =~= head);
        lemma_members_view_step(members);
        assert(members_view(head).insert(key, members.last().1@).remove(key) =~= members_view(
            head,
        ).remove(key));
    } else {
        lemma_members_view_step(members);
        lemma_members_view_step(members.remove(i));
        lemma_members_view_remove(head, i, key);
        assert(members.remove(i).drop_last() =~= head.remove(i));
        assert(members.remove(i).last() == members.last());
        let a = members_view(head.remove(i));
        let b = members_view(head);
        let k = members.last().0@;
        let v = members.last().1@;
        assert(members_view(members.remove(i)) == a.insert(k, v));
        assert(members_view(members) == b.insert(k, v));
        if k == key {
            assert(a.insert(k, v).remove(key) =~= a.remove(key));
            assert(b.insert(k, v).remove(key) =~= b.remove(key));
        } else {
            assert(a.insert(k, v).remove(key) =~= a.remove(key).insert(k, v));
            assert(b.insert(k, v).remove(key) =~= b.remove(key).insert(k, v));
        }
    }
}

fn remove_members(members: &mut Vec<(String, Json)>, key: &str)
    ensures
        members_view(final(members)@) == members_view(old(members)@).remove(key@),
{
    let mut i: usize = 0;
    while i < members.len()
        invariant
            i <= members.len(),
            members_view(members@).remove(key@) == members_view(old(members)@).remove(key@),
            forall|k: int| 0 <= k < i ==> (#[trigger] members@[k]).0@ != key@,
        decreases members.len() - i,
    {
        if same_text(members[i].0.as_str(), key) {
            proof {
                lemma_members_view_remove(members@, i as int, key@);
            }
            members.remove(i);
        } else {
            i += 1;
        }
    }
    proof {
        lemma_members_view_absent(members@, key@);
        assert(members_view(members@).remove(key@) =~= members_view(members@));
    }
}

impl Json {
    /// The member `key` of an object.
    pub fn get(&self, key: &str) -> (result: Option<&Json>)
        ensures
            opt_json_ref(result) == self@.get(key@),
    {
        match self {
            Json::Object(members) => match find_member(members, key) {
                Some(i) => Some(&members[i].1),
                None => None,
            },
            _ => None,
        }
    }

    pub fn as_str(&self) -> (result: Option<&str>)
        ensures
            crate::text::opt_str(result) == self@.as_str(),
    {
        match self {
            Json::Str(s) => Some(s.as_str()),
            _ => None,
        }
    }

    pub fn as_bool(&self) -> (result: Option<bool>)
        ensures
            result == self@.as_bool(),
    {
        match self {
            Json::Bool(b) => Some(*b),
            _ => None,
        }
    }

    pub fn as_u64(&self) -> (result: Option<u64>)
        ensures
            result == self@.as_u64(),
    {
        match self {
            Json::Unsigned(n) => Some(*n),
            _ => None,
        }
    }

    pub fn as_i64(&self) -> (result: Option<i64>)
        ensures
            result == self@.as_i64(),
    {
        match self {
            Json::Unsigned(n) => if *n <= 9223372036854775807 {
                Some(*n as i64)
            } else {
                None
            },
            Json::Negative(n) => Some(*n),
            _ => None,
        }
    }

    /// The text at `key` of an object.
    pub fn get_str(&self, key: &str) -> (result: Option<&str>)
        ensures
            crate::text::opt_str(result) == self@.get_str(key@),
    {
        match self.get(key) {
            Some(v) => v.as_str(),
            None => None,
        }
    }

    /// The value at `inner` of the object at `outer`.
    pub fn get2(&self, outer: &str, inner: &str) -> (result: Option<&Json>)
        ensures
            opt_json_ref(result) == self@.get2(outer@, inner@),
    {
        match self.get(outer) {
            Some(v) => v.get(inner),
            None => None,
        }
    }

    /// The text at `inner` of the object at `outer`.
    pub fn get2_str(&self, outer: &str, inner: &str) -> (result: Option<&str>)
        ensures
            crate::text::opt_str(result) == self@.get2_str(outer@, inner@),
    {
        match self.get2(outer, inner) {
            Some(v) => v.as_str(),
            None => None,
        }
    }

    /// A value of the same content.
    pub fn duplicate(&self) -> (result: Json)
        ensures
            result@ == self@,
        decreases self,
    {
        match self {
            Json::Null => Json::Null,
            Json::Bool(b) => Json::Bool(*b),
            Json::Unsigned(n) => Json::Unsigned(*n),
            Json::Negative(n) => Json::Negative(*n),
            Json::Float(n) => Json::Float(n.clone()),
            Json::Str(s) => Json::Str(s.clone()),
            Json::Array(items) => {
                let mut out: Vec<Json> = Vec::new();
                let mut i: usize = 0;
                assert(items@.take(0) =~= Seq::<Json>::empty());
                while i < items.len()
                    invariant
                        i <= items.len(),
                        *self == Json::Array(*items),
                        array_view(out@) == array_view(items@.take(i as int)),
                    decreases items.len() - i,
                {
                    assert(decreases_to!(*self => self->Array_0));
                    assert(decreases_to!(*items => items@));
                    assert(decreases_to!(items@ => items@[i as int]));
                    let copy = items[i].duplicate();
                    proof {
                        lemma_array_view_push(out@, copy);
                        lemma_array_view_push(items@.take(i as int), items@[i as int]);
                        assert(items@.take(i as int).push(items@[i as int]) =~= items@.take(
                            i as int + 1,
                        ));
                    }
                    out.push(copy);
                    i += 1;
                }
                assert(items@.take(i as int) =~= items@);
                Json::Array(out)
            },
            Json::Object(members) => {
                let mut out: Vec<(String, Json)> = Vec::new();
                let mut i: usize = 0;
                assert(members@.take(0) =~= Seq::<(String, Json)>::empty());
                while i < members.len()
                    invariant
                        i <= members.len(),
                        *self == Json::Object(*members),
                        members_view(out@) == members_view(members@.take(i as int)),
                    decreases members.len() - i,
                {
                    assert(decreases_to!(*self => self->Object_0));
                    assert(decreases_to!(*members => members@));
                    assert(decreases_to!(members@ => members@[i as int]));
                    assert(decreases_to!(members@[i as int] => members@[i as int].1));
                    let copy = (members[i].0.clone(), members[i].1.duplicate());
                    proof {
                        lemma_members_view_push(out@, copy);
                        lemma_members_view_push(members@.take(i as int), members@[i as int]);
                        assert(members@.take(i as int).push(members@[i as int]) =~= members@.take(
                            i as int + 1,
                        ));
                    }
                    out.push(copy);
                    i += 1;
                }
                assert(members@.take(i as int) =~= members@);
                Json::Object(out)
            },
        }
    }

    pub fn str(text: &str) -> (result: Json)
        ensures
            result@ == JsonView::Str(text@),
    {
        Json::Str(text.to_owned())
    }

    pub fn new_object() -> (result: Json)
        ensures
            result@ == empty_object(),
    {
        let members: Vec<(String, Json)> = Vec::new();
        Json::Object(members)
    }

    /// The object with `key` set to `value`; any other value as it is.
    pub fn with(self, key: &str, value: Json) -> (result: Json)
        ensures
            result@ == self@.with(key@, value@),
    {
        match self {
            Json::Object(members) => {
                let mut members = members;
                let ghost before = members@;
                members.push((key.to_owned(), value));
                proof {
                    lemma_members_view_push(before, members@.last());
                }
                Json::Object(members)
            },
            other => other,
        }
    }

    /// The object without the member `key`; any other value as it is.
    pub fn without(self, key: &str) -> (result: Json)
        ensures
            result@ == self@.without(key@),
    {
        match self {
            Json::Object(members) => {
                let mut rest = members;
                remove_members(&mut rest, key);
                Json::Object(rest)
            },
            other => other,
        }
    }
}


// ---------------------------------------------------------------------------
// serde_json
// ---------------------------------------------------------------------------

/// What a `serde_json::Value` holds.
pub uninterp spec fn value_json(value: serde_json::Value) -> JsonView;

/// What `serde_json::from_str` reads from a text, where the text is JSON.
pub uninterp spec fn value_of_text(text: Seq<char>) -> Option<serde_json::Value>;

/// What `serde_json::from_slice` reads from bytes, where they are JSON.
pub uninterp spec fn value_of_bytes(bytes: Seq<u8>) -> Option<serde_json::Value>;

/// The `serde_json::Value` that holds a given tree.
pub uninterp spec fn value_holding(json: JsonView) -> serde_json::Value;

/// What `to_string` gives for a `serde_json::Value`.
pub uninterp spec fn display_of_value(value: serde_json::Value) -> Seq<char>;

/// What `serde_json::to_string` writes for a value.
pub uninterp spec fn text_of_value(value: serde_json::Value) -> Option<Seq<char>>;

/// What `serde_json::to_vec` writes for a value.
pub uninterp spec fn bytes_of_value(value: serde_json::Value) -> Option<Seq<u8>>;

/// Turns a `serde_json::Value` into the tree of this module, variant for
/// variant. `Number::as_u64` and `Number::as_i64` tell the kinds of number
/// apart.
#[verifier::external_body]
fn json_from_value(value: serde_json::Value) -> (json: Json)
    ensures
        json@ == value_json(value),
{
    match value {
        serde_json::Value::Null => Json::Null,
        serde_json::Value::Bool(b) => Json::Bool(b),
        serde_json::Value::Number(n) => match (n.as_u64(), n.as_i64()) {
            (Some(u), _) => Json::Unsigned(u),
            (None, Some(i)) => Json::Negative(i),
            (None, None) => Json::Float(n),
        },
        serde_json::Value::String(s) => Json::Str(s),
        serde_json::Value::Array(a) => Json::Array(a.into_iter().map(json_from_value).collect()),
        serde_json::Value::Object(m) => {
            Json::Object(m.into_iter().map(|(k, v)| (k, json_from_value(v))).collect())
        },
    }
}

/// Turns a tree of this module into a `serde_json::Value`, variant for variant;
/// where a member's name stands twice, `serde_json::Map` keeps the later one.
#[verifier::external_body]
fn value_from_json(json: &Json) -> (value: serde_json::Value)
    ensures
        value == value_holding(json@),
{
    match json {
        Json::Null => serde_json::Value::Null,
        Json::Bool(b) => serde_json::Value::Bool(*b),
        Json::Unsigned(n) => serde_json::Value::Number(serde_json::Number::from(*n)),
        Json::Negative(n) => serde_json::Value::Number(serde_json::Number::from(*n)),
        Json::Float(n) => serde_json::Value::Number(n.clone()),
        Json::Str(s) => serde_json::Value::String(s.clone()),
        Json::Array(a) => serde_json::Value::Array(a.iter().map(value_from_json).collect()),
        Json::Object(m) => serde_json::Value::Object(
            m.iter().map(|(k, v)| (k.clone(), value_from_json(v))).collect(),
        ),
    }
}

/// `serde_json::from_str`: the value that the text denotes, or nothing where it
/// is not JSON. What it reads is a function of the text.
#[verifier::external_body]
fn value_from_text(text: &str) -> (value: Option<serde_json::Value>)
    ensures
        value == value_of_text(text@),
{
    serde_json::from_str::<serde_json::Value>(text).ok()
}

/// `serde_json::from_slice`: the value that the bytes denote, or nothing where
/// they are not JSON. What it reads is a function of the bytes.
#[verifier::external_body]
fn value_from_bytes(bytes: &[u8]) -> (value: Option<serde_json::Value>)
    ensures
        value == value_of_bytes(bytes@),
{
    serde_json::from_slice::<serde_json::Value>(bytes).ok()
}

/// `to_string` on a `serde_json::Value`: its compact JSON text, a function of the
/// value.
#[verifier::external_body]
fn display_value(value: &serde_json::Value) -> (text: String)
    ensures
        text@ == display_of_value(*value),
{
    value.to_string()
}

/// `serde_json::to_string`: the JSON text of a value, or nothing where it cannot
/// be written. What it writes is a function of the value.
#[verifier::external_body]
fn text_from_value(value: &serde_json::Value) -> (text: Option<String>)
    ensures
        opt_text(text) == text_of_value(*value),
{
    serde_json::to_string(value).ok()
}

/// `serde_json::to_vec`: the JSON bytes of a value, or nothing where it cannot be
/// written. What it writes is a function of the value.
#[verifier::external_body]
fn bytes_from_value(value: &serde_json::Value) -> (bytes: Option<Vec<u8>>)
    ensures
        opt_bytes(bytes) == bytes_of_value(*value),
{
    serde_json::to_vec(value).ok()
}

pub open spec fn opt_bytes(bytes: Option<Vec<u8>>) -> Option<Seq<u8>> {
    match bytes {
        Some(b) => Some(b@),
        None => None,
    }
}

/// The tree that a JSON text denotes.
pub open spec fn parsed_text(text: Seq<char>) -> Option<JsonView> {
    match value_of_text(text) {
        Some(value) => Some(value_json(value)),
        None => None,
    }
}

/// The tree that JSON bytes denote.
pub open spec fn parsed_bytes(bytes: Seq<u8>) -> Option<JsonView> {
    match value_of_bytes(bytes) {
        Some(value) => Some(value_json(value)),
        None => None,
    }
}

/// The text that a tree is written as.
pub open spec fn written_text(json: JsonView) -> Option<Seq<char>> {
    text_of_value(value_holding(json))
}

/// The compact text of a tree.
pub open spec fn shown_text(json: JsonView) -> Seq<char> {
    display_of_value(value_holding(json))
}

/// The bytes that a tree is written as.
pub open spec fn written_bytes(json: JsonView) -> Option<Seq<u8>> {
    bytes_of_value(value_holding(json))
}

pub fn parse_text(text: &str) -> (json: Option<Json>)
    ensures
        opt_json(json) == parsed_text(text@),
{
    match value_from_text(text) {
        Some(value) => Some(json_from_value(value)),
        None => None,
    }
}

pub fn parse_bytes(bytes: &[u8]) -> (json: Option<Json>)
    ensures
        opt_json(json) == parsed_bytes(bytes@),
{
    match value_from_bytes(bytes) {
        Some(value) => Some(json_from_value(value)),
        None => None,
    }
}

pub fn show_text(json: &Json) -> (text: String)
    ensures
        text@ == shown_text(json@),
{
    let value = value_from_json(json);
    display_value(&value)
}

pub fn write_text(json: &Json) -> (text: Option<String>)
    ensures
        opt_text(text) == written_text(json@),
{
    let value = value_from_json(json);
    text_from_value(&value)
}

pub fn write_bytes(json: &Json) -> (bytes: Option<Vec<u8>>)
    ensures
        opt_bytes(bytes) == written_bytes(json@),
{
    let value = value_from_json(json);
    bytes_from_value(&value)
}

// ---------------------------------------------------------------------------
// Optional fields
// ---------------------------------------------------------------------------

/// The trimmed text at `field`, where there is one that is not blank.
pub open spec fn string_field(value: JsonView, field: Seq<char>) -> Option<Seq<char>> {
    match value.get_str(field) {
        Some(s) => nonempty_trim(s),
        None => None,
    }
}

pub open spec fn bool_field(value: JsonView, field: Seq<char>) -> Option<bool> {
    match value.get(field) {
        Some(v) => v.as_bool(),
        None => None,
    }
}

/// The integer at `field`, with negative ones taken as zero.
pub open spec fn u64_field(value: JsonView, field: Seq<char>) -> Option<u64> {
    match value.get(field) {
        Some(JsonView::Unsigned(n)) => Some(n),
        Some(JsonView::Negative(n)) => Some(
            if n < 0 {
                0
            } else {
                n as u64
            },
        ),
        _ => None,
    }
}

pub open spec fn i64_field(value: JsonView, field: Seq<char>) -> Option<i64> {
    match value.get(field) {
        Some(v) => v.as_i64(),
        None => None,
    }
}

/// The first field of `fields` for which `read` finds something.
pub open spec fn first_field<T>(
    value: JsonView,
    fields: Seq<Seq<char>>,
    read: spec_fn(JsonView, Seq<char>) -> Option<T>,
) -> Option<T>
    decreases fields.len(),
{
    if fields.len() == 0 {
        None
    } else {
        match read(value, fields[0]) {
            Some(found) => Some(found),
            None => first_field(value, fields.drop_first(), read),
        }
    }
}

proof fn lemma_first_field_skip<T>(
    value: JsonView,
    fields: Seq<Seq<char>>,
    read: spec_fn(JsonView, Seq<char>) -> Option<T>,
    i: int,
)
    requires
        0 <= i < fields.len(),
    ensures
        first_field(value, fields.skip(i), read) == match read(value, fields[i]) {
            Some(found) => Some(found),
            None => first_field(value, fields.skip(i + 1), read),
        },
{
    assert(fields.skip(i).drop_first() =~= fields.skip(i + 1));
}

/// A negative value counts as zero.
pub fn non_negative_i64_to_u64(value: i64) -> (result: Option<u64>)
    ensures
        result == Some(
            if value < 0 {
                0u64
            } else {
                value as u64
            },
        ),
{
    if value < 0 {
        Some(0)
    } else {
        Some(value as u64)
    }
}

pub fn optional_json_string(value: &Json, field: &str) -> (result: Option<String>)
    ensures
        opt_text(result) == string_field(value@, field@),
{
    match value.get_str(field) {
        Some(s) => trimmed_nonempty(s),
        None => None,
    }
}

pub fn optional_json_string_any(value: &Json, fields: &[&str]) -> (result: Option<String>)
    ensures
        opt_text(result) == first_field(
            value@,
            strs(fields@),
            |v: JsonView, f: Seq<char>| string_field(v, f),
        ),
{
    let ghost read = |v: JsonView, f: Seq<char>| string_field(v, f);
    let ghost names = strs(fields@);
    assert(names.skip(0) =~= names);
    let mut i: usize = 0;
    while i < fields.len()
        invariant
            i <= fields.len(),
            names == strs(fields@),
            read == (|v: JsonView, f: Seq<char>| string_field(v, f)),
            first_field(value@, names, read) == first_field(value@, names.skip(i as int), read),
        decreases fields.len() - i,
    {
        proof {
            lemma_first_field_skip(value@, names, read, i as int);
        }
        let found = optional_json_string(value, fields[i]);
        if found.is_some() {
            return found;
        }
        i += 1;
    }
    None
}

pub fn optional_json_bool_any(value: &Json, fields: &[&str]) -> (result: Option<bool>)
    ensures
        result == first_field(
            value@,
            strs(fields@),
            |v: JsonView, f: Seq<char>| bool_field(v, f),
        ),
{
    let ghost read = |v: JsonView, f: Seq<char>| bool_field(v, f);
    let ghost names = strs(fields@);
    assert(names.skip(0) =~= names);
    let mut i: usize = 0;
    while i < fields.len()
        invariant
            i <= fields.len(),
            names == strs(fields@),
            read == (|v: JsonView, f: Seq<char>| bool_field(v, f)),
            first_field(value@, names, read) == first_field(value@, names.skip(i as int), read),
        decreases fields.len() - i,
    {
        proof {
            lemma_first_field_skip(value@, names, read, i as int);
        }
        let found = match value.get(fields[i]) {
            Some(v) => v.as_bool(),
            None => None,
        };
        if found.is_some() {
            return found;
        }
        i += 1;
    }
    None
}

pub fn optional_json_u64_any(value: &Json, fields: &[&str]) -> (result: Option<u64>)
    ensures
        result == first_field(
            value@,
            strs(fields@),
            |v: JsonView, f: Seq<char>| u64_field(v, f),
        ),
{
    let ghost read = |v: JsonView, f: Seq<char>| u64_field(v, f);
    let ghost names = strs(fields@);
    assert(names.skip(0) =~= names);
    let mut i: usize = 0;
    while i < fields.len()
        invariant
            i <= fields.len(),
            names == strs(fields@),
            read == (|v: JsonView, f: Seq<char>| u64_field(v, f)),
            first_field(value@, names, read) == first_field(value@, names.skip(i as int), read),
        decreases fields.len() - i,
    {
        proof {
            lemma_first_field_skip(value@, names, read, i as int);
        }
        let found: Option<u64> = match value.get(fields[i]) {
            Some(v) => match v.as_u64() {
                Some(n) => Some(n),
                None => match v.as_i64() {
                    Some(n) => non_negative_i64_to_u64(n),
                    None => None,
                },
            },
            None => None,
        };
        if found.is_some() {
            return found;
        }
        i += 1;
    }
    None
}

pub fn optional_json_i64_any(value: &Json, fields: &[&str]) -> (result: Option<i64>)
    ensures
        result == first_field(
            value@,
            strs(fields@),
            |v: JsonView, f: Seq<char>| i64_field(v, f),
        ),
{
    let ghost read = |v: JsonView, f: Seq<char>| i64_field(v, f);
    let ghost names = strs(fields@);
    assert(names.skip(0) =~= names);
    let mut i: usize = 0;
    while i < fields.len()
        invariant
            i <= fields.len(),
            names == strs(fields@),
            read == (|v: JsonView, f: Seq<char>| i64_field(v, f)),
            first_field(value@, names, read) == first_field(value@, names.skip(i as int), read),
        decreases fields.len() - i,
    {
        proof {
            lemma_first_field_skip(value@, names, read, i as int);
        }
        let found: Option<i64> = match value.get(fields[i]) {
            Some(v) => v.as_i64(),
            None => None,
        };
        if found.is_some() {
            return found;
        }
        i += 1;
    }
    None
}

/// Setting a member to nothing removes it.
pub open spec fn set_or_remove(
    object: JsonView,
    key: Seq<char>,
    value: Option<JsonView>,
) -> JsonView {
    match value {
        Some(v) => object.with(key, v),
        None => object.without(key),
    }
}

fn set_json_optional(object: Json, key: &str, value: Option<Json>) -> (result: Json)
    ensures
        result@ == set_or_remove(object@, key@, opt_json(value)),
{
    match value {
        Some(v) => object.with(key, v),
        None => object.without(key),
    }
}

pub fn set_json_optional_string(object: &mut Json, key: &str, value: Option<String>)
    ensures
        final(object)@ == set_or_remove(
            old(object)@,
            key@,
            match value {
                Some(s) => Some(JsonView::Str(s@)),
                None => None,
            },
        ),
{
    let mut taken = Json::Null;
    std::mem::swap(object, &mut taken);
    let member = match value {
        Some(s) => Some(Json::Str(s)),
        None => None,
    };
    *object = set_json_optional(taken, key, member);
}

pub fn set_json_optional_bool(object: &mut Json, key: &str, value: Option<bool>)
    ensures
        final(object)@ == set_or_remove(
            old(object)@,
            key@,
            match value {
                Some(b) => Some(JsonView::Bool(b)),
                None => None,
            },
        ),
{
    let mut taken = Json::Null;
    std::mem::swap(object, &mut taken);
    let member = match value {
        Some(b) => Some(Json::Bool(b)),
        None => None,
    };
    *object = set_json_optional(taken, key, member);
}

pub fn set_json_optional_u64(object: &mut Json, key: &str, value: Option<u64>)
    ensures
        final(object)@ == set_or_remove(
            old(object)@,
            key@,
            match value {
                Some(n) => Some(JsonView::Unsigned(n)),
                None => None,
            },
        ),
{
    let mut taken = Json::Null;
    std::mem::swap(object, &mut taken);
    let member = match value {
        Some(n) => Some(Json::Unsigned(n)),
        None => None,
    };
    *object = set_json_optional(taken, key, member);
}

// ---------------------------------------------------------------------------
// Laws
// ---------------------------------------------------------------------------

/// A member that was set reads back, and every other one stays as it was; one that was taken
/// out is gone.
pub proof fn law_members_read_back(
    object: JsonView,
    key: Seq<char>,
    value: JsonView,
    other: Seq<char>,
)
    requires
        object is Object,
        other != key,
    ensures
        object.with(key, value).get(key) == Some(value),
        object.with(key, value).get(other) == object.get(other),
        object.without(key).get(key) is None,
        object.without(key).get(other) == object.get(other),
        set_or_remove(object, key, Some(value)).get(key) == Some(value),
        set_or_remove(object, key, None).get(key) is None,
        set_or_remove(object, key, Some(value)).get(other) == object.get(other),
        set_or_remove(object, key, None).get(other) == object.get(other),
{
}

/// The first of several fields that holds something gives it.
pub proof fn law_the_first_field_that_holds_something_counts<T>(
    value: JsonView,
    fields: Seq<Seq<char>>,
    read: spec_fn(JsonView, Seq<char>) -> Option<T>,
    i: int,
)
    requires
        0 <= i <= fields.len(),
        forall|k: int| 0 <= k < i ==> read(value, #[trigger] fields[k]) is None,
        i < fields.len() ==> read(value, fields[i]) is Some,
    ensures
        i < fields.len() ==> first_field(value, fields, read) == read(value, fields[i]),
        i == fields.len() ==> first_field(value, fields, read) is None,
    decreases fields.len(),
{
    if fields.len() > 0 && i > 0 {
        assert(read(value, fields[0]) is None);
        assert forall|k: int| 0 <= k < i - 1 implies read(
            value,
            #[trigger] fields.drop_first()[k],
        ) is None by {
            assert(fields[k + 1] == fields.drop_first()[k]);
        }
        law_the_first_field_that_holds_something_counts(value, fields.drop_first(), read, i - 1);
    }
}

/// A text field is read without the space around it, and a blank one is none; an integer
/// below zero is read as zero where none is wanted, and a text is no integer.
pub proof fn law_how_fields_are_read(value: JsonView, field: Seq<char>, text: Seq<char>, n: i64)
    ensures
        value.get(field) == Some(JsonView::Str(text)) && crate::text::trim(text).len() > 0
            ==> string_field(value, field) == Some(crate::text::trim(text)),
        value.get(field) == Some(JsonView::Str(text)) && crate::text::trim(text).len() == 0
            ==> string_field(value, field) is None,
        value.get(field) == Some(JsonView::Str(text)) ==> u64_field(value, field) is None
            && i64_field(value, field) is None && bool_field(value, field) is None,
        value.get(field) == Some(JsonView::Unsigned(n as u64)) && n >= 0 ==> u64_field(value, field)
            == Some(n as u64) && i64_field(value, field) == Some(n),
        value.get(field) == Some(JsonView::Negative(n)) && n < 0 ==> u64_field(value, field)
            == Some(0u64) && i64_field(value, field) == Some(n),
        value.get(field) == Some(JsonView::Bool(true)) ==> bool_field(value, field) == Some(true),
        value.get(field) is None ==> string_field(value, field) is None && u64_field(value, field)
            is None && bool_field(value, field) is None,
{
}

} // verus!
