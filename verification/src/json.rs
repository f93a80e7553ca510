//! JSON documents as plain values, and the edits the patcher makes to them.
//!
//! An object is an ordered list of members. Looking a name up finds the first
//! member of that name; setting a name replaces that member's value or adds a
//! member at the end; removing a name removes every member of that name.

use vstd::prelude::*;
use crate::text::{equal, first_true, lemma_first_true, lemma_first_true_is, strings_view};

verus! {

/// A JSON number. It is passed through untouched: a float is kept as the bits
/// of its IEEE 754 double.
#[derive(Clone, Copy, Debug, PartialEq, Eq, Structural)]
pub enum Number {
    /// An integer that is not negative.
    PosInt(u64),
    /// A negative integer.
    NegInt(i64),
    /// Any other number, by the bits of its double.
    Float(u64),
}

/// A JSON value.
#[derive(Debug, PartialEq, Eq)]
pub enum Json {
    Null,
    Bool(bool),
    Number(Number),
    Text(String),
    Array(Vec<Json>),
    Object(Vec<(String, Json)>),
}

/// What a [`Json`] value holds.
pub enum JsonValue {
    Null,
    Bool(bool),
    Number(Number),
    Text(Seq<char>),
    Array(Seq<JsonValue>),
    Object(Seq<(Seq<char>, JsonValue)>),
}

/// The members of an object, by name and value.
pub type Members = Seq<(Seq<char>, JsonValue)>;

impl Json {
    /// What the value holds.
    pub open spec fn value(self) -> JsonValue
        decreases self,
    {
        match self {
            Json::Null => JsonValue::Null,
            Json::Bool(b) => JsonValue::Bool(b),
            Json::Number(n) => JsonValue::Number(n),
            Json::Text(s) => JsonValue::Text(s@),
            Json::Array(items) => JsonValue::Array(
                Seq::new(
                    items@.len(),
                    |i: int|
                        if 0 <= i < items@.len() {
                            items@[i].value()
                        } else {
                            JsonValue::Null
                        },
                ),
            ),
            Json::Object(members) => JsonValue::Object(
                Seq::new(
                    members@.len(),
                    |i: int|
                        if 0 <= i < members@.len() {
                            (members@[i].0@, members@[i].1.value())
                        } else {
                            (Seq::empty(), JsonValue::Null)
                        },
                ),
            ),
        }
    }
}

impl View for Json {
    type V = JsonValue;

    open spec fn view(&self) -> JsonValue {
        self.value()
    }
}

/// What the items of an array hold.
pub open spec fn items_view(items: Seq<Json>) -> Seq<JsonValue> {
    Seq::new(items.len(), |i: int| items[i]@)
}

/// What the members of an object hold.
pub open spec fn members_view(members: Seq<(String, Json)>) -> Members {
    Seq::new(members.len(), |i: int| (members[i].0@, members[i].1@))
}

/// An array holds what its items hold.
pub proof fn lemma_array_view(items: Vec<Json>)
    ensures
        Json::Array(items)@ == JsonValue::Array(items_view(items@)),
{
    assert(Json::Array(items)@->Array_0 =~= items_view(items@));
}

/// An object holds what its members hold.
pub proof fn lemma_object_view(members: Vec<(String, Json)>)
    ensures
        Json::Object(members)@ == JsonValue::Object(members_view(members@)),
{
    assert(Json::Object(members)@->Object_0 =~= members_view(members@));
}

/// For each member, whether its name is `key`.
pub open spec fn key_flags(members: Members, key: Seq<char>) -> Seq<bool> {
    Seq::new(members.len(), |i: int| members[i].0 == key)
}

/// Index of the first member named `key`, or the number of members where none
/// has that name.
pub open spec fn member_index(members: Members, key: Seq<char>) -> int {
    first_true(key_flags(members, key))
}

/// The value of the first member named `key`.
pub open spec fn member(members: Members, key: Seq<char>) -> Option<JsonValue> {
    let i = member_index(members, key);
    if i < members.len() {
        Some(members[i].1)
    } else {
        None
    }
}

/// `members` with `key` set to `value`: in place of the first member of that
/// name, or as a new last member.
pub open spec fn with_member(members: Members, key: Seq<char>, value: JsonValue) -> Members {
    let i = member_index(members, key);
    if i < members.len() {
        members.update(i, (key, value))
    } else {
        members.push((key, value))
    }
}

/// `members` without those named `key`.
pub open spec fn without_member(members: Members, key: Seq<char>) -> Members {
    members.filter(|m: (Seq<char>, JsonValue)| m.0 != key)
}

/// `member_index` stays within the members, no member before it has the
/// name, and the member at it has the name unless it is the length.
pub proof fn lemma_member_index(members: Members, key: Seq<char>)
    ensures
        0 <= member_index(members, key) <= members.len(),
        forall|j: int| 0 <= j < member_index(members, key) ==> (#[trigger] members[j]).0 != key,
        member_index(members, key) < members.len() ==> members[member_index(members, key)].0
            == key,
{
    let flags = key_flags(members, key);
    lemma_first_true(flags);
    assert forall|j: int| 0 <= j < member_index(members, key) implies (#[trigger] members[j]).0
        != key by {
        assert(!flags[j]);
    }
}

/// An index with no member of the name before it, and which has the name or
/// is the length, is `member_index`.
pub proof fn lemma_member_index_is(members: Members, key: Seq<char>, i: int)
    requires
        0 <= i <= members.len(),
        forall|j: int| 0 <= j < i ==> (#[trigger] members[j]).0 != key,
        i < members.len() ==> members[i].0 == key,
    ensures
        member_index(members, key) == i,
{
    let flags = key_flags(members, key);
    assert forall|j: int| 0 <= j < i implies !flags[j] by {
        assert(members[j].0 != key);
    }
    lemma_first_true_is(flags, i);
}

/// Setting a name sets what a lookup of that name finds, and changes what no
/// lookup of another name finds.
pub proof fn lemma_member_with(members: Members, key: Seq<char>, value: JsonValue, other: Seq<char>)
    ensures
        member(with_member(members, key, value), key) == Some(value),
        other != key ==> member(with_member(members, key, value), other) == member(members, other),
{
    let set = with_member(members, key, value);
    let i = member_index(members, key);
    lemma_member_index(members, key);
    assert forall|j: int| 0 <= j < i implies (#[trigger] set[j]).0 != key by {
        assert(members[j].0 != key);
    }
    lemma_member_index_is(set, key, i);
    if other != key {
        let j = member_index(members, other);
        lemma_member_index(members, other);
        let k = if j < members.len() {
            j
        } else {
            set.len() as int
        };
        assert forall|x: int| 0 <= x < k implies (#[trigger] set[x]).0 != other by {
            if x < members.len() {
                assert(members[x].0 != other);
            }
        }
        lemma_member_index_is(set, other, k);
    }
}

/// Removing a name leaves no member of that name, and changes what no lookup
/// of another name finds.
pub proof fn lemma_member_without(members: Members, key: Seq<char>, other: Seq<char>)
    ensures
        member(without_member(members, key), key) is None,
        other != key ==> member(without_member(members, key), other) == member(members, other),
    decreases members.len(),
{
    let rest = without_member(members, key);
    reveal(Seq::filter);
    if members.len() == 0 {
        lemma_member_index_is(rest, key, 0);
        lemma_member_index_is(rest, other, 0);
        lemma_member_index_is(members, other, 0);
    } else {
        let front = members.drop_last();
        let last = members.last();
        let front_rest = without_member(front, key);
        lemma_member_without(front, key, other);
        lemma_member_index(front_rest, key);
        lemma_member_index(front_rest, other);
        lemma_member_index(front, other);
        let b = member_index(front_rest, other);
        let c = member_index(front, other);
        if last.0 != key {
            assert forall|x: int| 0 <= x < rest.len() implies (#[trigger] rest[x]).0 != key by {
                if x < front_rest.len() {
                    assert(front_rest[x].0 != key);
                }
            }
            lemma_member_index_is(rest, key, rest.len() as int);
        } else {
            assert(rest == front_rest);
        }
        if other != key {
            let found = last.0 == other;
            let k = if b < front_rest.len() {
                b
            } else if found {
                front_rest.len() as int
            } else {
                rest.len() as int
            };
            assert forall|x: int| 0 <= x < k implies (#[trigger] rest[x]).0 != other by {
                if x < front_rest.len() {
                    assert(front_rest[x].0 != other);
                }
            }
            lemma_member_index_is(rest, other, k);
            let k = if c < front.len() {
                c
            } else if found {
                front.len() as int
            } else {
                members.len() as int
            };
            assert forall|x: int| 0 <= x < k implies (#[trigger] members[x]).0 != other by {
                if x < front.len() {
                    assert(front[x].0 != other);
                }
            }
            lemma_member_index_is(members, other, k);
        }
    }
}

/// Index of the first member named `key`, or `members.len()`.
pub fn find_member(members: &Vec<(String, Json)>, key: &str) -> (i: usize)
    ensures
        i == member_index(members_view(members@), key@),
        i <= members.len(),
        i < members.len() ==> members@[i as int].0@ == key@,
{
    let mut i: usize = 0;
    while i < members.len() && !equal(members[i].0.as_str(), key)
        invariant
            i <= members.len(),
            forall|j: int| 0 <= j < i ==> members@[j].0@ != key@,
        decreases members.len() - i,
    {
        i += 1;
    }
    proof {
        lemma_first_true_is(key_flags(members_view(members@), key@), i as int);
    }
    i
}

/// Filtering is not changed by taking out an item that the filter drops.
pub proof fn lemma_filter_remove<T>(s: Seq<T>, keep: spec_fn(T) -> bool, i: int)
    requires
        0 <= i < s.len(),
        !keep(s[i]),
    ensures
        s.remove(i).filter(keep) == s.filter(keep),
{
    let head = s.take(i);
    let tail = s.skip(i + 1);
    assert(s =~= head.push(s[i]) + tail);
    Seq::filter_distributes_over_add(head.push(s[i]), tail, keep);
    Seq::filter_distributes_over_add(head, tail, keep);
    head.lemma_filter_push(s[i], keep);
}

/// Filtering keeps a sequence whose items the filter all keeps.
pub proof fn lemma_filter_all<T>(s: Seq<T>, keep: spec_fn(T) -> bool)
    requires
        forall|j: int| 0 <= j < s.len() ==> keep(#[trigger] s[j]),
    ensures
        s.filter(keep) == s,
    decreases s.len(),
{
    reveal(Seq::filter);
    if s.len() > 0 {
        lemma_filter_all(s.drop_last(), keep);
    }
}

/// The value at `i`, with `value` left in its place.
pub fn replace_value_at(members: &mut Vec<(String, Json)>, i: usize, value: Json) -> (former: Json)
    requires
        i < old(members).len(),
    ensures
        former == old(members)@[i as int].1,
        final(members)@ == old(members)@.update(i as int, (old(members)@[i as int].0, value)),
{
    let (key, former) = members.remove(i);
    members.insert(i, (key, value));
    former
}

/// Sets `key` to `value`.
pub fn set_member(members: &mut Vec<(String, Json)>, key: &str, value: Json)
    ensures
        members_view(final(members)@) == with_member(members_view(old(members)@), key@, value@),
{
    let i = find_member(members, key);
    if i < members.len() {
        let _ = replace_value_at(members, i, value);
    } else {
        members.push((key.to_string(), value));
    }
}

/// Removes every member named `key`.
pub fn remove_member(members: &mut Vec<(String, Json)>, key: &str)
    ensures
        members_view(final(members)@) == without_member(members_view(old(members)@), key@),
{
    let ghost keep = |m: (Seq<char>, JsonValue)| m.0 != key@;
    let mut i: usize = 0;
    while i < members.len()
        invariant
            i <= members.len(),
            keep == |m: (Seq<char>, JsonValue)| m.0 != key@,
            members_view(members@).filter(keep) == members_view(old(members)@).filter(keep),
            forall|j: int| 0 <= j < i ==> members@[j].0@ != key@,
        decreases members.len() - i,
    {
        if equal(members[i].0.as_str(), key) {
            let ghost before = members_view(members@);
            members.remove(i);
            proof {
                assert(members_view(members@) =~= before.remove(i as int));
                lemma_filter_remove(before, keep, i as int);
            }
        } else {
            i += 1;
        }
    }
    proof {
        lemma_filter_all(members_view(members@), keep);
    }
}

/// Whether every item is a string.
pub open spec fn all_text(items: Seq<JsonValue>) -> bool {
    forall|i: int| 0 <= i < items.len() ==> (#[trigger] items[i]) is Text
}

/// The strings of an array of strings; nothing is read out of any other
/// value.
pub open spec fn string_list(value: JsonValue) -> Option<Seq<Seq<char>>> {
    match value {
        JsonValue::Array(items) => if all_text(items) {
            Some(Seq::new(items.len(), |i: int| items[i]->Text_0))
        } else {
            None
        },
        _ => None,
    }
}

/// The array of these strings.
pub open spec fn text_array(list: Seq<Seq<char>>) -> JsonValue {
    JsonValue::Array(Seq::new(list.len(), |i: int| JsonValue::Text(list[i])))
}

/// Copies the strings out of an array of strings.
#[verifier::loop_isolation(false)]
pub fn read_string_list(value: &Json) -> (r: Option<Vec<String>>)
    ensures
        match r {
            Some(list) => string_list(value@) == Some(strings_view(list@)),
            None => string_list(value@) is None,
        },
{
    let items = match value {
        Json::Array(items) => items,
        _ => {
            return None;
        },
    };
    proof {
        lemma_array_view(*items);
    }
    let mut list: Vec<String> = Vec::new();
    let mut i: usize = 0;
    while i < items.len()
        invariant
            i <= items.len(),
            list.len() == i,
            forall|j: int| 0 <= j < i ==> items@[j]@ == JsonValue::Text(#[trigger] list@[j]@),
        decreases items.len() - i,
    {
        match &items[i] {
            Json::Text(s) => {
                list.push(s.clone());
            },
            _ => {
                assert(!(items_view(items@)[i as int] is Text));
                return None;
            },
        }
        i += 1;
    }
    proof {
        let values = items_view(items@);
        assert forall|j: int| 0 <= j < values.len() implies (#[trigger] values[j]) is Text by {
            assert(items@[j]@ == JsonValue::Text(list@[j]@));
        }
        assert(strings_view(list@) =~= Seq::new(values.len(), |i: int| values[i]->Text_0)) by {
            assert forall|j: int| 0 <= j < values.len() implies strings_view(list@)[j]
                == values[j]->Text_0 by {
                assert(items@[j]@ == JsonValue::Text(list@[j]@));
            }
        }
    }
    Some(list)
}

/// Makes the array of these strings.
pub fn make_text_array(list: Vec<String>) -> (j: Json)
    ensures
        j@ == text_array(strings_view(list@)),
{
    let mut items: Vec<Json> = Vec::new();
    let mut i: usize = 0;
    while i < list.len()
        invariant
            i <= list.len(),
            items.len() == i,
            forall|j: int| 0 <= j < i ==> (#[trigger] items@[j])@ == JsonValue::Text(list@[j]@),
        decreases list.len() - i,
    {
        items.push(Json::Text(list[i].clone()));
        i += 1;
    }
    proof {
        lemma_array_view(items);
        assert(items_view(items@) =~= text_array(strings_view(list@))->Array_0);
    }
    Json::Array(items)
}

} // verus!
