//! JSON values of `serde_json`: what they hold, how they are read and built, and their text.

use serde_json::Value;
use vstd::prelude::*;

use crate::text::decimal;

verus! {

/// What a JSON value holds. A number is held by the digits it is printed with.
pub enum Json {
    Null,
    Bool(bool),
    Number(Seq<char>),
    Text(Seq<char>),
    List(Seq<Json>),
    Object(Map<Seq<char>, Json>),
}

impl Json {
    /// The member of an object under a key.
    pub open spec fn member(self, key: Seq<char>) -> Option<Json> {
        match self {
            Json::Object(members) => if members.contains_key(key) {
                Some(members[key])
            } else {
                None
            },
            _ => None,
        }
    }

    /// The element of a list at a position.
    pub open spec fn element(self, i: int) -> Option<Json> {
        match self {
            Json::List(elements) => if 0 <= i < elements.len() {
                Some(elements[i])
            } else {
                None
            },
            _ => None,
        }
    }

    /// The text of a JSON string.
    pub open spec fn text(self) -> Option<Seq<char>> {
        match self {
            Json::Text(text) => Some(text),
            _ => None,
        }
    }

    /// The text of the member of an object under a key, where that is a string.
    pub open spec fn member_text(self, key: Seq<char>) -> Option<Seq<char>> {
        match self.member(key) {
            Some(member) => member.text(),
            None => None,
        }
    }
}

#[verifier::external_type_specification]
#[verifier::external_body]
pub struct ExValue(serde_json::Value);

/// What a `serde_json::Value` holds.
pub uninterp spec fn json_of(value: Value) -> Json;

/// What `serde_json::from_str` reads from a text: a value, or the words of its error.
pub uninterp spec fn json_read(text: Seq<char>) -> Result<Json, Seq<char>>;

/// The compact text that a `serde_json::Value` displays.
pub uninterp spec fn json_text(json: Json) -> Seq<char>;

/// `serde_json::from_str::<Value>`: the value that the text stands for, or the error's words.
#[verifier::external_body]
pub(crate) fn read_value(text: &str) -> (r: Result<Value, String>)
    ensures
        match r {
            Ok(value) => json_read(text@) == Ok::<Json, Seq<char>>(json_of(value)),
            Err(error) => json_read(text@) == Err::<Json, Seq<char>>(error@),
        },
{
    serde_json::from_str::<Value>(text).map_err(|error| error.to_string())
}

/// `Value::get` with a string: the member of an object under `key`, and nothing where the value
/// is no object or has no such member.
#[verifier::external_body]
pub(crate) fn member<'a>(value: &'a Value, key: &str) -> (r: Option<&'a Value>)
    ensures
        match r {
            Some(member) => json_of(*value).member(key@) == Some(json_of(*member)),
            None => json_of(*value).member(key@) is None,
        },
{
    value.get(key)
}

/// `Value::get` with a number: the element of an array at position `i`, and nothing where the
/// value is no array or is not that long.
#[verifier::external_body]
pub(crate) fn element<'a>(value: &'a Value, i: usize) -> (r: Option<&'a Value>)
    ensures
        match r {
            Some(element) => json_of(*value).element(i as int) == Some(json_of(*element)),
            None => json_of(*value).element(i as int) is None,
        },
{
    value.get(i)
}

/// `Value::as_str`: the text of a string, and nothing of any other value.
#[verifier::external_body]
pub(crate) fn text<'a>(value: &'a Value) -> (r: Option<&'a str>)
    ensures
        match r {
            Some(text) => json_of(*value).text() == Some(text@),
            None => json_of(*value).text() is None,
        },
{
    value.as_str()
}

/// `Value::String`: a string with the given text.
#[verifier::external_body]
pub(crate) fn text_value(text: &str) -> (r: Value)
    ensures
        json_of(r) == Json::Text(text@),
{
    Value::String(text.to_string())
}

/// `Value::from` of a `u64`: a number, which is printed in decimal.
#[verifier::external_body]
pub(crate) fn number_value(n: u64) -> (r: Value)
    ensures
        json_of(r) == Json::Number(decimal(n as nat)),
{
    Value::from(n)
}

/// What the values hold, in order.
pub open spec fn jsons_of(values: Seq<Value>) -> Seq<Json> {
    values.map_values(|value: Value| json_of(value))
}

/// `Value::Array`: a list of the given values, in their order.
#[verifier::external_body]
pub(crate) fn list_value(values: Vec<Value>) -> (r: Value)
    ensures
        json_of(r) == Json::List(jsons_of(values@)),
{
    Value::Array(values)
}

/// The members that entries make.
pub open spec fn members_of(entries: Seq<(Seq<char>, Json)>) -> Map<Seq<char>, Json>
    decreases entries.len(),
{
    if entries.len() == 0 {
        Map::empty()
    } else {
        members_of(entries.drop_last()).insert(entries.last().0, entries.last().1)
    }
}

/// The object that entries make.
pub open spec fn object(entries: Seq<(Seq<char>, Json)>) -> Json {
    Json::Object(members_of(entries))
}

/// What the entries hold, in order.
pub open spec fn entries_of(entries: Seq<(String, Value)>) -> Seq<(Seq<char>, Json)> {
    entries.map_values(|entry: (String, Value)| (entry.0@, json_of(entry.1)))
}

/// Whether no key occurs twice among the entries.
pub open spec fn distinct_keys(entries: Seq<(String, Value)>) -> bool {
    forall|i: int, j: int|
        0 <= i < j < entries.len() ==> (#[trigger] entries[i]).0@ != (#[trigger] entries[j]).0@
}

/// `serde_json::Map::from_iter`, as an object: its members are those that the entries make. No key
/// may occur twice: which of two values would stay is left open.
#[verifier::external_body]
pub(crate) fn object_value(entries: Vec<(String, Value)>) -> (r: Value)
    requires
        distinct_keys(entries@),
    ensures
        json_of(r) == object(entries_of(entries@)),
{
    Value::Object(serde_json::Map::from_iter(entries))
}

/// `Value::to_string`: the compact text of the value.
#[verifier::external_body]
pub(crate) fn value_text(value: &Value) -> (r: String)
    ensures
        r@ == json_text(json_of(*value)),
{
    value.to_string()
}

/// The text of the member of an object under `key`, where that is a string.
pub(crate) fn member_text<'a>(value: &'a Value, key: &str) -> (r: Option<&'a str>)
    ensures
        match r {
            Some(text) => json_of(*value).member_text(key@) == Some(text@),
            None => json_of(*value).member_text(key@) is None,
        },
{
    match member(value, key) {
        Some(member) => text(member),
        None => None,
    }
}

/// One entry of an object.
pub(crate) fn entry(key: &str, value: Value) -> (r: (String, Value))
    ensures
        r.0@ == key@,
        r.1 == value,
{
    (key.to_owned(), value)
}

/// An object has a member exactly where its map has one, and nothing else has members.
pub proof fn only_objects_have_members(json: Json, key: Seq<char>, value: Json)
    ensures
        json.member(key) == Some(value) <==> (json matches Json::Object(members)
            && members.contains_key(key) && members[key] == value),
        json.member(key) is None <==> !(json matches Json::Object(members) && members.contains_key(
            key,
        )),
{
}

/// A list has an element at each position below its length, and nothing else has elements.
pub proof fn only_lists_have_elements(json: Json, i: int, value: Json)
    ensures
        json.element(i) == Some(value) <==> (json matches Json::List(elements) && 0 <= i
            < elements.len() && elements[i] == value),
        json.element(i) is None <==> !(json matches Json::List(elements) && 0 <= i
            < elements.len()),
{
}

/// Only a string has a text, and it is all of it; the text of a member is that of the member under
/// the key, where that is a string.
pub proof fn only_strings_have_texts(json: Json, key: Seq<char>, words: Seq<char>)
    ensures
        json.text() == Some(words) <==> json == Json::Text(words),
        json.text() is None <==> !(json is Text),
        json.member_text(key) == Some(words) <==> json.member(key) == Some(Json::Text(words)),
        json.member_text(key) is None <==> !(json.member(key) matches Some(member)
            && member is Text),
{
}

proof fn lemma_members(entries: Seq<(Seq<char>, Json)>)
    requires
        forall|i: int, j: int|
            0 <= i < j < entries.len() ==> (#[trigger] entries[i]).0 != (#[trigger] entries[j]).0,
    ensures
        forall|i: int|
            0 <= i < entries.len() ==> members_of(entries).contains_key((#[trigger] entries[i]).0)
                && members_of(entries)[entries[i].0] == entries[i].1,
        forall|key: Seq<char>| #[trigger]
            members_of(entries).contains_key(key) ==> exists|i: int|
                0 <= i < entries.len() && (#[trigger] entries[i]).0 == key,
    decreases entries.len(),
{
    if entries.len() > 0 {
        let before = entries.drop_last();
        let last = entries.len() - 1;
        assert forall|i: int, j: int| 0 <= i < j < before.len() implies (#[trigger] before[i]).0 != (
        #[trigger] before[j]).0 by {
            assert(before[i] == entries[i] && before[j] == entries[j]);
        }
        lemma_members(before);
        assert forall|i: int| 0 <= i < entries.len() implies members_of(entries).contains_key(
            (#[trigger] entries[i]).0,
        ) && members_of(entries)[entries[i].0] == entries[i].1 by {
            if i < last {
                assert(before[i] == entries[i]);
                assert(entries[i].0 != entries[last].0);
            }
        }
        assert forall|key: Seq<char>| #[trigger]
            members_of(entries).contains_key(key) implies exists|i: int|
            0 <= i < entries.len() && (#[trigger] entries[i]).0 == key by {
            if key == entries[last].0 {
            } else {
                assert(members_of(before).contains_key(key));
                let i = choose|i: int| 0 <= i < before.len() && (#[trigger] before[i]).0 == key;
                assert(entries[i].0 == key);
            }
        }
    }
}

/// An object that is made of entries with different keys has each of them as a member, and no
/// others.
pub proof fn objects_hold_exactly_their_entries(
    entries: Seq<(Seq<char>, Json)>,
    key: Seq<char>,
    value: Json,
)
    requires
        forall|i: int, j: int|
            0 <= i < j < entries.len() ==> (#[trigger] entries[i]).0 != (#[trigger] entries[j]).0,
    ensures
        object(entries).member(key) == Some(value) <==> entries.contains((key, value)),
        object(entries).member(key) is None <==> forall|i: int|
            0 <= i < entries.len() ==> (#[trigger] entries[i]).0 != key,
{
    lemma_members(entries);
    if entries.contains((key, value)) {
        let i = choose|i: int| 0 <= i < entries.len() && entries[i] == (key, value);
        assert(entries[i].0 == key);
    }
    if object(entries).member(key) == Some(value) {
        assert(members_of(entries).contains_key(key));
        let i = choose|i: int| 0 <= i < entries.len() && (#[trigger] entries[i]).0 == key;
        assert(entries[i] == (key, value));
    }
}

/// What lists and entries hold is what each of their values holds, in order.
pub proof fn values_hold_each_their_own(values: Seq<Value>, entries: Seq<(String, Value)>)
    ensures
        jsons_of(values).len() == values.len(),
        forall|i: int| 0 <= i < values.len() ==> #[trigger] jsons_of(values)[i] == json_of(values[i]),
        entries_of(entries).len() == entries.len(),
        forall|i: int|
            0 <= i < entries.len() ==> #[trigger] entries_of(entries)[i] == (
                entries[i].0@,
                json_of(entries[i].1),
            ),
{
}

/// An object of one entry has that member, and no other.
pub(crate) proof fn lemma_object_of_one(key: Seq<char>, value: Json)
    ensures
        object(seq![(key, value)]) matches Json::Object(members) && members.dom() == set![key]
            && members[key] == value,
{
    let entries = seq![(key, value)];
    reveal_with_fuel(members_of, 2);
    assert(entries.drop_last() =~= Seq::empty());
    assert(members_of(entries).dom() =~= set![key]);
}

/// An object of two entries has these members, and no others.
pub(crate) proof fn lemma_object_of_two(a: (Seq<char>, Json), b: (Seq<char>, Json))
    requires
        a.0 != b.0,
    ensures
        object(seq![a, b]) matches Json::Object(members) && members.dom() == set![a.0, b.0]
            && members[a.0] == a.1 && members[b.0] == b.1,
{
    let entries = seq![a, b];
    assert(entries.drop_last() =~= seq![a]);
    lemma_object_of_one(a.0, a.1);
    assert(seq![a] =~= seq![(a.0, a.1)]);
    assert(members_of(entries).dom() =~= set![a.0, b.0]);
}

/// An object of three entries has these members, and no others.
pub(crate) proof fn lemma_object_of_three(
    a: (Seq<char>, Json),
    b: (Seq<char>, Json),
    c: (Seq<char>, Json),
)
    requires
        a.0 != b.0,
        a.0 != c.0,
        b.0 != c.0,
    ensures
        object(seq![a, b, c]) matches Json::Object(members) && members.dom() == set![a.0, b.0, c.0]
            && members[a.0] == a.1 && members[b.0] == b.1 && members[c.0] == c.1,
{
    let entries = seq![a, b, c];
    assert(entries.drop_last() =~= seq![a, b]);
    lemma_object_of_two(a, b);
    assert(members_of(entries).dom() =~= set![a.0, b.0, c.0]);
}

} // verus!
