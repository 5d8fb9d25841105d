use vstd::prelude::*;

verus! {

/// A JSON value as the service sees request and response bodies.
///
/// Numbers that fit an `i64` are held as integers; any other number is held
/// as its literal text, so no floating point enters the library.
#[derive(Debug, PartialEq)]
pub enum JsonValue {
    Null,
    Bool(bool),
    Int(i64),
    Decimal(String),
    Str(String),
    Array(Vec<JsonValue>),
    Object(Vec<(String, JsonValue)>),
}

/// `i` is the first position of an entry named `key`.
pub open spec fn first_at(entries: Seq<(String, JsonValue)>, key: Seq<char>, i: int) -> bool {
    &&& 0 <= i < entries.len()
    &&& entries[i].0@ == key
    &&& forall|j: int| 0 <= j < i ==> entries[j].0@ != key
}

/// The position of the entry named `key`, the first one if there are several.
pub open spec fn position(entries: Seq<(String, JsonValue)>, key: Seq<char>) -> Option<int> {
    if exists|i: int| first_at(entries, key, i) {
        Some(choose|i: int| first_at(entries, key, i))
    } else {
        None
    }
}

/// The value that the member `key` of an object holds; `None` for a missing
/// member and for a value that is not an object.
pub open spec fn member(v: JsonValue, key: Seq<char>) -> Option<JsonValue> {
    match v {
        JsonValue::Object(entries) => match position(entries@, key) {
            Some(i) => Some(entries@[i].1),
            None => None,
        },
        _ => None,
    }
}

/// An object with the single member `key`.
pub open spec fn single_member(v: JsonValue, key: Seq<char>, value: JsonValue) -> bool {
    &&& v is Object
    &&& v->Object_0@.len() == 1
    &&& v->Object_0@[0].0@ == key
    &&& v->Object_0@[0].1 == value
}

pub proof fn lemma_first_at_unique(entries: Seq<(String, JsonValue)>, key: Seq<char>, i: int, j: int)
    requires
        first_at(entries, key, i),
        first_at(entries, key, j),
    ensures
        i == j,
{
}

pub proof fn lemma_position_is(entries: Seq<(String, JsonValue)>, key: Seq<char>, i: int)
    requires
        first_at(entries, key, i),
    ensures
        position(entries, key) == Some(i),
{
    let c = choose|c: int| first_at(entries, key, c);
    lemma_first_at_unique(entries, key, i, c);
}

/// Finds the first entry named `key`.
pub fn find_entry(entries: &Vec<(String, JsonValue)>, key: &String) -> (r: Option<usize>)
    ensures
        match r {
            Some(i) => position(entries@, key@) == Some(i as int),
            None => position(entries@, key@) is None,
        },
{
    let mut i: usize = 0;
    while i < entries.len()
        invariant
            i <= entries@.len(),
            forall|j: int| 0 <= j < i ==> entries@[j].0@ != key@,
        decreases entries@.len() - i,
    {
        if entries[i].0 == *key {
            proof {
                lemma_position_is(entries@, key@, i as int);
            }
            return Some(i);
        }
        i = i + 1;
    }
    None
}

/// A string value holding a copy of `s`.
pub fn text(s: &str) -> (r: JsonValue)
    ensures
        r is Str,
        r->Str_0@ == s@,
{
    JsonValue::Str(String::from_str(s))
}

/// An object with the single member `key`.
pub fn object_of(key: &str, value: JsonValue) -> (r: JsonValue)
    ensures
        single_member(r, key@, value),
        member(r, key@) == Some(value),
{
    let mut entries: Vec<(String, JsonValue)> = Vec::new();
    entries.push((String::from_str(key), value));
    proof {
        lemma_position_is(entries@, key@, 0);
    }
    JsonValue::Object(entries)
}

} // verus!
