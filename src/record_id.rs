use vstd::prelude::*;
use crate::json::{find_entry, member, position, JsonValue};

verus! {

/// Why a document could not be prepared for a client.
#[derive(Debug, Clone, PartialEq)]
pub enum CodecError {
    /// The document's `id` member is not a record identifier as the store writes it.
    MalformedIdentifier,
}

/// A record identifier as a request path gives it: the collection and the
/// record's local id, both taken verbatim.
#[derive(Debug, Clone, PartialEq)]
pub struct RecordId {
    pub collection: String,
    pub id: String,
}

pub open spec fn digit(d: nat) -> char {
    seq!['0', '1', '2', '3', '4', '5', '6', '7', '8', '9'][d as int]
}

/// The decimal digits of `n`, most significant first.
pub open spec fn digits(n: nat) -> Seq<char>
    decreases n,
{
    if n < 10 {
        seq![digit(n)]
    } else {
        digits(n / 10).push(digit(n % 10))
    }
}

/// `n` written in decimal, with a leading `-` when negative.
pub open spec fn decimal(n: int) -> Seq<char> {
    if n < 0 {
        seq!['-'] + digits((-n) as nat)
    } else {
        digits(n as nat)
    }
}

/// The text of the key part of a record identifier. The store writes the key
/// as an object with one member that names its kind: `{"String": s}` or
/// `{"Number": n}`.
pub open spec fn key_text(k: JsonValue) -> Option<Seq<char>> {
    match k {
        JsonValue::Object(e) => if e@.len() == 1 {
            if e@[0].0@ == "String"@ {
                match e@[0].1 {
                    JsonValue::Str(s) => Some(s@),
                    _ => None,
                }
            } else if e@[0].0@ == "Number"@ {
                match e@[0].1 {
                    JsonValue::Int(n) => Some(decimal(n as int)),
                    _ => None,
                }
            } else {
                None
            }
        } else {
            None
        },
        _ => None,
    }
}

/// The local part of a structured record identifier
/// `{"tb": <collection>, "id": <key>}`: the key's text, without the collection.
pub open spec fn local_part(v: JsonValue) -> Option<Seq<char>> {
    match member(v, "tb"@) {
        Some(JsonValue::Str(_)) => match member(v, "id"@) {
            Some(k) => key_text(k),
            None => None,
        },
        _ => None,
    }
}

/// `r` is `e` with the value at `i` replaced by the string `t`, every entry
/// keeping its name and place.
pub open spec fn replaced_by_text(
    e: Seq<(String, JsonValue)>,
    r: Seq<(String, JsonValue)>,
    i: int,
    t: Seq<char>,
) -> bool {
    &&& r.len() == e.len()
    &&& 0 <= i < e.len()
    &&& r[i].0@ == e[i].0@
    &&& r[i].1 is Str
    &&& r[i].1->Str_0@ == t
    &&& forall|j: int| 0 <= j < e.len() && j != i ==> r[j] == e[j]
}

/// What normalizing `doc` gives: an object whose `id` member holds a record
/// identifier gets that member replaced by the identifier's local part as a
/// string; an `id` member of another shape is an error; anything else is
/// returned as it is.
pub open spec fn normalizes_to(doc: JsonValue, r: Result<JsonValue, CodecError>) -> bool {
    match doc {
        JsonValue::Object(e) => match position(e@, "id"@) {
            None => r == Ok::<JsonValue, CodecError>(doc),
            Some(i) => match local_part(e@[i].1) {
                None => r == Err::<JsonValue, CodecError>(CodecError::MalformedIdentifier),
                Some(t) => {
                    &&& r is Ok
                    &&& r->Ok_0 is Object
                    &&& replaced_by_text(e@, r->Ok_0->Object_0@, i, t)
                },
            },
        },
        _ => r == Ok::<JsonValue, CodecError>(doc),
    }
}

/// Relies on `i64`'s `Display` through `ToString`: decimal digits, after a
/// `-` for a negative number.
#[verifier::external_body]
fn decimal_string(n: i64) -> (r: String)
    ensures
        r@ == decimal(n as int),
{
    n.to_string()
}

/// The text of a record identifier's key, if `k` is a key.
pub fn key_text_of(k: &JsonValue) -> (r: Option<String>)
    ensures
        match r {
            Some(s) => key_text(*k) == Some(s@),
            None => key_text(*k) is None,
        },
{
    match k {
        JsonValue::Object(e) => {
            if e.len() != 1 {
                return None;
            }
            let name = &e[0].0;
            if *name == String::from_str("String") {
                match &e[0].1 {
                    JsonValue::Str(s) => Some(s.clone()),
                    _ => None,
                }
            } else if *name == String::from_str("Number") {
                match &e[0].1 {
                    JsonValue::Int(n) => Some(decimal_string(*n)),
                    _ => None,
                }
            } else {
                None
            }
        },
        _ => None,
    }
}

/// The local part of a structured record identifier, if `v` is one.
pub fn local_part_of(v: &JsonValue) -> (r: Option<String>)
    ensures
        match r {
            Some(s) => local_part(*v) == Some(s@),
            None => local_part(*v) is None,
        },
{
    match v {
        JsonValue::Object(e) => {
            let tb = String::from_str("tb");
            match find_entry(e, &tb) {
                Some(ti) => match &e[ti].1 {
                    JsonValue::Str(_) => {
                        let id = String::from_str("id");
                        match find_entry(e, &id) {
                            Some(ki) => key_text_of(&e[ki].1),
                            None => None,
                        }
                    },
                    _ => None,
                },
                None => None,
            }
        },
        _ => None,
    }
}

/// The identifier named by the path segments `collection` and `id`. Nothing
/// of `id` is checked here: an id the store does not know fails there.
pub fn parse_path_id(collection: String, id: String) -> (r: RecordId)
    ensures
        r.collection@ == collection@,
        r.id@ == id@,
{
    RecordId { collection, id }
}

/// Replaces the record identifier in a document's `id` member by its local
/// part, as a plain string.
pub fn normalize(doc: JsonValue) -> (r: Result<JsonValue, CodecError>)
    ensures
        normalizes_to(doc, r),
{
    match doc {
        JsonValue::Object(mut e) => {
            let id = String::from_str("id");
            match find_entry(&e, &id) {
                None => Ok(JsonValue::Object(e)),
                Some(i) => match local_part_of(&e[i].1) {
                    None => Err(CodecError::MalformedIdentifier),
                    Some(t) => {
                        let (k, _prior) = e.remove(i);
                        e.insert(i, (k, JsonValue::Str(t)));
                        Ok(JsonValue::Object(e))
                    },
                },
            }
        },
        other => Ok(other),
    }
}

} // verus!
