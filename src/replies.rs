use vstd::prelude::*;
use crate::json::{member, object_of, position, single_member, text, JsonValue};
use crate::record_id::{local_part, local_part_of, normalize, normalizes_to, CodecError};

verus! {

/// The kinds of failure that a request can end in.
#[derive(Debug, Clone, PartialEq)]
pub enum ServiceError {
    /// The store could not be reached or refused the operation.
    StoreIO,
    /// The addressed document does not exist.
    NotFound,
    /// A document's `id` member is not a record identifier.
    MalformedIdentifier,
    /// A request body does not have the expected shape.
    Deserialization,
}

/// A status code and a JSON body, ready to be sent.
#[derive(Debug, PartialEq)]
pub struct Reply {
    pub status: u16,
    pub body: JsonValue,
}

pub open spec fn error_kind(e: ServiceError) -> Seq<char> {
    match e {
        ServiceError::StoreIO => "StoreIOError"@,
        ServiceError::NotFound => "NotFound"@,
        ServiceError::MalformedIdentifier => "MalformedIdentifier"@,
        ServiceError::Deserialization => "DeserializationError"@,
    }
}

/// `b` is `{"error": msg}`.
pub open spec fn error_body(b: JsonValue, msg: Seq<char>) -> bool {
    &&& b is Object
    &&& b->Object_0@.len() == 1
    &&& b->Object_0@[0].0@ == "error"@
    &&& b->Object_0@[0].1 is Str
    &&& b->Object_0@[0].1->Str_0@ == msg
}

/// `b` is `{key: s}` with `s` a string holding `t`.
pub open spec fn text_body(b: JsonValue, key: Seq<char>, t: Seq<char>) -> bool {
    &&& b is Object
    &&& b->Object_0@.len() == 1
    &&& b->Object_0@[0].0@ == key
    &&& b->Object_0@[0].1 is Str
    &&& b->Object_0@[0].1->Str_0@ == t
}

/// A server failure of kind `e`: status 500 with body `{"error": <kind>}`.
pub open spec fn is_failure(r: Reply, e: ServiceError) -> bool {
    r.status == 500 && error_body(r.body, error_kind(e))
}

/// `doc` holds an `id` member that is not a record identifier.
pub open spec fn malformed(doc: JsonValue) -> bool {
    match doc {
        JsonValue::Object(e) => match position(e@, "id"@) {
            Some(i) => local_part(e@[i].1) is None,
            None => false,
        },
        _ => false,
    }
}

/// The identifier text that a store's answer to a create carries: the local
/// part of the first record's `id`.
pub open spec fn created_id(created: Seq<JsonValue>) -> Option<Seq<char>> {
    if created.len() == 0 {
        None
    } else {
        match member(created[0], "id"@) {
            Some(v) => local_part(v),
            None => None,
        }
    }
}

/// The reply for `doc` once read or written by the store: the normalized
/// document, or a failure when its identifier is malformed.
pub open spec fn document_reply(doc: JsonValue, r: Reply) -> bool {
    if malformed(doc) {
        is_failure(r, ServiceError::MalformedIdentifier)
    } else {
        r.status == 200 && normalizes_to(doc, Ok(r.body))
    }
}

pub proof fn lemma_normalized_outcome(doc: JsonValue, r: Result<JsonValue, CodecError>)
    requires
        normalizes_to(doc, r),
    ensures
        r is Err <==> malformed(doc),
{
}

/// The name of an error kind, as clients see it.
pub fn error_kind_text(e: &ServiceError) -> (r: String)
    ensures
        r@ == error_kind(*e),
{
    match e {
        ServiceError::StoreIO => String::from_str("StoreIOError"),
        ServiceError::NotFound => String::from_str("NotFound"),
        ServiceError::MalformedIdentifier => String::from_str("MalformedIdentifier"),
        ServiceError::Deserialization => String::from_str("DeserializationError"),
    }
}

/// Status 500 with `{"error": <kind>}`.
pub fn error_reply(e: ServiceError) -> (r: Reply)
    ensures
        is_failure(r, e),
{
    let kind = error_kind_text(&e);
    Reply { status: 500, body: object_of("error", JsonValue::Str(kind)) }
}

/// The reply to a greeting request: `{"message": "Hello, World!"}`.
pub fn greeting_reply() -> (r: Reply)
    ensures
        r.status == 200,
        text_body(r.body, "message"@, "Hello, World!"@),
{
    Reply { status: 200, body: object_of("message", text("Hello, World!")) }
}

/// The reply to a create, from the records that the store reports as
/// created: `{"id": <local part of the first record's identifier>}`.
pub fn create_reply(created: Vec<JsonValue>) -> (r: Reply)
    ensures
        created@.len() == 0 ==> is_failure(r, ServiceError::StoreIO),
        created@.len() > 0 ==> match created_id(created@) {
            Some(t) => r.status == 200 && text_body(r.body, "id"@, t),
            None => is_failure(r, ServiceError::MalformedIdentifier),
        },
{
    if created.len() == 0 {
        return error_reply(ServiceError::StoreIO);
    }
    let first = &created[0];
    match first {
        JsonValue::Object(e) => {
            let id = String::from_str("id");
            match crate::json::find_entry(e, &id) {
                Some(i) => match local_part_of(&e[i].1) {
                    Some(t) => Reply { status: 200, body: object_of("id", JsonValue::Str(t)) },
                    None => error_reply(ServiceError::MalformedIdentifier),
                },
                None => error_reply(ServiceError::MalformedIdentifier),
            }
        },
        _ => error_reply(ServiceError::MalformedIdentifier),
    }
}

/// The reply for a document that the store read or wrote.
pub fn document_reply_of(doc: JsonValue) -> (r: Reply)
    ensures
        document_reply(doc, r),
{
    let ghost d = doc;
    let n = normalize(doc);
    proof {
        lemma_normalized_outcome(d, n);
    }
    match n {
        Ok(x) => Reply { status: 200, body: x },
        Err(_) => error_reply(ServiceError::MalformedIdentifier),
    }
}

/// The reply to a read of one document: the normalized document, or 404
/// with `{"error": "Not found"}` when the store has none.
pub fn get_reply(found: Option<JsonValue>) -> (r: Reply)
    ensures
        match found {
            Some(doc) => document_reply(doc, r),
            None => r.status == 404 && error_body(r.body, "Not found"@),
        },
{
    match found {
        Some(doc) => document_reply_of(doc),
        None => Reply { status: 404, body: object_of("error", text("Not found")) },
    }
}

/// The reply to a merge or a patch: the normalized document as the store
/// left it; a failure when the store had no such document.
pub fn modified_reply(updated: Option<JsonValue>) -> (r: Reply)
    ensures
        match updated {
            Some(doc) => document_reply(doc, r),
            None => is_failure(r, ServiceError::NotFound),
        },
{
    match updated {
        Some(doc) => document_reply_of(doc),
        None => error_reply(ServiceError::NotFound),
    }
}

/// The reply to a listing: every document normalized, in the store's order,
/// or a failure when any of them has a malformed identifier.
pub fn list_reply(docs: Vec<JsonValue>) -> (r: Reply)
    ensures
        (forall|j: int| 0 <= j < docs@.len() ==> !malformed(#[trigger] docs@[j])) ==> {
            &&& r.status == 200
            &&& r.body is Array
            &&& r.body->Array_0@.len() == docs@.len()
            &&& forall|j: int|
                0 <= j < docs@.len() ==> normalizes_to(
                    docs@[j],
                    Ok(#[trigger] r.body->Array_0@[j]),
                )
        },
        (exists|j: int| 0 <= j < docs@.len() && malformed(#[trigger] docs@[j])) ==> is_failure(
            r,
            ServiceError::MalformedIdentifier,
        ),
{
    let ghost all = docs@;
    let mut rest = docs;
    let mut out: Vec<JsonValue> = Vec::new();
    while rest.len() > 0
        invariant
            all == docs@,
            out@.len() + rest@.len() == all.len(),
            rest@ == all.subrange(out@.len() as int, all.len() as int),
            forall|j: int| 0 <= j < out@.len() ==> normalizes_to(all[j], Ok(#[trigger] out@[j])),
            forall|j: int| 0 <= j < out@.len() ==> !malformed(#[trigger] all[j]),
        decreases rest@.len(),
    {
        let ghost k = out@.len() as int;
        let d = rest.remove(0);
        assert(d == all[k]);
        let n = normalize(d);
        proof {
            lemma_normalized_outcome(all[k], n);
        }
        match n {
            Ok(x) => {
                out.push(x);
            },
            Err(_) => {
                assert(malformed(all[k]));
                return error_reply(ServiceError::MalformedIdentifier);
            },
        }
    }
    Reply { status: 200, body: JsonValue::Array(out) }
}

/// The reply to a transaction batch: `{"n": <statements the store ran>}`.
pub fn count_reply(n: usize) -> (r: Reply)
    requires
        n <= i64::MAX,
    ensures
        r.status == 200,
        single_member(r.body, "n"@, JsonValue::Int(n as i64)),
{
    Reply { status: 200, body: object_of("n", JsonValue::Int(n as i64)) }
}

} // verus!
