use vstd::prelude::*;
use crate::json::{first_at, lemma_position_is, member, position, JsonValue};
use crate::record_id::{local_part, normalizes_to, replaced_by_text};
use crate::replies::{created_id, document_reply, Reply};

verus! {

/// Replacing one value in place keeps every member where it was.
pub proof fn lemma_replaced_positions(
    e: Seq<(String, JsonValue)>,
    r: Seq<(String, JsonValue)>,
    i: int,
    t: Seq<char>,
)
    requires
        replaced_by_text(e, r, i, t),
    ensures
        forall|key: Seq<char>| #[trigger] position(r, key) == position(e, key),
{
    assert forall|j: int| 0 <= j < e.len() implies #[trigger] r[j].0@ == e[j].0@ by {
        if j != i {
            assert(r[j] == e[j]);
        }
    }
    assert forall|key: Seq<char>| #[trigger] position(r, key) == position(e, key) by {
        if exists|j: int| first_at(e, key, j) {
            let j = choose|j: int| first_at(e, key, j);
            assert(first_at(r, key, j));
            lemma_position_is(e, key, j);
            lemma_position_is(r, key, j);
        } else if exists|j: int| first_at(r, key, j) {
            let j = choose|j: int| first_at(r, key, j);
            assert(first_at(e, key, j));
        }
    }
}

/// Identifiers reach clients as plain strings: whenever a document is
/// normalized, the result's `id` member, if it has one, is a string.
pub proof fn lemma_normalized_id_is_text(doc: JsonValue, r: JsonValue)
    requires
        normalizes_to(doc, Ok(r)),
    ensures
        member(r, "id"@) is Some ==> member(r, "id"@)->0 is Str,
{
    if let JsonValue::Object(e) = doc {
        if let Some(i) = position(e@, "id"@) {
            let t = local_part(e@[i].1)->0;
            lemma_replaced_positions(e@, r->Object_0@, i, t);
        }
    }
}

/// A create followed by a read of the same record: the read answers with the
/// stored document, its `id` member the very string that the create replied
/// with, and every other member as the store holds it.
pub proof fn lemma_create_then_get(created: JsonValue, fetched: JsonValue, reply: Reply)
    requires
        created_id(seq![created]) is Some,
        member(fetched, "id"@) == member(created, "id"@),
        document_reply(fetched, reply),
    ensures
        reply.status == 200,
        member(reply.body, "id"@) is Some,
        member(reply.body, "id"@)->0 is Str,
        member(reply.body, "id"@)->0->Str_0@ == created_id(seq![created])->0,
        forall|k: Seq<char>| k != "id"@ ==> #[trigger] member(reply.body, k) == member(fetched, k),
{
    let t = created_id(seq![created])->0;
    assert(seq![created][0] == created);
    let e = fetched->Object_0;
    let i = position(e@, "id"@)->0;
    assert(local_part(e@[i].1) == Some(t));
    let r = reply.body->Object_0;
    lemma_replaced_positions(e@, r@, i, t);
    assert(position(r@, "id"@) == Some(i));
    assert forall|k: Seq<char>| k != "id"@ implies #[trigger] member(reply.body, k) == member(fetched, k) by {
        if let Some(j) = position(e@, k) {
            assert(first_at(e@, k, j));
            assert(j != i);
        }
    }
}

} // verus!
