use flexdb::json::{find_entry, object_of, text, JsonValue};
use flexdb::record_id::{key_text_of, local_part_of, normalize, parse_path_id, CodecError, RecordId};
use flexdb::replies::{
    create_reply, error_kind_text, error_reply, get_reply, greeting_reply, list_reply,
    modified_reply, count_reply, document_reply_of, ServiceError,
};
use flexdb::txs::{plan_batch, update_statement, Tx};

fn s(v: &str) -> JsonValue {
    JsonValue::Str(v.to_string())
}

fn obj(entries: Vec<(&str, JsonValue)>) -> JsonValue {
    JsonValue::Object(entries.into_iter().map(|(k, v)| (k.to_string(), v)).collect())
}

fn string_key(table: &str, key: &str) -> JsonValue {
    obj(vec![("tb", s(table)), ("id", obj(vec![("String", s(key))]))])
}

fn number_key(table: &str, key: i64) -> JsonValue {
    obj(vec![("tb", s(table)), ("id", obj(vec![("Number", JsonValue::Int(key))]))])
}

fn error_of(msg: &str) -> JsonValue {
    obj(vec![("error", s(msg))])
}

#[test]
fn create_then_get_scenario() {
    let stored = obj(vec![("id", string_key("users", "opaque01")), ("name", s("Ann"))]);
    let created = create_reply(vec![stored]);
    assert_eq!(created.status, 200);
    assert_eq!(created.body, obj(vec![("id", s("opaque01"))]));

    let fetched = obj(vec![("id", string_key("users", "opaque01")), ("name", s("Ann"))]);
    let got = get_reply(Some(fetched));
    assert_eq!(got.status, 200);
    assert_eq!(got.body, obj(vec![("id", s("opaque01")), ("name", s("Ann"))]));
}

#[test]
fn get_missing_is_not_found() {
    let r = get_reply(None);
    assert_eq!(r.status, 404);
    assert_eq!(r.body, error_of("Not found"));
}

#[test]
fn get_keeps_other_members() {
    let doc = obj(vec![
        ("age", JsonValue::Int(31)),
        ("id", string_key("users", "u7")),
        ("tags", JsonValue::Array(vec![s("x"), s("y")])),
    ]);
    let r = get_reply(Some(doc));
    assert_eq!(r.status, 200);
    assert_eq!(
        r.body,
        obj(vec![
            ("age", JsonValue::Int(31)),
            ("id", s("u7")),
            ("tags", JsonValue::Array(vec![s("x"), s("y")])),
        ])
    );
}

#[test]
fn get_with_malformed_id_fails() {
    let r = get_reply(Some(obj(vec![("id", s("users:u7"))])));
    assert_eq!(r.status, 500);
    assert_eq!(r.body, error_of("MalformedIdentifier"));
}

#[test]
fn normalize_number_key() {
    let r = normalize(obj(vec![("id", number_key("account", 42))]));
    assert_eq!(r, Ok(obj(vec![("id", s("42"))])));
    let r = normalize(obj(vec![("id", number_key("account", -7))]));
    assert_eq!(r, Ok(obj(vec![("id", s("-7"))])));
    let r = normalize(obj(vec![("id", number_key("account", 0))]));
    assert_eq!(r, Ok(obj(vec![("id", s("0"))])));
}

#[test]
fn normalize_without_id_is_unchanged() {
    let r = normalize(obj(vec![("name", s("Ann"))]));
    assert_eq!(r, Ok(obj(vec![("name", s("Ann"))])));
}

#[test]
fn normalize_non_object_is_unchanged() {
    assert_eq!(normalize(JsonValue::Null), Ok(JsonValue::Null));
    assert_eq!(normalize(s("plain")), Ok(s("plain")));
    assert_eq!(
        normalize(JsonValue::Array(vec![JsonValue::Bool(true)])),
        Ok(JsonValue::Array(vec![JsonValue::Bool(true)]))
    );
}

#[test]
fn normalize_rejects_malformed_ids() {
    let bad = vec![
        s("users:1"),
        JsonValue::Int(3),
        obj(vec![("id", obj(vec![("String", s("a"))]))]),
        obj(vec![("tb", JsonValue::Int(1)), ("id", obj(vec![("String", s("a"))]))]),
        obj(vec![("tb", s("users")), ("id", s("a"))]),
        obj(vec![("tb", s("users")), ("id", obj(vec![("Array", s("a"))]))]),
        obj(vec![("tb", s("users")), ("id", obj(vec![("String", JsonValue::Int(1))]))]),
        obj(vec![("tb", s("users")), ("id", obj(vec![("Number", s("1"))]))]),
        obj(vec![("tb", s("users")), ("id", obj(vec![]))]),
    ];
    for id in bad {
        assert_eq!(normalize(obj(vec![("id", id)])), Err(CodecError::MalformedIdentifier));
    }
}

#[test]
fn local_part_ignores_the_collection() {
    assert_eq!(local_part_of(&string_key("users", "abc")), Some("abc".to_string()));
    assert_eq!(local_part_of(&number_key("users", 12)), Some("12".to_string()));
    assert_eq!(local_part_of(&s("abc")), None);
    assert_eq!(key_text_of(&obj(vec![("String", s("k"))])), Some("k".to_string()));
    assert_eq!(key_text_of(&obj(vec![("Number", JsonValue::Int(-12))])), Some("-12".to_string()));
    assert_eq!(key_text_of(&s("k")), None);
}

#[test]
fn create_reply_edge_cases() {
    let r = create_reply(vec![]);
    assert_eq!(r.status, 500);
    assert_eq!(r.body, error_of("StoreIOError"));
    let r = create_reply(vec![obj(vec![("name", s("Ann"))])]);
    assert_eq!(r.status, 500);
    assert_eq!(r.body, error_of("MalformedIdentifier"));
    let r = create_reply(vec![
        obj(vec![("id", number_key("users", 5))]),
        obj(vec![("id", number_key("users", 6))]),
    ]);
    assert_eq!(r.status, 200);
    assert_eq!(r.body, obj(vec![("id", s("5"))]));
}

#[test]
fn list_normalizes_every_document() {
    let r = list_reply(vec![]);
    assert_eq!(r.status, 200);
    assert_eq!(r.body, JsonValue::Array(vec![]));

    let r = list_reply(vec![
        obj(vec![("id", string_key("users", "a")), ("name", s("Ann"))]),
        obj(vec![("id", string_key("users", "b")), ("name", s("Bob"))]),
    ]);
    assert_eq!(r.status, 200);
    assert_eq!(
        r.body,
        JsonValue::Array(vec![
            obj(vec![("id", s("a")), ("name", s("Ann"))]),
            obj(vec![("id", s("b")), ("name", s("Bob"))]),
        ])
    );

    let r = list_reply(vec![
        obj(vec![("id", string_key("users", "a"))]),
        obj(vec![("id", JsonValue::Null)]),
    ]);
    assert_eq!(r.status, 500);
    assert_eq!(r.body, error_of("MalformedIdentifier"));
}

#[test]
fn modified_reply_cases() {
    let r = modified_reply(None);
    assert_eq!(r.status, 500);
    assert_eq!(r.body, error_of("NotFound"));
    let merged = obj(vec![
        ("id", string_key("users", "a")),
        ("name", s("Ann")),
        ("tags", JsonValue::Array(vec![s("x"), s("y")])),
    ]);
    let r = modified_reply(Some(merged));
    assert_eq!(r.status, 200);
    assert_eq!(
        r.body,
        obj(vec![
            ("id", s("a")),
            ("name", s("Ann")),
            ("tags", JsonValue::Array(vec![s("x"), s("y")])),
        ])
    );
    let r = document_reply_of(JsonValue::Decimal("1.5".to_string()));
    assert_eq!(r.status, 200);
    assert_eq!(r.body, JsonValue::Decimal("1.5".to_string()));
}

#[test]
fn error_replies_name_their_kind() {
    assert_eq!(error_kind_text(&ServiceError::StoreIO), "StoreIOError");
    assert_eq!(error_kind_text(&ServiceError::NotFound), "NotFound");
    assert_eq!(error_kind_text(&ServiceError::MalformedIdentifier), "MalformedIdentifier");
    assert_eq!(error_kind_text(&ServiceError::Deserialization), "DeserializationError");
    let r = error_reply(ServiceError::Deserialization);
    assert_eq!(r.status, 500);
    assert_eq!(r.body, error_of("DeserializationError"));
}

#[test]
fn greeting() {
    let r = greeting_reply();
    assert_eq!(r.status, 200);
    assert_eq!(r.body, obj(vec![("message", s("Hello, World!"))]));
}

#[test]
fn transfer_batch_scenario() {
    let txs = vec![
        Tx { id: "account:1".to_string(), field: "balance".to_string(), amount: -50 },
        Tx { id: "account:2".to_string(), field: "balance".to_string(), amount: 50 },
    ];
    let plan = plan_batch(&txs);
    assert_eq!(plan.len(), 2);
    assert_eq!(plan[0].text, "UPDATE account:1 SET balance -= $amount");
    assert_eq!(plan[0].amount, -50);
    assert_eq!(plan[1].text, "UPDATE account:2 SET balance += $amount");
    assert_eq!(plan[1].amount, 50);
    let r = count_reply(4);
    assert_eq!(r.status, 200);
    assert_eq!(r.body, obj(vec![("n", JsonValue::Int(4))]));
}

#[test]
fn zero_amount_uses_plus() {
    let tx = Tx { id: "account:3".to_string(), field: "points".to_string(), amount: 0 };
    let st = update_statement(&tx);
    assert_eq!(st.text, "UPDATE account:3 SET points += $amount");
    assert_eq!(st.amount, 0);
    assert!(plan_batch(&vec![]).is_empty());
}

#[test]
fn extreme_amounts() {
    let tx = Tx { id: "a:1".to_string(), field: "f".to_string(), amount: i64::MIN };
    let st = update_statement(&tx);
    assert_eq!(st.text, "UPDATE a:1 SET f -= $amount");
    assert_eq!(st.amount, i64::MIN);
    let r = normalize(obj(vec![("id", number_key("a", i64::MIN))]));
    assert_eq!(r, Ok(obj(vec![("id", s("-9223372036854775808"))])));
}

#[test]
fn member_lookup_takes_the_first() {
    let entries = vec![
        ("a".to_string(), JsonValue::Int(1)),
        ("b".to_string(), JsonValue::Int(2)),
        ("a".to_string(), JsonValue::Int(3)),
    ];
    assert_eq!(find_entry(&entries, &"a".to_string()), Some(0));
    assert_eq!(find_entry(&entries, &"b".to_string()), Some(1));
    assert_eq!(find_entry(&entries, &"c".to_string()), None);
    assert_eq!(object_of("k", text("v")), obj(vec![("k", s("v"))]));
}

#[test]
fn path_ids_are_taken_verbatim() {
    let r = parse_path_id("users".to_string(), "odd id!".to_string());
    assert_eq!(r, RecordId { collection: "users".to_string(), id: "odd id!".to_string() });
}
