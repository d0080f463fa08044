use dialogue_storage::{Serializer, StorageError};
use serde_json::{Number, Value};

fn state(step: i64) -> Value {
    let mut fields = serde_json::Map::new();
    fields.insert("step".to_string(), Value::from(step));
    Value::Object(fields)
}

fn survives(value: Value) -> bool {
    let payload = Serializer::JSON.serialize(&value).unwrap();
    Serializer::JSON.deserialize(&payload).unwrap() == value
}

#[test]
fn serialize_writes_compact_json() {
    assert_eq!(Serializer::JSON.serialize(&Value::from(7)).unwrap(), b"7".to_vec());
    assert_eq!(Serializer::JSON.serialize(&Value::Null).unwrap(), b"null".to_vec());
    assert_eq!(Serializer::JSON.serialize(&state(1)).unwrap(), b"{\"step\":1}".to_vec());
    assert_eq!(
        Serializer::JSON.serialize(&Value::from("a\"b")).unwrap(),
        b"\"a\\\"b\"".to_vec()
    );
}

#[test]
fn deserialize_reads_json() {
    assert_eq!(Serializer::JSON.deserialize(b"{\"step\": 2}").unwrap(), state(2));
    assert_eq!(Serializer::JSON.deserialize(b" [1, true, null] ").unwrap(), Value::Array(vec![
        Value::from(1),
        Value::Bool(true),
        Value::Null,
    ]));
}

#[test]
fn round_trip_of_scalars() {
    assert!(survives(Value::Null));
    assert!(survives(Value::Bool(true)));
    assert!(survives(Value::Bool(false)));
    assert!(survives(Value::from(0)));
    assert!(survives(Value::from(-1)));
    assert!(survives(Value::from(i64::MIN)));
    assert!(survives(Value::from(u64::MAX)));
    assert!(survives(Value::from("")));
    assert!(survives(Value::from("line\nbreak \u{1F600} \\ \"quoted\"")));
    assert!(survives(Value::Number(Number::from_f64(0.25).unwrap())));
}

#[test]
fn round_trip_of_structures() {
    assert!(survives(Value::Array(vec![])));
    assert!(survives(Value::Object(serde_json::Map::new())));
    assert!(survives(state(1)));
    let mut outer = serde_json::Map::new();
    outer.insert("state".to_string(), state(3));
    outer.insert("history".to_string(), Value::Array(vec![state(1), state(2), Value::Null]));
    outer.insert("name".to_string(), Value::from("checkout"));
    assert!(survives(Value::Object(outer)));
}

#[test]
fn deserialize_rejects_malformed_payload() {
    for payload in [&b"{not json"[..], &b""[..], &b"{\"step\":1} trailing"[..], &b"\xff\xfe"[..]] {
        let r = Serializer::JSON.deserialize(payload);
        assert!(matches!(r, Err(StorageError::Deserialization(_))));
    }
}

#[test]
fn deserialize_does_not_hand_the_payload_back() {
    let value = Serializer::JSON.deserialize(b"\"7\"").unwrap();
    assert_eq!(value, Value::from("7"));
    assert_ne!(value, Value::from(7));
}

#[test]
fn payload_failures_are_permanent() {
    let failure = Serializer::JSON.deserialize(b"[").unwrap_err();
    assert!(!failure.is_transient());
}

#[test]
fn encoding_failures_are_permanent() {
    let mut keyed_by_bytes = std::collections::BTreeMap::new();
    keyed_by_bytes.insert(vec![1u8, 2u8], 3u8);
    let refusal = serde_json::to_vec(&keyed_by_bytes).unwrap_err();
    let failure = StorageError::Serialization(refusal);
    assert!(!failure.is_transient());
    assert!(matches!(failure, StorageError::Serialization(_)));
}
