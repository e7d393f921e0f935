use eventfold::{line_hash, Event};
use serde_json::Value;
use std::time::{SystemTime, UNIX_EPOCH};

fn obj(fields: &[(&str, Value)]) -> Value {
    let mut m = serde_json::Map::new();
    for (k, v) in fields {
        m.insert(k.to_string(), v.clone());
    }
    Value::Object(m)
}

fn dummy_event(event_type: &str) -> Event {
    Event {
        event_type: event_type.to_string(),
        data: obj(&[("key", Value::from("value"))]),
        ts: 1000,
        id: None,
        actor: None,
        meta: None,
    }
}

#[test]
fn test_constructor_timestamp() {
    let now = SystemTime::now().duration_since(UNIX_EPOCH).unwrap().as_secs();
    let event = Event::new("test", obj(&[]));
    assert!(
        event.ts >= now && event.ts <= now + 2,
        "timestamp {} should be within 2 seconds of {}",
        event.ts,
        now
    );
}

#[test]
fn test_constructor_sets_fields() {
    let event = Event::new("my_event", obj(&[("key", Value::from("val"))]));
    assert_eq!(event.event_type, "my_event");
    assert_eq!(event.data, obj(&[("key", Value::from("val"))]));
    assert!(event.ts > 0);
}

#[test]
fn test_dummy_event_helper() {
    let event = dummy_event("helper_test");
    assert_eq!(event.event_type, "helper_test");
    assert_eq!(event.data, obj(&[("key", Value::from("value"))]));
    assert_eq!(event.ts, 1000);
}

#[test]
fn test_new_fields_default_none() {
    let event = Event::new("test", obj(&[]));
    assert_eq!(event.id, None);
    assert_eq!(event.actor, None);
    assert_eq!(event.meta, None);
}

#[test]
fn test_with_id() {
    let event = Event::new("test", obj(&[])).with_id("abc");
    assert_eq!(event.id, Some("abc".to_string()));
    assert_eq!(event.actor, None);
    assert_eq!(event.meta, None);
}

#[test]
fn test_with_actor() {
    let event = Event::new("test", obj(&[])).with_actor("user_1");
    assert_eq!(event.id, None);
    assert_eq!(event.actor, Some("user_1".to_string()));
    assert_eq!(event.meta, None);
}

#[test]
fn test_with_meta() {
    let meta = obj(&[("session", Value::from("sess_abc")), ("schema_version", Value::from(2))]);
    let event = Event::new("test", obj(&[])).with_meta(meta.clone());
    assert_eq!(event.id, None);
    assert_eq!(event.actor, None);
    assert_eq!(event.meta, Some(meta));
}

#[test]
fn test_metadata_builder_chaining() {
    let event = Event::new("test", obj(&[("x", Value::from(1))]))
        .with_id("evt-001")
        .with_actor("user_42")
        .with_meta(obj(&[("session", Value::from("s1"))]));
    assert_eq!(event.id, Some("evt-001".to_string()));
    assert_eq!(event.actor, Some("user_42".to_string()));
    assert_eq!(event.meta, Some(obj(&[("session", Value::from("s1"))])));
    assert_eq!(event.event_type, "test");
    assert_eq!(event.data, obj(&[("x", Value::from(1))]));
}

#[test]
fn test_line_hash_function() {
    let hash1 = line_hash(b"hello world");
    let hash2 = line_hash(b"hello world");
    let hash3 = line_hash(b"different");
    assert_eq!(hash1, hash2);
    assert_ne!(hash1, hash3);
    assert_eq!(hash1.len(), 16, "hex hash should be 16 characters");
}
