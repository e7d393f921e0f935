use eventfold::{
    archive_file_path, log_file_path, views_dir_path, Event, EventLogBuilder, EventReader, LockMode,
};
use serde_json::Value;

#[test]
fn new_event_has_type_data_and_time() {
    let e = Event::new("click", Value::from(10));
    assert_eq!(e.event_type, "click");
    assert_eq!(e.data, Value::from(10));
    assert!(e.ts > 0);
    assert_eq!(e.id, None);
    assert_eq!(e.actor, None);
    assert_eq!(e.meta, None);
}

#[test]
fn builders_set_optional_fields() {
    let e = Event::new("order_placed", Value::Null)
        .with_id("ord-001")
        .with_actor("user_42")
        .with_meta(Value::from("sess_abc"));
    assert_eq!(e.id, Some("ord-001".to_string()));
    assert_eq!(e.actor, Some("user_42".to_string()));
    assert_eq!(e.meta, Some(Value::from("sess_abc")));
    assert_eq!(e.event_type, "order_placed");
}

#[test]
fn reader_paths() {
    let r = EventReader::new("/data/log");
    assert_eq!(r.log_path(), "/data/log/app.jsonl");
    assert_eq!(r.archive_path(), "/data/log/archive.jsonl.zst");
    let r = EventReader::new("/data/log/");
    assert_eq!(r.log_path(), "/data/log/app.jsonl");
}

#[test]
fn layout_paths() {
    assert_eq!(log_file_path("d"), "d/app.jsonl");
    assert_eq!(archive_file_path("d"), "d/archive.jsonl.zst");
    assert_eq!(views_dir_path("d"), "d/views");
    assert_eq!(views_dir_path(""), "views");
}

#[test]
fn builder_defaults_and_setters() {
    let b = EventLogBuilder::new("dir");
    assert_eq!(b.dir(), "dir");
    assert_eq!(b.rotation_threshold(), 0);
    assert_eq!(b.configured_lock_mode(), LockMode::Flock);
    assert!(!b.rotate_on_open(1_000_000));
    let b = b.max_log_size(100).lock_mode(LockMode::Unlocked);
    assert_eq!(b.rotation_threshold(), 100);
    assert_eq!(b.configured_lock_mode(), LockMode::Unlocked);
    assert!(b.rotate_on_open(100));
    assert!(!b.rotate_on_open(99));
}

#[test]
fn cloned_event_keeps_payload() {
    let e = Event::new("click", Value::from(vec![1, 2, 3])).with_meta(Value::from("m"));
    let c = e.clone();
    assert_eq!(c, e);
    assert_eq!(c.data, Value::from(vec![1, 2, 3]));
    assert_ne!(c.data, Value::Null);
}
