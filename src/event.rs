use vstd::prelude::*;

verus! {

/// A JSON value, carried through the library untouched.
#[verifier::external_type_specification]
#[verifier::external_body]
pub struct ExJsonValue(serde_json::Value);

/// Relies on `Clone` for `serde_json::Value`: the copy holds the same value.
pub assume_specification[ <serde_json::Value as Clone>::clone ](v: &serde_json::Value) -> (r:
    serde_json::Value)
    ensures
        r == *v,
;

/// A reading of the system clock.
#[verifier::external_type_specification]
#[verifier::external_body]
pub struct ExSystemTime(std::time::SystemTime);

/// Relies on `std::time::SystemTime::now`: a reading of the clock. Nothing
/// can be known of it.
pub assume_specification[ std::time::SystemTime::now ]() -> std::time::SystemTime;

/// Relies on `std::time::SystemTime::duration_since(UNIX_EPOCH)`: the whole
/// seconds from the Unix epoch to `t`, or `None` when `t` lies before it.
/// Nothing more is known of a clock reading.
#[verifier::external_body]
fn unix_seconds(t: &std::time::SystemTime) -> (r: Option<u64>) {
    t.duration_since(std::time::UNIX_EPOCH).ok().map(|d| d.as_secs())
}

/// An immutable event record stored in the log.
///
/// `data` is an opaque JSON payload; reducers give it meaning. The optional
/// fields are left out of the record written to the log when absent.
#[derive(Debug, Clone, PartialEq)]
pub struct Event {
    /// The event type identifier, stored under the key `type`.
    pub event_type: String,
    /// Arbitrary JSON payload.
    pub data: serde_json::Value,
    /// Unix timestamp in seconds.
    pub ts: u64,
    /// Caller-provided unique identifier.
    pub id: Option<String>,
    /// Identity of whoever caused the event.
    pub actor: Option<String>,
    /// Cross-cutting metadata.
    pub meta: Option<serde_json::Value>,
}

impl Event {
    /// Creates an event of the given type and payload, stamped with the
    /// current time in Unix seconds (0 if the clock reads before the epoch),
    /// with no id, actor or metadata.
    pub fn new(event_type: &str, data: serde_json::Value) -> (r: Event)
        ensures
            r.event_type@ == event_type@,
            r.data == data,
            r.id is None,
            r.actor is None,
            r.meta is None,
    {
        let now = std::time::SystemTime::now();
        let ts = match unix_seconds(&now) {
            Some(t) => t,
            None => 0,
        };
        Event {
            event_type: event_type.to_owned(),
            data,
            ts,
            id: None,
            actor: None,
            meta: None,
        }
    }

    /// Sets the event's unique identifier.
    pub fn with_id(self, id: &str) -> (r: Event)
        ensures
            r == (Event { id: r.id, ..self }),
            r.id matches Some(v) && v@ == id@,
    {
        Event { id: Some(id.to_owned()), ..self }
    }

    /// Sets the actor that caused the event.
    pub fn with_actor(self, actor: &str) -> (r: Event)
        ensures
            r == (Event { actor: r.actor, ..self }),
            r.actor matches Some(v) && v@ == actor@,
    {
        Event { actor: Some(actor.to_owned()), ..self }
    }

    /// Sets the event's metadata.
    pub fn with_meta(self, meta: serde_json::Value) -> (r: Event)
        ensures
            r == (Event { meta: Some(meta), ..self }),
    {
        Event { meta: Some(meta), ..self }
    }
}

} // verus!
