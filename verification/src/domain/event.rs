use vstd::prelude::*;
use vstd::std_specs::convert::{FromSpecImpl, TryFromSpecImpl};

use crate::clock::{now_millis, MAX_CLOCK_MS};
use crate::domain::hash::{hash_payload_text, payload_hash_of};
use crate::domain::state::EventStatus;

verus! {

/// The kind of an event. Known kinds carry their dotted wire name; any other
/// name is kept verbatim in `Other`.
#[derive(Debug)]
pub enum EventType {
    UserLoginFailed,
    ConnectionTimeout,
    DataProcessingError,
    Other(String),
}

/// The wire name of an event type.
pub open spec fn event_type_name(t: EventType) -> Seq<char> {
    match t {
        EventType::UserLoginFailed => "user.login_failed"@,
        EventType::ConnectionTimeout => "connection.timeout"@,
        EventType::DataProcessingError => "data.processing_error"@,
        EventType::Other(s) => s@,
    }
}

/// The event type that a wire name denotes: one of the known kinds when the
/// name is one of theirs, `Other` holding the name itself otherwise.
pub open spec fn parse_event_type(s: String) -> EventType {
    if s@ == "user.login_failed"@ {
        EventType::UserLoginFailed
    } else if s@ == "connection.timeout"@ {
        EventType::ConnectionTimeout
    } else if s@ == "data.processing_error"@ {
        EventType::DataProcessingError
    } else {
        EventType::Other(s)
    }
}

/// Whether `s` spells exactly the literal `lit`.
pub(crate) fn spells(s: &String, lit: &str) -> (r: bool)
    ensures
        r == (s@ == lit@),
{
    let t = String::from_str(lit);
    *s == t
}

impl Clone for EventType {
    fn clone(&self) -> (r: Self)
        ensures
            r == *self,
    {
        match self {
            EventType::UserLoginFailed => EventType::UserLoginFailed,
            EventType::ConnectionTimeout => EventType::ConnectionTimeout,
            EventType::DataProcessingError => EventType::DataProcessingError,
            EventType::Other(s) => EventType::Other(s.clone()),
        }
    }
}

impl From<EventType> for String {
    fn from(et: EventType) -> (r: String)
        ensures
            r@ == event_type_name(et),
    {
        match et {
            EventType::UserLoginFailed => String::from_str("user.login_failed"),
            EventType::ConnectionTimeout => String::from_str("connection.timeout"),
            EventType::DataProcessingError => String::from_str("data.processing_error"),
            EventType::Other(s) => s,
        }
    }
}

/// A `String` cannot be built inside a specification, so the conversion is
/// described by the postcondition of `from` above, over the string's view,
/// and not through `from_spec`.
impl FromSpecImpl<EventType> for String {
    open spec fn obeys_from_spec() -> bool {
        false
    }

    open spec fn from_spec(v: EventType) -> String {
        arbitrary()
    }
}

impl TryFrom<String> for EventType {
    type Error = ();

    fn try_from(s: String) -> (r: Result<Self, Self::Error>)
        ensures
            r == Ok::<EventType, ()>(parse_event_type(s)),
    {
        if spells(&s, "user.login_failed") {
            Ok(EventType::UserLoginFailed)
        } else if spells(&s, "connection.timeout") {
            Ok(EventType::ConnectionTimeout)
        } else if spells(&s, "data.processing_error") {
            Ok(EventType::DataProcessingError)
        } else {
            Ok(EventType::Other(s))
        }
    }
}

impl TryFromSpecImpl<String> for EventType {
    open spec fn obeys_try_from_spec() -> bool {
        true
    }

    open spec fn try_from_spec(v: String) -> Result<Self, Self::Error> {
        Ok(parse_event_type(v))
    }
}

} // verus!

verus! {

/// The payload of an event, held as its JSON text (the compact form that
/// `serde_json::to_string` writes). Processors interpret it by event type.
#[derive(Debug)]
pub struct EventPayload(pub String);

impl Clone for EventPayload {
    fn clone(&self) -> (r: Self)
        ensures
            r == *self,
    {
        EventPayload(self.0.clone())
    }
}

/// An event as it is ingested.
#[derive(Debug)]
pub struct Event {
    pub event_id: String,
    pub event_type: EventType,
    /// When the event occurred, in milliseconds since the Unix epoch.
    pub occurred_at: i64,
    pub payload: EventPayload,
}

impl Clone for Event {
    fn clone(&self) -> (r: Self)
        ensures
            r == *self,
    {
        Event {
            event_id: self.event_id.clone(),
            event_type: self.event_type.clone(),
            occurred_at: self.occurred_at,
            payload: self.payload.clone(),
        }
    }
}

impl Event {
    /// The hash of the event's payload: the lowercase hexadecimal MD5
    /// digest of the payload's JSON text.
    pub fn get_hash(&self) -> (h: String)
        ensures
            h@ == payload_hash_of(self.payload.0@),
    {
        hash_payload_text(self.payload.0.as_str())
    }
}

/// The stored state of one event. All instants are milliseconds since the
/// Unix epoch.
#[derive(Debug)]
pub struct EventRecord {
    pub event: Event,
    pub payload_hash: String,
    pub status: EventStatus,
    pub queued: bool,
    pub queue_time: Option<i64>,
    pub attempts: u32,
    pub last_error: Option<String>,
    pub retry_time: Option<i64>,
    /// The processing result; set to `"success"` on completion.
    pub result: Option<String>,
    pub created_at: i64,
    pub updated_at: i64,
}

impl Clone for EventRecord {
    fn clone(&self) -> (r: Self)
        ensures
            r == *self,
    {
        EventRecord {
            event: self.event.clone(),
            payload_hash: self.payload_hash.clone(),
            status: self.status,
            queued: self.queued,
            queue_time: self.queue_time,
            attempts: self.attempts,
            last_error: match &self.last_error {
                Some(e) => Some(e.clone()),
                None => None,
            },
            retry_time: self.retry_time,
            result: match &self.result {
                Some(v) => Some(v.clone()),
                None => None,
            },
            created_at: self.created_at,
            updated_at: self.updated_at,
        }
    }
}

/// What a fresh record for `event`, created at `now`, holds.
pub open spec fn is_fresh_record(r: EventRecord, event: Event, now: i64) -> bool {
    &&& r.event == event
    &&& r.payload_hash@ == payload_hash_of(event.payload.0@)
    &&& r.status == EventStatus::Received
    &&& !r.queued
    &&& r.queue_time is None
    &&& r.attempts == 0
    &&& r.last_error is None
    &&& r.retry_time is None
    &&& r.result is None
    &&& r.created_at == now
    &&& r.updated_at == now
}

impl EventRecord {
    /// A fresh record for `event`, created at `now`: received, not queued,
    /// no attempts, its payload hash computed from the event.
    pub fn new_at(event: Event, now: i64) -> (r: Self)
        ensures
            is_fresh_record(r, event, now),
    {
        let payload_hash = event.get_hash();
        EventRecord {
            event,
            payload_hash,
            status: EventStatus::Received,
            queued: false,
            queue_time: None,
            attempts: 0,
            last_error: None,
            retry_time: None,
            result: None,
            created_at: now,
            updated_at: now,
        }
    }

    /// A fresh record for `event`, created at the current time.
    pub fn new(event: Event) -> (r: Self)
        ensures
            exists|now: i64| 0 <= now <= MAX_CLOCK_MS && is_fresh_record(r, event, now),
    {
        let now = now_millis();
        Self::new_at(event, now)
    }
}

} // verus!

verus! {

/// Parsing a wire name and naming the result gives the name back, and a
/// known kind's own name parses to that kind.
pub proof fn law_event_type_name_roundtrip(s: String, t: EventType)
    ensures
        event_type_name(parse_event_type(s)) == s@,
        !(t is Other) && s@ == event_type_name(t) ==> parse_event_type(s) == t,
{
    reveal_strlit("user.login_failed");
    reveal_strlit("connection.timeout");
    reveal_strlit("data.processing_error");
    assert("user.login_failed"@.len() == 17);
    assert("connection.timeout"@.len() == 18);
    assert("data.processing_error"@.len() == 21);
}

} // verus!
