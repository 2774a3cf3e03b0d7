use vstd::prelude::*;

use crate::domain::event::EventRecord;
use crate::domain::state::status_name;
use crate::service::ingest::IngestResult;

verus! {

/// The decimal digit for a value below ten.
pub open spec fn decimal_digit(d: nat) -> char {
    (48 + d) as char
}

/// The decimal numeral of `n`, without leading zeros.
pub open spec fn decimal(n: nat) -> Seq<char>
    decreases n,
{
    if n < 10 {
        seq![decimal_digit(n)]
    } else {
        decimal(n / 10).push(decimal_digit(n % 10))
    }
}

/// `true` or `false`.
pub open spec fn bool_text(b: bool) -> Seq<char> {
    if b {
        "true"@
    } else {
        "false"@
    }
}

/// The body of the reply to an accepted event.
pub open spec fn accepted_text(rec: EventRecord, inserted: bool) -> Seq<char> {
    "event_id: "@ + rec.event.event_id@ + ", status: "@ + status_name(rec.status) + ", attempts: "@
        + decimal(rec.attempts as nat) + ", inserted: "@ + bool_text(inserted)
}

/// The HTTP status and body that answer an ingestion: 202 when accepted,
/// 409 when the id is reused with another payload, 503 when the queue is
/// gone, 429 when it is full.
pub open spec fn post_reply(rec: EventRecord, result: IngestResult) -> (u16, Seq<char>) {
    match result {
        IngestResult::Accepted(inserted) => (202, accepted_text(rec, inserted)),
        IngestResult::StoreError(_) => (409, "event already exists with different payload hash"@),
        IngestResult::QueueError(e) => (503, "queue error: "@ + e@),
        IngestResult::QueueFull => (429, "queue is full"@),
    }
}

/// Appends the decimal numeral of `n` to `s`.
fn push_decimal(s: &mut String, n: u32)
    ensures
        final(s)@ == old(s)@ + decimal(n as nat),
    decreases n,
{
    if n >= 10 {
        push_decimal(s, n / 10);
    }
    let d = (n % 10) as u8;
    let c = (48u8 + d) as char;
    s.push(c);
}

/// The HTTP status and body that answer an ingestion (see `post_reply`).
pub fn post_events_reply(rec: &EventRecord, result: &IngestResult) -> (r: (u16, String))
    ensures
        r.0 == post_reply(*rec, *result).0,
        r.1@ == post_reply(*rec, *result).1,
{
    match result {
        IngestResult::Accepted(inserted) => {
            let mut s = String::from_str("event_id: ");
            s.append(rec.event.event_id.as_str());
            s.append(", status: ");
            let status = rec.status.to_string();
            s.append(status.as_str());
            s.append(", attempts: ");
            push_decimal(&mut s, rec.attempts);
            s.append(", inserted: ");
            if *inserted {
                s.append("true");
            } else {
                s.append("false");
            }
            (202, s)
        },
        IngestResult::StoreError(_) => (
            409,
            String::from_str("event already exists with different payload hash"),
        ),
        IngestResult::QueueError(e) => {
            let mut s = String::from_str("queue error: ");
            s.append(e.as_str());
            (503, s)
        },
        IngestResult::QueueFull => (429, String::from_str("queue is full")),
    }
}

} // verus!
