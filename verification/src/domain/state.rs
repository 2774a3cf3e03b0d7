use vstd::prelude::*;

verus! {

/// The lifecycle status of an event record.
///
/// ```text
/// Received -> Processing -> Completed
///                        -> FailedRetry (retries remaining)
///                        -> Failed      (retries exhausted)
/// FailedRetry -> Processing             (once the retry time has come)
/// ```
#[derive(Clone, Copy, Debug, PartialEq, Eq, Structural)]
pub enum EventStatus {
    Received,
    Processing,
    Completed,
    FailedRetry,
    Failed,
}

/// The transitions of the lifecycle diagram.
pub open spec fn allowed_transition(from: EventStatus, to: EventStatus) -> bool {
    ||| from == EventStatus::Received && to == EventStatus::Processing
    ||| from == EventStatus::FailedRetry && to == EventStatus::Processing
    ||| from == EventStatus::Processing && to == EventStatus::Completed
    ||| from == EventStatus::Processing && to == EventStatus::FailedRetry
    ||| from == EventStatus::Processing && to == EventStatus::Failed
}

/// The name under which a status is displayed.
pub open spec fn status_name(s: EventStatus) -> Seq<char> {
    match s {
        EventStatus::Received => "Received"@,
        EventStatus::Processing => "Processing"@,
        EventStatus::Completed => "Completed"@,
        EventStatus::FailedRetry => "FailedRetry"@,
        EventStatus::Failed => "Failed"@,
    }
}

impl EventStatus {
    /// Whether the lifecycle allows moving from `self` to `next` in one step.
    pub fn can_transition(self, next: EventStatus) -> (r: bool)
        ensures
            r == allowed_transition(self, next),
    {
        match (self, next) {
            (EventStatus::Received, EventStatus::Processing) => true,
            (EventStatus::FailedRetry, EventStatus::Processing) => true,
            (EventStatus::Processing, EventStatus::Completed) => true,
            (EventStatus::Processing, EventStatus::FailedRetry) => true,
            (EventStatus::Processing, EventStatus::Failed) => true,
            _ => false,
        }
    }

    /// The display name of the status.
    pub fn to_string(&self) -> (r: String)
        ensures
            r@ == status_name(*self),
    {
        let s = match self {
            EventStatus::Received => "Received",
            EventStatus::Processing => "Processing",
            EventStatus::Completed => "Completed",
            EventStatus::FailedRetry => "FailedRetry",
            EventStatus::Failed => "Failed",
        };
        String::from_str(s)
    }
}

} // verus!

verus! {

/// No step of the lifecycle leads back to `Received` or stays in place, and
/// `Completed` and `Failed` have no successor.
pub proof fn law_lifecycle_steps(from: EventStatus, to: EventStatus)
    ensures
        allowed_transition(from, to) ==> {
            &&& to != EventStatus::Received
            &&& from != to
            &&& from != EventStatus::Completed
            &&& from != EventStatus::Failed
        },
{
}

} // verus!
