use tokio::sync::mpsc;
use tokio::sync::mpsc::error::TrySendError;
use tokio::sync::watch;
use vstd::prelude::*;

verus! {

/// The sending half of a bounded `tokio` channel (`tokio::sync::mpsc::Sender`).
#[verifier::external_type_specification]
#[verifier::external_body]
#[verifier::reject_recursive_types(T)]
pub struct ExMpscSender<T>(mpsc::Sender<T>);

/// The sending half of a `tokio` watch channel (`tokio::sync::watch::Sender`).
#[verifier::external_type_specification]
#[verifier::external_body]
#[verifier::reject_recursive_types(T)]
pub struct ExWatchSender<T>(watch::Sender<T>);

/// What became of a message offered to a bounded channel without waiting.
#[derive(Debug)]
pub enum SendOutcome {
    /// The message is in the channel.
    Sent,
    /// The channel was at capacity; the message is handed back.
    Full(String),
    /// The receiving half is gone; the message is handed back.
    Closed(String),
}

/// Offers `msg` to the channel with `tokio::sync::mpsc::Sender::try_send`.
/// Which outcome comes depends on the channel's state, which nothing here
/// states; the contract claims only that a refused message is handed back
/// unchanged, as `TrySendError::Full` and `TrySendError::Closed` do.
#[verifier::external_body]
pub(crate) fn offer(tx: &mpsc::Sender<String>, msg: String) -> (r: SendOutcome)
    ensures
        r matches SendOutcome::Full(m) ==> m@ == msg@,
        r matches SendOutcome::Closed(m) ==> m@ == msg@,
{
    match tx.try_send(msg) {
        Ok(()) => SendOutcome::Sent,
        Err(TrySendError::Full(m)) => SendOutcome::Full(m),
        Err(TrySendError::Closed(m)) => SendOutcome::Closed(m),
    }
}

/// Publishes `value` with `tokio::sync::watch::Sender::send`; answers
/// whether a receiver was there to see it (the call's `Ok`). Whether one is
/// depends on other tasks, so nothing is stated of the answer.
#[verifier::external_body]
pub(crate) fn publish(tx: &watch::Sender<bool>, value: bool) -> (delivered: bool) {
    tx.send(value).is_ok()
}

} // verus!
