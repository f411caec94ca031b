//! The bounded hand-off between the callers that record evaluations and the
//! loop that counts them.

use std::sync::mpsc::{Receiver, SyncSender, TryRecvError, TrySendError};
use vstd::prelude::*;

verus! {

/// How many events may wait to be counted.
pub const CHANNEL_CAPACITY: usize = 10;

/// `std::sync::mpsc::SyncSender`, the sending end of a bounded channel; opaque.
#[verifier::external_type_specification]
#[verifier::external_body]
#[verifier::reject_recursive_types(T)]
pub struct ExSyncSender<T>(SyncSender<T>);

/// `std::sync::mpsc::Receiver`, the receiving end of a channel; opaque.
#[verifier::external_type_specification]
#[verifier::external_body]
#[verifier::reject_recursive_types(T)]
pub struct ExReceiver<T>(Receiver<T>);

/// `SyncSender::clone` gives one more sending end of the same channel. Trusted;
/// nothing is claimed of the clone.
pub assume_specification<T>[ <SyncSender<T> as Clone>::clone ](tx: &SyncSender<T>) -> (other:
    SyncSender<T>)
;

/// What became of an event that was offered to the channel.
#[derive(Clone, Copy, Debug, PartialEq, Eq, Structural)]
pub enum SendOutcome {
    /// The event waits to be counted.
    Sent,
    /// The channel was full; the event is gone.
    Full,
    /// The receiving side no longer exists.
    Disconnected,
}

/// What the loop found when it looked into the channel.
#[derive(Clone, Copy, Debug, PartialEq, Eq, Structural)]
pub enum Poll {
    /// One event, for this identifier.
    Received(u32),
    /// Nothing waits, but senders remain.
    Empty,
    /// Nothing waits and every sender is gone.
    Disconnected,
}

/// Calls `std::sync::mpsc::sync_channel` with the given bound. Trusted;
/// nothing is claimed of the two ends.
#[verifier::external_body]
pub(crate) fn open_channel(capacity: usize) -> (ends: (SyncSender<u32>, Receiver<u32>)) {
    std::sync::mpsc::sync_channel(capacity)
}

/// Calls `SyncSender::try_send`, which never blocks, and names its outcome.
/// Trusted; which outcome comes depends on the other threads.
#[verifier::external_body]
pub(crate) fn offer(tx: &SyncSender<u32>, id: u32) -> (outcome: SendOutcome) {
    match tx.try_send(id) {
        Ok(()) => SendOutcome::Sent,
        Err(TrySendError::Full(_)) => SendOutcome::Full,
        Err(TrySendError::Disconnected(_)) => SendOutcome::Disconnected,
    }
}

/// Calls `Receiver::try_recv`, which never blocks, and names its outcome.
/// Trusted; which outcome comes depends on the other threads.
#[verifier::external_body]
pub(crate) fn take(rx: &Receiver<u32>) -> (poll: Poll) {
    match rx.try_recv() {
        Ok(id) => Poll::Received(id),
        Err(TryRecvError::Empty) => Poll::Empty,
        Err(TryRecvError::Disconnected) => Poll::Disconnected,
    }
}

} // verus!
