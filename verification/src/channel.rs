//! The trusted boundary around the conduit: the one shared mutable resource
//! of the bridge. Its producer half is written by the subscription task on
//! the background context, its consumer half read on the caller's thread, so
//! what a handle's next operation observes is not a function of the handle
//! value; the contracts here state only what holds of every outcome. The
//! intended first-in first-out semantics is stated and proved in `model`.

use vstd::prelude::*;
use async_channel::Receiver;
use async_channel::Sender;
use async_channel::TryRecvError;
use async_channel::TrySendError;

verus! {

/// The sending half of the conduit between the subscription task and the
/// bridge. Relied upon of `async_channel`: an unbounded channel delivers
/// messages first-in first-out, without loss or duplication, and reports
/// itself closed once every handle on the other side is dropped.
#[verifier::external_type_specification]
#[verifier::external_body]
#[verifier::reject_recursive_types(T)]
pub struct ExSender<T>(Sender<T>);

/// The receiving half of the conduit; see `ExSender`.
#[verifier::external_type_specification]
#[verifier::external_body]
#[verifier::reject_recursive_types(T)]
pub struct ExReceiver<T>(Receiver<T>);

/// What one non-blocking receive attempt observed.
pub enum RecvOutcome<T> {
    /// The oldest buffered record, now removed from the buffer.
    Item(T),
    /// Nothing buffered right now; the producer may still deliver more.
    Empty,
    /// Nothing buffered and the producer side is gone: nothing will arrive.
    Closed,
}

/// Relies on `async_channel::unbounded`: a fresh channel with no capacity
/// bound, returned as its sending and its receiving half.
#[verifier::external_body]
pub(crate) fn new_unbounded<T>() -> (Sender<T>, Receiver<T>) {
    async_channel::unbounded()
}

/// Relies on `async_channel::Receiver::try_recv`: without ever blocking, it
/// either pops the oldest buffered message, or reports the channel empty, or
/// empty and closed. The buffer is shared with the producer's thread, so
/// which of the three happens is no function of the handle: nothing more can
/// be promised of the outcome.
#[verifier::external_body]
pub(crate) fn try_receive<T>(rx: &Receiver<T>) -> RecvOutcome<T> {
    match rx.try_recv() {
        Ok(v) => RecvOutcome::Item(v),
        Err(TryRecvError::Empty) => RecvOutcome::Empty,
        Err(TryRecvError::Closed) => RecvOutcome::Closed,
    }
}

/// Relies on `async_channel::Sender::try_send`: on an unbounded channel it
/// never blocks and never reports the channel full; it refuses the message
/// only when the channel no longer accepts one, and then hands the very
/// message back untouched.
#[verifier::external_body]
pub(crate) fn try_deliver<T>(tx: &Sender<T>, record: T) -> (r: Result<(), T>)
    ensures
        r matches Err(m) ==> m == record,
{
    match tx.try_send(record) {
        Ok(()) => Ok(()),
        Err(TrySendError::Full(m)) => Err(m),
        Err(TrySendError::Closed(m)) => Err(m),
    }
}

} // verus!
