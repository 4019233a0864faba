//! The subscription task's decisions. The task itself lives on the
//! background execution context and awaits the network stream — work the
//! verified library cannot perform — so the loop around it is ordinary code;
//! but every decision that loop takes, and every word it sends through the
//! conduit, is decided here.

use vstd::prelude::*;
use async_channel::Sender;
use crate::channel::try_deliver;

verus! {

/// Why the subscription task stopped for good.
#[derive(Clone, Copy, PartialEq, Eq, Structural, Debug)]
pub enum TaskEnd {
    /// Opening the connection to the configured endpoints failed.
    ConnectFailed,
    /// The connection stood, but the subscription could not be opened.
    SubscribeFailed,
    /// The subscription stream ended: the server closed it.
    StreamEnded,
}

/// What the subscription task sends through the conduit: a decoded record,
/// or — as its very last word — the reason it stopped, so that the consumer
/// can tell "no data yet" from "producer gone".
pub enum Signal<T> {
    /// One decoded record, opaque to the bridge.
    Record(T),
    /// The task's terminal notice; nothing follows it.
    Terminated(TaskEnd),
}

/// One observation of the subscription stream, as the task's loop sees it.
pub enum StreamEvent<T> {
    /// The next item arrived and decoded.
    Record(T),
    /// The next item carried a per-item decode or stream error.
    DecodeFailed,
    /// The stream ended: the server closed the subscription.
    Ended,
}

/// What the task's loop does next.
#[derive(Clone, Copy, PartialEq, Eq, Structural, Debug)]
pub enum TaskStep {
    /// The record went into the conduit; keep looping.
    Forwarded,
    /// One bad item was skipped; keep looping.
    Skipped,
    /// The task is done: the stream ended, or the bridge was dropped.
    Stopped,
}

/// One step of the forwarding loop. A decoded record is forwarded; one bad
/// item is skipped, never fatal; the stream's end stops the task, after a
/// terminal notice through the conduit. A record the conduit refuses means
/// every consumer handle was dropped — the benign end of the bridge's life,
/// answered by stopping, never by failing the whole process.
pub fn subscription_step<T>(tx: &Sender<Signal<T>>, event: StreamEvent<T>) -> (step: TaskStep)
    ensures
        (event matches StreamEvent::DecodeFailed) <==> step == TaskStep::Skipped,
        (event matches StreamEvent::Ended) ==> step == TaskStep::Stopped,
        (event matches StreamEvent::Record(_)) ==> (step == TaskStep::Forwarded
            || step == TaskStep::Stopped),
{
    match event {
        StreamEvent::Record(v) => {
            match try_deliver(tx, Signal::Record(v)) {
                Ok(()) => TaskStep::Forwarded,
                Err(_) => TaskStep::Stopped,
            }
        },
        StreamEvent::DecodeFailed => TaskStep::Skipped,
        StreamEvent::Ended => {
            let _ = try_deliver(tx, Signal::Terminated(TaskEnd::StreamEnded));
            TaskStep::Stopped
        },
    }
}

/// The task's last word when it never reached the stream at all (the
/// connection or the subscription could not be opened): a terminal notice
/// through the conduit instead of a process abort. Whether the notice lands
/// depends on whether the bridge still lives; either way the task stops.
pub fn report_task_end<T>(tx: &Sender<Signal<T>>, end: TaskEnd) -> (delivered: bool) {
    match try_deliver(tx, Signal::Terminated(end)) {
        Ok(()) => true,
        Err(_) => false,
    }
}

} // verus!
