//! Broadcast-channel primitives, relied on from tokio.
//!
//! A broadcast channel fans one publisher's values out to any number of
//! independent subscribers, each with its own cursor; a subscriber slower
//! than the channel's bounded capacity loses the oldest values rather than
//! blocking the publisher. Delivery itself is outside what the library
//! states: the hub's contracts speak only of which channels exist.

use vstd::prelude::*;

use tokio::sync::broadcast::Receiver;
use tokio::sync::broadcast::Sender;

verus! {

/// tokio's broadcast sender: the publishing half of one channel.
#[verifier::external_type_specification]
#[verifier::external_body]
#[verifier::reject_recursive_types(T)]
pub struct ExSender<T>(Sender<T>);

/// tokio's broadcast receiver: one subscriber's handle, with its own cursor.
#[verifier::external_type_specification]
#[verifier::external_body]
#[verifier::reject_recursive_types(T)]
pub struct ExReceiver<T>(Receiver<T>);

/// Relies on tokio::sync::broadcast::channel: allocates a channel that
/// buffers up to `capacity` values and returns its sender together with a
/// first receiver. The call panics only on a capacity of zero or above
/// `usize::MAX / 2`, which the precondition rules out.
#[verifier::external_body]
pub(crate) fn channel_pair<T: Clone>(capacity: usize) -> (Sender<T>, Receiver<T>)
    requires
        0 < capacity <= usize::MAX / 2,
{
    tokio::sync::broadcast::channel(capacity)
}

/// Relies on tokio::sync::broadcast::Sender::send: queues the value for
/// every active receiver and returns how many there were; its error return
/// means there were none, which callers tolerate, so it is mapped to zero.
#[verifier::external_body]
pub(crate) fn send_value<T>(tx: &Sender<T>, value: T) -> usize {
    tx.send(value).unwrap_or(0)
}

/// Relies on tokio::sync::broadcast::Sender::subscribe: returns a fresh
/// receiver that observes values sent after this call.
#[verifier::external_body]
pub(crate) fn subscribe_to<T>(tx: &Sender<T>) -> Receiver<T> {
    tx.subscribe()
}

} // verus!
