//! The broadcast fanout: a single-producer, multi-consumer channel with a
//! bounded per-consumer buffer.
//!
//! A stalled consumer must never wedge the multiplexer: a send with no
//! receivers drops the item and the producer continues, and a lagging
//! receiver loses the oldest items in its view instead of blocking the
//! producer.  The channel itself is tokio's broadcast channel, behind
//! trusted wrappers; the forwarding decision is verified here.

use vstd::prelude::*;
use tokio::sync::broadcast::Receiver;
use tokio::sync::broadcast::Sender;

verus! {

/// Bound of the per-consumer buffer of the fanout.
pub const FANOUT_CAPACITY: usize = 1000;

#[verifier::external_type_specification]
#[verifier::external_body]
#[verifier::reject_recursive_types(T)]
pub struct ExSender<T>(Sender<T>);

#[verifier::external_type_specification]
#[verifier::external_body]
#[verifier::reject_recursive_types(T)]
pub struct ExReceiver<T>(Receiver<T>);

/// The outcome of forwarding one item to the fanout.
#[derive(Debug, PartialEq, Eq)]
pub enum SendOutcome<T> {
    /// The item was stored for this many receivers; at least one was
    /// attached.
    Delivered(usize),
    /// No receiver was attached; the item is handed back and dropped.
    NoReceivers(T),
}

/// What a receiver finds when it polls its queue.
#[derive(Debug, PartialEq, Eq)]
pub enum RecvOutcome<T> {
    /// The oldest retained item this receiver has not seen yet.
    Item(T),
    /// The receiver has seen every item sent so far.
    Empty,
    /// The receiver lagged: this many items were overwritten before it
    /// read them; it now stands at the oldest retained item.
    Lagged(u64),
    /// The producer is gone and everything was delivered.
    Closed,
}

/// Relies on tokio::sync::broadcast::channel: a channel that retains at
/// least `capacity` items per attached receiver and never blocks the
/// sender; it panics only on capacity `0` or at least `usize::MAX / 2`.
#[verifier::external_body]
fn broadcast_channel<T: Clone>(capacity: usize) -> (r: (Sender<T>, Receiver<T>))
    requires
        1 <= capacity < usize::MAX / 2,
{
    tokio::sync::broadcast::channel(capacity)
}

/// Relies on tokio::sync::broadcast::Sender::send: the item is stored for
/// every attached receiver without blocking; it fails exactly when no
/// receiver is attached, handing the item back unchanged.
#[verifier::external_body]
fn broadcast_send<T: Clone>(tx: &Sender<T>, item: T) -> (r: SendOutcome<T>)
    ensures
        r matches SendOutcome::Delivered(n) ==> n >= 1,
        r matches SendOutcome::NoReceivers(v) ==> v == item,
{
    match tx.send(item) {
        Ok(n) => SendOutcome::Delivered(n),
        Err(tokio::sync::broadcast::error::SendError(v)) => SendOutcome::NoReceivers(v),
    }
}

/// Relies on tokio::sync::broadcast::Sender::subscribe: a fresh receiver
/// that observes only items sent after this call.
#[verifier::external_body]
fn broadcast_subscribe<T: Clone>(tx: &Sender<T>) -> (rx: Receiver<T>) {
    tx.subscribe()
}

/// Relies on tokio::sync::broadcast::Receiver::try_recv: returns, without
/// blocking, the oldest retained item this receiver has not seen, a lag
/// notice naming how many items it lost, or that its queue is empty or
/// the channel closed.
#[verifier::external_body]
fn broadcast_try_recv<T: Clone>(rx: &mut Receiver<T>) -> (r: RecvOutcome<T>) {
    match rx.try_recv() {
        Ok(v) => RecvOutcome::Item(v),
        Err(tokio::sync::broadcast::error::TryRecvError::Empty) => RecvOutcome::Empty,
        Err(tokio::sync::broadcast::error::TryRecvError::Closed) => RecvOutcome::Closed,
        Err(tokio::sync::broadcast::error::TryRecvError::Lagged(n)) => RecvOutcome::Lagged(n),
    }
}

/// A fanout channel with the fixed capacity of the multiplexer, and its
/// first receiver.
pub fn fanout_channel<T: Clone>() -> (r: (Sender<T>, Receiver<T>)) {
    broadcast_channel(FANOUT_CAPACITY)
}

/// A further independent subscriber; it observes only items forwarded
/// after it was attached.
pub fn attach_receiver<T: Clone>(tx: &Sender<T>) -> (rx: Receiver<T>) {
    broadcast_subscribe(tx)
}

/// Polls a subscriber's queue without blocking.
pub fn poll_receiver<T: Clone>(rx: &mut Receiver<T>) -> (r: RecvOutcome<T>) {
    broadcast_try_recv(rx)
}

/// Forwards one item of the merged stream to the fanout.  Forwarding to
/// no one is not an error: the item is handed back to be dropped and the
/// producer continues, so a missing or stalled consumer never blocks the
/// multiplexer.
pub fn forward_item<T: Clone>(tx: &Sender<T>, item: T) -> (r: SendOutcome<T>)
    ensures
        r matches SendOutcome::Delivered(n) ==> n >= 1,
        r matches SendOutcome::NoReceivers(v) ==> v == item,
{
    broadcast_send(tx, item)
}

} // verus!
