//! Trusted boundary to the bounded-channel primitive the bus delivers on.
//!
//! The channel is the concurrency substrate, not the bus's own logic: each
//! registered worker owns the receiving end of one bounded channel, and
//! dispatch enqueues envelopes on the sending ends. Everything here either
//! declares a channel type or wraps exactly one call into it.

use vstd::prelude::*;

use crate::errors::BusError;
use crate::event::BusEvent;

verus! {

/// Declares `tokio::sync::mpsc::Sender` so it can stand in fields and
/// signatures; its values are opaque handles on a channel's sending side.
#[verifier::external_type_specification]
#[verifier::external_body]
#[verifier::reject_recursive_types(T)]
pub struct ExSender<T>(tokio::sync::mpsc::Sender<T>);

/// Declares `tokio::sync::mpsc::Receiver` so it can stand in fields and
/// signatures; its values are opaque handles on a channel's receiving side.
#[verifier::external_type_specification]
#[verifier::external_body]
#[verifier::reject_recursive_types(T)]
pub struct ExReceiver<T>(tokio::sync::mpsc::Receiver<T>);

/// `true` of a sending and a receiving end that belong to one channel:
/// what the sending end enqueues is what the receiving end drains. The
/// relation is established only by `new_channel` below, and carried along
/// by the handle-identity clauses of the other channel functions.
pub uninterp spec fn paired(tx: tokio::sync::mpsc::Sender<BusEvent>, rx: tokio::sync::mpsc::Receiver<BusEvent>) -> bool;

/// Relies on `tokio::sync::mpsc::channel`: a fresh bounded channel holding
/// at most `capacity` queued values, returned as a paired sending and
/// receiving end. The call panics on a zero capacity and on one above the
/// permit bound of its internal semaphore, `usize::MAX >> 3` — written
/// here as the equal `usize::MAX / 8`; the precondition rules both out.
#[verifier::external_body]
pub(crate) fn new_channel(capacity: usize) -> (r: (tokio::sync::mpsc::Sender<BusEvent>, tokio::sync::mpsc::Receiver<BusEvent>))
    requires
        1 <= capacity <= usize::MAX / 8,
    ensures
        paired(r.0, r.1),
{
    tokio::sync::mpsc::channel(capacity)
}

/// Relies on `Sender::clone`: another sending handle feeding the same
/// channel. As a bus value a sender is the channel it feeds, so the clone
/// equals the original.
#[verifier::external_body]
pub(crate) fn clone_sender(tx: &tokio::sync::mpsc::Sender<BusEvent>) -> (r: tokio::sync::mpsc::Sender<BusEvent>)
    ensures
        r == *tx,
{
    tx.clone()
}

/// Relies on `Sender::try_send`: `Ok` when the envelope was enqueued;
/// `TrySendError::Full` and `TrySendError::Closed` are the only errors, and
/// each maps to the bus's matching error, the undelivered envelope dropped.
#[verifier::external_body]
pub(crate) fn try_send_event(tx: &tokio::sync::mpsc::Sender<BusEvent>, event: BusEvent) -> (r: Result<(), BusError>)
    ensures
        (r is Err ==> r == Result::<(), BusError>::Err(BusError::ChannelFull) || r == Result::<(), BusError>::Err(BusError::ChannelClosed)),
{
    match tx.try_send(event) {
        Ok(()) => Ok(()),
        Err(tokio::sync::mpsc::error::TrySendError::Full(_)) => Err(BusError::ChannelFull),
        Err(tokio::sync::mpsc::error::TrySendError::Closed(_)) => Err(BusError::ChannelClosed),
    }
}

/// Relies on `Receiver::try_recv`: the next queued envelope when one is
/// there; `TryRecvError::Empty` maps to `Ok(None)` and
/// `TryRecvError::Disconnected` to the bus's closed-channel error. As a bus
/// value a receiver is the channel end it drains, which the call does not
/// change, so the handle keeps its identity.
#[verifier::external_body]
pub(crate) fn try_recv_event(rx: &mut tokio::sync::mpsc::Receiver<BusEvent>) -> (r: Result<Option<BusEvent>, BusError>)
    ensures
        (r is Err ==> r == Result::<Option<BusEvent>, BusError>::Err(BusError::ChannelClosed)),
        *final(rx) == *old(rx),
{
    match rx.try_recv() {
        Ok(event) => Ok(Some(event)),
        Err(tokio::sync::mpsc::error::TryRecvError::Empty) => Ok(None),
        Err(tokio::sync::mpsc::error::TryRecvError::Disconnected) => Err(BusError::ChannelClosed),
    }
}

} // verus!
