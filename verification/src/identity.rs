//! The three caller-facing identity handles returned at registration: a
//! subscribe-and-receive handle, a dispatch-only handle, and a merge handle
//! that yields events pre-converted into a caller-defined sum type.

use vstd::prelude::*;

use crate::bus::EntryOfBus;
use crate::channel::try_recv_event;
use crate::errors::BusError;
use crate::event::{BusEvent, Event, Merge};
use crate::worker::WorkerId;

verus! {

/// The receive-and-subscribe handle: the worker's identity and the receiving
/// end of its delivery channel.
pub struct IdentityOfRx {
    id: WorkerId,
    rx: tokio::sync::mpsc::Receiver<BusEvent>,
}

impl IdentityOfRx {
    /// The identity this handle was registered under.
    pub closed spec fn id_spec(&self) -> WorkerId {
        self.id
    }

    /// The receiving end this handle drains.
    pub closed spec fn rx_spec(&self) -> tokio::sync::mpsc::Receiver<BusEvent> {
        self.rx
    }

    pub(crate) fn make(id: WorkerId, rx: tokio::sync::mpsc::Receiver<BusEvent>) -> (r: IdentityOfRx)
        ensures
            r.id_spec() == id,
            r.rx_spec() == rx,
    {
        IdentityOfRx { id, rx }
    }

    /// The identity this handle was registered under.
    pub fn id(&self) -> (r: &WorkerId)
        ensures
            *r == self.id_spec(),
    {
        &self.id
    }

    /// Records interest in the event type `T` on this handle's bus entry.
    /// Idempotent, additive-only; see `EntryOfBus::subscribe`.
    pub fn subscribe<T: Event>(&self, bus: &mut EntryOfBus) -> (r: Result<(), BusError>)
        requires
            old(bus).wf(),
        ensures
            final(bus).wf(),
            r is Ok <==> old(bus).registered(self.id_spec().num_spec()),
            (r matches Err(e) ==> e == BusError::UnknownWorker && *final(bus) == *old(bus)),
            r is Ok ==> EntryOfBus::subscribe_effect(
                *old(bus),
                *final(bus),
                self.id_spec().num_spec(),
                T::tag_spec(),
            ),
            (r is Ok && old(bus).subs_of(self.id_spec().num_spec()).contains(T::tag_spec())
                ==> *final(bus) == *old(bus)),
    {
        bus.subscribe::<T>(&self.id)
    }

    /// Erases the event and fans it out on this handle's bus; dispatch does
    /// not depend on this worker's own subscriptions.
    pub fn dispatch_event<T: Event>(&self, bus: &EntryOfBus, event: T) -> (r: Result<(), BusError>)
        requires
            bus.wf(),
        ensures
            (r is Err ==> r == Result::<(), BusError>::Err(BusError::ChannelFull) || r == Result::<(), BusError>::Err(BusError::ChannelClosed)),
            r is Err ==> bus.targets(T::tag_spec()) != Set::<nat>::empty(),
    {
        bus.dispatch_event(event)
    }

    /// The next envelope already queued for this worker, `Ok(None)` when the
    /// queue is momentarily empty, and the closed-channel error once the bus
    /// side is gone. The handle keeps its identity and its channel end.
    pub fn try_recv_event(&mut self) -> (r: Result<Option<BusEvent>, BusError>)
        ensures
            (r is Err ==> r == Result::<Option<BusEvent>, BusError>::Err(BusError::ChannelClosed)),
            final(self).id_spec() == old(self).id_spec(),
            final(self).rx_spec() == old(self).rx_spec(),
    {
        try_recv_event(&mut self.rx)
    }

    /// Surrenders the handle, yielding the identity and the handle's own
    /// receiving end, for callers that await deliveries outside this
    /// library.
    pub fn into_receiver(self) -> (r: (WorkerId, tokio::sync::mpsc::Receiver<BusEvent>))
        ensures
            r.0 == self.id_spec(),
            r.1 == self.rx_spec(),
    {
        (self.id, self.rx)
    }
}

/// The dispatch-only handle: an identity with no receiving capability and no
/// use of the subscription set, for workers that only publish. The type
/// parameter records the event type the holder mainly publishes.
pub struct IdentityOfSimple<T> {
    id: WorkerId,
    marker: core::marker::PhantomData<T>,
}

impl<T> IdentityOfSimple<T> {
    /// The identity this handle was registered under.
    pub closed spec fn id_spec(&self) -> WorkerId {
        self.id
    }

    pub(crate) fn make(id: WorkerId) -> (r: IdentityOfSimple<T>)
        ensures
            r.id_spec() == id,
    {
        IdentityOfSimple { id, marker: core::marker::PhantomData }
    }

    /// The identity this handle was registered under.
    pub fn id(&self) -> (r: &WorkerId)
        ensures
            *r == self.id_spec(),
    {
        &self.id
    }

    /// Erases the event and fans it out on this handle's bus.
    pub fn dispatch_event<E: Event>(&self, bus: &EntryOfBus, event: E) -> (r: Result<(), BusError>)
        requires
            bus.wf(),
        ensures
            (r is Err ==> r == Result::<(), BusError>::Err(BusError::ChannelFull) || r == Result::<(), BusError>::Err(BusError::ChannelClosed)),
            r is Err ==> bus.targets(E::tag_spec()) != Set::<nat>::empty(),
    {
        bus.dispatch_event(event)
    }
}

/// The merge handle: receives like `IdentityOfRx`, but resolves every
/// incoming envelope against the declared type list of `M` and yields the
/// matching sum-type variant.
pub struct IdentityOfMerge<M> {
    id: WorkerId,
    rx: tokio::sync::mpsc::Receiver<BusEvent>,
    marker: core::marker::PhantomData<M>,
}

impl<M: Merge> IdentityOfMerge<M> {
    /// The identity this handle was registered under.
    pub closed spec fn id_spec(&self) -> WorkerId {
        self.id
    }

    /// The receiving end this handle drains.
    pub closed spec fn rx_spec(&self) -> tokio::sync::mpsc::Receiver<BusEvent> {
        self.rx
    }

    pub(crate) fn make(id: WorkerId, rx: tokio::sync::mpsc::Receiver<BusEvent>) -> (r: IdentityOfMerge<M>)
        ensures
            r.id_spec() == id,
            r.rx_spec() == rx,
    {
        IdentityOfMerge { id, rx, marker: core::marker::PhantomData }
    }

    /// The identity this handle was registered under.
    pub fn id(&self) -> (r: &WorkerId)
        ensures
            *r == self.id_spec(),
    {
        &self.id
    }

    /// Erases the event and fans it out on this handle's bus.
    pub fn dispatch_event<E: Event>(&self, bus: &EntryOfBus, event: E) -> (r: Result<(), BusError>)
        requires
            bus.wf(),
        ensures
            (r is Err ==> r == Result::<(), BusError>::Err(BusError::ChannelFull) || r == Result::<(), BusError>::Err(BusError::ChannelClosed)),
            r is Err ==> bus.targets(E::tag_spec()) != Set::<nat>::empty(),
    {
        bus.dispatch_event(event)
    }

    /// The next queued envelope, resolved to the declared sum type: a value
    /// is always tagged with one of `M`'s declared tags. `Ok(None)` when the
    /// queue is momentarily empty; a downcast error here means an envelope
    /// outside the declared list reached this worker, a breach of the
    /// agreement between the subscription set and the merge declaration.
    /// The handle keeps its identity and its channel end.
    pub fn try_recv(&mut self) -> (r: Result<Option<M>, BusError>)
        ensures
            (r matches Ok(m) ==> (m matches Some(m) ==> M::tags_spec().contains(m.variant_tag()))),
            (r is Err ==> r == Result::<Option<M>, BusError>::Err(BusError::ChannelClosed) || r == Result::<Option<M>, BusError>::Err(BusError::DowncastErr)),
            final(self).id_spec() == old(self).id_spec(),
            final(self).rx_spec() == old(self).rx_spec(),
    {
        match try_recv_event(&mut self.rx) {
            Ok(Some(envelope)) => match M::merge(envelope) {
                Ok(m) => Ok(Some(m)),
                Err(e) => Err(e),
            },
            Ok(None) => Ok(None),
            Err(e) => Err(e),
        }
    }

    /// Surrenders the handle, yielding the identity and the handle's own
    /// receiving end, for callers that await deliveries outside this
    /// library.
    pub fn into_receiver(self) -> (r: (WorkerId, tokio::sync::mpsc::Receiver<BusEvent>))
        ensures
            r.0 == self.id_spec(),
            r.1 == self.rx_spec(),
    {
        (self.id, self.rx)
    }
}

} // verus!
