//! The type-erased event envelope: upcast from a concrete event, fallible
//! downcast back to it, and the merge capability that folds several event
//! types into one caller-defined sum type.
//!
//! An envelope is a tagged union: a stable type tag beside an opaque shared
//! handle on the event value. Routing and recovery read the tag only; the
//! payload is carried through untouched.

use vstd::prelude::*;

use crate::errors::BusError;

verus! {

/// The capability every dispatchable event type must provide: a stable type
/// tag (used for routing and recovery) and a stable display name.
/// Implemented by the library's users; distinct event types must declare
/// distinct tags, as distinct types have distinct runtime identities.
pub trait Event: Sized + Clone + Send + Sync + 'static {
    /// The type tag, as a mathematical value. Every implementor overrides
    /// this beside `type_tag`; the default stands only so that unverified
    /// implementors need not name a ghost value.
    open spec fn tag_spec() -> u64 {
        0
    }

    /// The display name, as a mathematical sequence of characters; the
    /// default stands only for unverified implementors.
    open spec fn name_spec() -> Seq<char> {
        Seq::<char>::empty()
    }

    /// The stable tag identifying this event type on the bus.
    fn type_tag() -> (t: u64)
        ensures
            t == Self::tag_spec(),
    ;

    /// The stable display name of this event type.
    fn event_name() -> (s: String)
        ensures
            s@ == Self::name_spec(),
    ;
}

/// An opaque, cheaply shareable handle on one erased event value.
#[verifier::external_body]
pub struct Payload {
    inner: std::sync::Arc<dyn std::any::Any + Send + Sync>,
}

/// Relies on `Arc::new`: stores the value behind a new shared handle.
#[verifier::external_body]
fn pack<T: Event>(value: T) -> Payload {
    Payload { inner: std::sync::Arc::new(value) }
}

/// Relies on `Any::downcast_ref`: yields the stored value exactly when its
/// runtime type is `T`, and `None` on any other type; on success the value
/// is cloned out, leaving the handle intact.
#[verifier::external_body]
fn unpack<T: Event>(payload: &Payload) -> Option<T> {
    payload.inner.downcast_ref::<T>().cloned()
}

/// Relies on `Arc::clone`: another handle on the same stored value.
#[verifier::external_body]
fn share(payload: &Payload) -> (r: Payload)
    ensures
        r == *payload,
{
    Payload { inner: payload.inner.clone() }
}

/// A type-erased, shareable envelope over a concrete event value.
///
/// Erasure never fails; recovery against a type succeeds only when the
/// carried tag equals that type's tag, and fails cleanly otherwise. The
/// envelope may be inspected repeatedly: recovery borrows it, so a failed
/// match leaves later matches possible.
pub struct BusEvent {
    tag: u64,
    event_name: String,
    payload: Payload,
}

impl BusEvent {
    /// The type tag carried by this envelope.
    pub closed spec fn tag_spec(&self) -> u64 {
        self.tag
    }

    /// The display name carried by this envelope.
    pub closed spec fn name_spec(&self) -> Seq<char> {
        self.event_name@
    }

    /// The opaque payload handle carried by this envelope.
    pub closed spec fn payload_spec(&self) -> Payload {
        self.payload
    }

    /// Erases a concrete event into an envelope. A pure conversion: it never
    /// fails, and the envelope carries the event type's tag and name.
    pub fn erase<T: Event>(event: T) -> (r: BusEvent)
        ensures
            r.tag_spec() == T::tag_spec(),
            r.name_spec() == T::name_spec(),
    {
        BusEvent { tag: T::type_tag(), event_name: T::event_name(), payload: pack(event) }
    }

    /// The carried type tag.
    pub fn tag(&self) -> (t: u64)
        ensures
            t == self.tag_spec(),
    {
        self.tag
    }

    /// The carried display name.
    pub fn event_name(&self) -> (s: &str)
        ensures
            s@ == self.name_spec(),
    {
        self.event_name.as_str()
    }

    /// Recovers the concrete event. A tag mismatch fails with `DowncastErr`
    /// and success is only ever reported on a tag match; on a match the
    /// stored value itself decides (an honest tag declaration makes it a
    /// `T`, and then the returned value equals the erased one).
    pub fn recover<T: Event>(&self) -> (r: Result<T, BusError>)
        ensures
            self.tag_spec() != T::tag_spec() ==> r == Result::<T, BusError>::Err(
                BusError::DowncastErr,
            ),
            r is Ok ==> self.tag_spec() == T::tag_spec(),
            r is Err ==> r == Result::<T, BusError>::Err(BusError::DowncastErr),
    {
        if self.tag == T::type_tag() {
            match unpack::<T>(&self.payload) {
                Some(value) => Ok(value),
                None => Err(BusError::DowncastErr),
            }
        } else {
            Err(BusError::DowncastErr)
        }
    }

    /// Another envelope on the same shared payload: the tag, name and payload
    /// handle all carry over. Fan-out clones envelopes this way; the event
    /// value itself is never deep-copied.
    pub fn duplicate(&self) -> (r: BusEvent)
        ensures
            r.tag_spec() == self.tag_spec(),
            r.name_spec() == self.name_spec(),
            r.payload_spec() == self.payload_spec(),
    {
        BusEvent { tag: self.tag, event_name: self.event_name.clone(), payload: share(&self.payload) }
    }
}

/// A caller-declared aggregation of several event types into one sum type,
/// with a conversion that resolves an erased event to exactly one declared
/// variant or fails with a downcast error. Implemented by the library's
/// users; a merge registration subscribes to every declared tag, so the
/// declared list and the conversion must agree.
pub trait Merge: Sized + Send + 'static {
    /// The declared type tags, in declaration order; the default stands
    /// only for unverified implementors.
    open spec fn tags_spec() -> Seq<u64> {
        Seq::<u64>::empty()
    }

    /// The tag of the event type a resolved value was built from; the
    /// default stands only for unverified implementors.
    open spec fn variant_tag(&self) -> u64 {
        0
    }

    /// Resolves an erased event to the declared variant matching its tag.
    fn merge(event: BusEvent) -> (r: Result<Self, BusError>)
        ensures
            r matches Ok(m) ==> m.variant_tag() == event.tag_spec()
                && Self::tags_spec().contains(event.tag_spec()),
            r is Err ==> r == Result::<Self, BusError>::Err(BusError::DowncastErr),
    ;

    /// The declared `(tag, name)` pairs, in declaration order.
    fn subscribe_types() -> (v: Vec<(u64, String)>)
        ensures
            v@.map_values(|p: (u64, String)| p.0) == Self::tags_spec(),
    ;
}

} // verus!
