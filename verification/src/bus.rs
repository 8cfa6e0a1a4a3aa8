//! The bus registry: the collection of registered workers, the three
//! registration operations, subscription, and dispatch fan-out.
//!
//! The registry is a plain value with exclusive-access operations; callers
//! that share one bus between tasks wrap it in the synchronization of their
//! runtime, which is outside this library.

use vstd::prelude::*;

use crate::channel::{new_channel, paired};
use crate::errors::BusError;
use crate::event::{BusEvent, Event, Merge};
use crate::identity::{IdentityOfMerge, IdentityOfRx, IdentityOfSimple};
use crate::worker::{lemma_push_to_set, CopyOfWorker, ToWorker, WorkerId};

verus! {

/// How many envelopes one worker's delivery channel holds before dispatch
/// to it reports a full channel: the bus's only backpressure signal.
pub const CHANNEL_CAPACITY: usize = 16;

/// The bus registry and entry point. It owns one record per registered
/// worker; registration appends a record, subscription widens one record's
/// tag set, and dispatch scans the records to fan an event out.
pub struct EntryOfBus {
    workers: Vec<CopyOfWorker>,
    capacity: Option<usize>,
    next_id: usize,
}

impl EntryOfBus {
    /// The registered workers' records, in registration order.
    pub closed spec fn records(&self) -> Seq<CopyOfWorker> {
        self.workers@
    }

    /// The registration bound: `None` on a dynamically-growing bus.
    pub closed spec fn capacity_spec(&self) -> Option<usize> {
        self.capacity
    }

    /// The number the next registered worker will be identified by.
    pub closed spec fn next_id_spec(&self) -> nat {
        self.next_id as nat
    }

    /// How many workers are registered.
    pub open spec fn worker_count(&self) -> nat {
        self.records().len()
    }

    /// Well-formedness: every record is well formed, identity numbers are
    /// distinct and below the allocation counter, and a fixed capacity is
    /// respected.
    pub closed spec fn wf(&self) -> bool {
        &&& (forall|i: int|
            0 <= i < self.workers@.len() ==> (#[trigger] self.workers@[i]).wf())
        &&& (forall|i: int|
            0 <= i < self.workers@.len() ==> (#[trigger] self.workers@[i]).id_spec().num_spec()
                < self.next_id as nat)
        &&& (forall|i: int, j: int|
            0 <= i < self.workers@.len() && 0 <= j < self.workers@.len() && i != j ==> (
            #[trigger] self.workers@[i]).id_spec().num_spec() != (
            #[trigger] self.workers@[j]).id_spec().num_spec())
        &&& (match self.capacity {
            Some(c) => self.workers@.len() <= c,
            None => true,
        })
    }

    /// `true` exactly when a worker with the numeric identity `w` is
    /// registered on this bus.
    pub open spec fn registered(&self, w: nat) -> bool {
        exists|i: int|
            0 <= i < self.records().len() && (#[trigger] self.records()[i]).id_spec().num_spec()
                == w
    }

    /// The index of the record of worker `w`.
    closed spec fn idx_of(&self, w: nat) -> int {
        choose|i: int|
            0 <= i < self.records().len() && (#[trigger] self.records()[i]).id_spec().num_spec()
                == w
    }

    /// The set of type tags worker `w` subscribed to.
    pub closed spec fn subs_of(&self, w: nat) -> Set<u64> {
        self.records()[self.idx_of(w)].subs()
    }

    /// `true` exactly when the registration storage is fixed and full.
    pub open spec fn at_capacity(&self) -> bool {
        match self.capacity_spec() {
            Some(c) => self.worker_count() >= c,
            None => false,
        }
    }

    /// `true` exactly when one more registration must succeed.
    pub open spec fn can_register(&self) -> bool {
        &&& !self.at_capacity()
        &&& self.next_id_spec() < usize::MAX as nat
    }

    /// The workers a dispatched event of tag `tag` is delivered to: exactly
    /// the registered workers whose subscription set holds the tag. Event
    /// content plays no role in routing.
    pub open spec fn targets(&self, tag: u64) -> Set<nat> {
        Set::new(|w: nat| self.registered(w) && self.subs_of(w).contains(tag))
    }

    /// What one registration does: worker `w` is fresh, registered
    /// afterwards with the subscription set `subs`, its record appended
    /// behind the prior records, which keep their positions — so listings
    /// in registration order stay meaningful — and every other worker is
    /// untouched.
    pub open spec fn login_effect(pre: EntryOfBus, post: EntryOfBus, w: nat, subs: Set<u64>) -> bool {
        &&& !pre.registered(w)
        &&& post.registered(w)
        &&& post.subs_of(w) == subs
        &&& (forall|i: int|
            0 <= i < pre.records().len() ==> #[trigger] post.records()[i] == pre.records()[i])
        &&& post.records()[pre.records().len() as int].id_spec().num_spec() == w
        &&& (forall|x: nat| #[trigger] post.registered(x) <==> (pre.registered(x) || x == w))
        &&& (forall|x: nat|
            x != w && pre.registered(x) ==> #[trigger] post.subs_of(x) == pre.subs_of(x))
        &&& post.worker_count() == pre.worker_count() + 1
        &&& post.next_id_spec() == pre.next_id_spec() + 1
        &&& post.capacity_spec() == pre.capacity_spec()
    }

    /// What one subscription does: worker `w`'s tag set gains `t`; every
    /// record keeps its position, identity and channel, and every record
    /// but `w`'s is untouched entirely.
    pub open spec fn subscribe_effect(pre: EntryOfBus, post: EntryOfBus, w: nat, t: u64) -> bool {
        &&& (forall|x: nat| #[trigger] post.registered(x) <==> pre.registered(x))
        &&& post.subs_of(w) == pre.subs_of(w).insert(t)
        &&& (forall|x: nat|
            x != w && pre.registered(x) ==> #[trigger] post.subs_of(x) == pre.subs_of(x))
        &&& (forall|i: int|
            0 <= i < pre.records().len() ==> (#[trigger] post.records()[i]).id_spec()
                == pre.records()[i].id_spec())
        &&& (forall|i: int|
            0 <= i < pre.records().len() ==> (#[trigger] post.records()[i]).chan_spec()
                == pre.records()[i].chan_spec())
        &&& (forall|i: int|
            0 <= i < pre.records().len() && pre.records()[i].id_spec().num_spec() != w
                ==> #[trigger] post.records()[i] == pre.records()[i])
        &&& post.worker_count() == pre.worker_count()
        &&& post.next_id_spec() == pre.next_id_spec()
        &&& post.capacity_spec() == pre.capacity_spec()
    }

    /// The record index of worker `num`, if it is registered.
    fn find_worker(&self, num: usize) -> (r: Option<usize>)
        requires
            self.wf(),
        ensures
            (r matches Some(i) ==> i < self.records().len()
                && self.records()[i as int].id_spec().num_spec() == num as nat),
            (r is None ==> !self.registered(num as nat)),
    {
        let mut i: usize = 0;
        while i < self.workers.len()
            invariant
                i <= self.workers@.len(),
                forall|j: int|
                    0 <= j < i ==> (#[trigger] self.workers@[j]).id_spec().num_spec()
                        != num as nat,
            decreases self.workers@.len() - i,
        {
            if self.workers[i].id_num() == num {
                return Some(i);
            }
            i += 1;
        }
        None
    }

    /// The common allocation step of the three registrations: a fresh
    /// identity, a fresh bounded channel, and a record with no
    /// subscriptions. Refused exactly when the bus cannot take one more
    /// worker.
    fn register_worker(&mut self, name: String) -> (r: Result<
        (WorkerId, tokio::sync::mpsc::Receiver<BusEvent>),
        BusError,
    >)
        requires
            old(self).wf(),
        ensures
            final(self).wf(),
            r is Ok <==> old(self).can_register(),
            (r matches Err(e) ==> e == BusError::RegistryFull && *final(self) == *old(self)),
            (r matches Ok(p) ==> p.0.num_spec() == old(self).next_id_spec() && p.0.name_spec()
                == name@ && EntryOfBus::login_effect(
                *old(self),
                *final(self),
                p.0.num_spec(),
                Set::<u64>::empty(),
            ) && paired(
                final(self).records()[old(self).worker_count() as int].chan_spec(),
                p.1,
            )),
    {
        let full = match &self.capacity {
            Some(c) => self.workers.len() >= *c,
            None => false,
        };
        if full || self.next_id == usize::MAX {
            return Err(BusError::RegistryFull);
        }
        let (tx, rx) = new_channel(CHANNEL_CAPACITY);
        let num = self.next_id;
        self.next_id = num + 1;
        let id = WorkerId::init(num, name);
        let record = CopyOfWorker::init(id.clone(), tx);
        self.workers.push(record);
        proof {
            let pre = *old(self);
            let post = *self;
            let n = pre.records().len() as int;
            assert(post.records() == pre.records().push(record));
            assert(post.records()[n] == record);
            assert forall|i: int| 0 <= i < n implies post.records()[i] == pre.records()[i] by {}
            // well-formedness of the grown registry
            assert forall|i: int|
                0 <= i < post.workers@.len() implies (#[trigger] post.workers@[i]).wf() by {
                if i < n {
                    assert(pre.workers@[i].wf());
                }
            }
            assert forall|i: int|
                0 <= i < post.workers@.len() implies (
            #[trigger] post.workers@[i]).id_spec().num_spec() < post.next_id as nat by {
                if i < n {
                    assert(pre.workers@[i].id_spec().num_spec() < pre.next_id as nat);
                }
            }
            assert forall|i: int, j: int|
                0 <= i < post.workers@.len() && 0 <= j < post.workers@.len() && i != j implies (
            #[trigger] post.workers@[i]).id_spec().num_spec() != (
            #[trigger] post.workers@[j]).id_spec().num_spec() by {
                if i < n && j < n {
                    assert(pre.workers@[i].id_spec().num_spec()
                        != pre.workers@[j].id_spec().num_spec());
                } else if i < n {
                    assert(pre.workers@[i].id_spec().num_spec() < num as nat);
                } else if j < n {
                    assert(pre.workers@[j].id_spec().num_spec() < num as nat);
                }
            }
            assert(post.wf());
            // the new worker is fresh and carries no subscriptions
            assert(!pre.registered(num as nat)) by {
                if pre.registered(num as nat) {
                    let i = choose|i: int|
                        0 <= i < pre.records().len() && (
                        #[trigger] pre.records()[i]).id_spec().num_spec() == num as nat;
                    assert(pre.records()[i].id_spec().num_spec() < num as nat);
                }
            }
            assert(post.registered(num as nat));
            lemma_bus_at_index(post, n);
            assert(post.subs_of(num as nat) == Set::<u64>::empty());
            // everyone registered before is registered after, unchanged
            assert forall|x: nat| #[trigger] post.registered(x) implies (pre.registered(x) || x
                == num as nat) by {
                let i = choose|i: int|
                    0 <= i < post.records().len() && (
                    #[trigger] post.records()[i]).id_spec().num_spec() == x;
                if i < n {
                    assert(pre.records()[i].id_spec().num_spec() == x);
                }
            }
            assert forall|x: nat| pre.registered(x) implies #[trigger] post.registered(x) by {
                let i = choose|i: int|
                    0 <= i < pre.records().len() && (
                    #[trigger] pre.records()[i]).id_spec().num_spec() == x;
                assert(post.records()[i].id_spec().num_spec() == x);
            }
            assert forall|x: nat|
                x != num as nat && pre.registered(x) implies #[trigger] post.subs_of(x)
                == pre.subs_of(x) by {
                let i = choose|i: int|
                    0 <= i < pre.records().len() && (
                    #[trigger] pre.records()[i]).id_spec().num_spec() == x;
                lemma_bus_at_index(pre, i);
                lemma_bus_at_index(post, i);
            }
            // the new record sits behind the prior ones and sends on the
            // channel whose receiving end is handed back
            assert(post.records()[n].id_spec().num_spec() == num as nat);
            assert(post.records()[n].chan_spec() == tx);
            assert(paired(post.records()[n].chan_spec(), rx));
        }
        Ok((id, rx))
    }

    /// Registers a worker named after `W` and returns the receive-and-
    /// subscribe handle on a fresh identity with an empty subscription set;
    /// the handle's receiving end is the very channel the new registry
    /// record sends on. Fails with `RegistryFull` exactly when the bus
    /// cannot take one more worker; no other worker is touched either way.
    pub fn login<W: ToWorker>(&mut self) -> (r: Result<IdentityOfRx, BusError>)
        requires
            old(self).wf(),
        ensures
            final(self).wf(),
            r is Ok <==> old(self).can_register(),
            (r matches Err(e) ==> e == BusError::RegistryFull && *final(self) == *old(self)),
            (r matches Ok(h) ==> h.id_spec().num_spec() == old(self).next_id_spec()
                && h.id_spec().name_spec() == W::name_spec() && EntryOfBus::login_effect(
                *old(self),
                *final(self),
                h.id_spec().num_spec(),
                Set::<u64>::empty(),
            ) && paired(
                final(self).records()[old(self).worker_count() as int].chan_spec(),
                h.rx_spec(),
            )),
    {
        match self.register_worker(W::name()) {
            Ok((id, rx)) => Ok(IdentityOfRx::make(id, rx)),
            Err(e) => Err(e),
        }
    }

    /// Registers a worker named after `W` and returns the dispatch-only
    /// handle: same allocation as `login`, no receiving capability, no use
    /// of the subscription set.
    pub fn simple_login<W: ToWorker, T>(&mut self) -> (r: Result<IdentityOfSimple<T>, BusError>)
        requires
            old(self).wf(),
        ensures
            final(self).wf(),
            r is Ok <==> old(self).can_register(),
            (r matches Err(e) ==> e == BusError::RegistryFull && *final(self) == *old(self)),
            (r matches Ok(h) ==> h.id_spec().num_spec() == old(self).next_id_spec()
                && h.id_spec().name_spec() == W::name_spec() && EntryOfBus::login_effect(
                *old(self),
                *final(self),
                h.id_spec().num_spec(),
                Set::<u64>::empty(),
            )),
    {
        match self.register_worker(W::name()) {
            Ok((id, _rx)) => Ok(IdentityOfSimple::make(id)),
            Err(e) => Err(e),
        }
    }

    /// Records worker `id`'s interest in the tag `ty_id`. Succeeds exactly
    /// for a registered identity; idempotent — on a tag already held the
    /// bus is left untouched — and additive-only: no operation narrows a
    /// subscription set. Identities are matched by number alone, and any
    /// caller can build one, so holding a matching `WorkerId` is enough to
    /// widen a worker's subscriptions — never to narrow or unregister.
    pub fn subscribe_tag(&mut self, id: &WorkerId, ty_id: u64) -> (r: Result<(), BusError>)
        requires
            old(self).wf(),
        ensures
            final(self).wf(),
            r is Ok <==> old(self).registered(id.num_spec()),
            (r matches Err(e) ==> e == BusError::UnknownWorker && *final(self) == *old(self)),
            (r is Ok ==> EntryOfBus::subscribe_effect(
                *old(self),
                *final(self),
                id.num_spec(),
                ty_id,
            )),
            (r is Ok && old(self).subs_of(id.num_spec()).contains(ty_id) ==> *final(self) == *old(
                self,
            )),
    {
        let found = self.find_worker(id.num());
        match found {
            Some(i) => {
                proof {
                    lemma_bus_at_index(*self, i as int);
                }
                let already = self.workers[i].is_subscribed(ty_id);
                if !already {
                    let ghost pre = *self;
                    let w = &mut self.workers[i];
                    w.subscribe_event(ty_id);
                    proof {
                        let post = *self;
                        let n = pre.records().len() as int;
                        let num = id.num_spec();
                        assert(post.records() == pre.records().update(i as int, post.records()[i as int]));
                        assert forall|k: int|
                            0 <= k < n && k != i implies post.records()[k] == pre.records()[k] by {}
                        assert forall|k: int|
                            0 <= k < post.workers@.len() implies (
                        #[trigger] post.workers@[k]).wf() by {
                            if k != i {
                                assert(pre.workers@[k].wf());
                            }
                        }
                        assert forall|k: int|
                            0 <= k < post.workers@.len() implies (
                        #[trigger] post.workers@[k]).id_spec().num_spec() < post.next_id as nat by {
                            assert(pre.workers@[k].id_spec().num_spec() < pre.next_id as nat);
                            assert(post.workers@[k].id_spec() == pre.workers@[k].id_spec());
                        }
                        assert forall|k: int, l: int|
                            0 <= k < post.workers@.len() && 0 <= l < post.workers@.len() && k
                            != l implies (#[trigger] post.workers@[k]).id_spec().num_spec() != (
                        #[trigger] post.workers@[l]).id_spec().num_spec() by {
                            assert(pre.workers@[k].id_spec().num_spec()
                                != pre.workers@[l].id_spec().num_spec());
                            assert(post.workers@[k].id_spec() == pre.workers@[k].id_spec());
                            assert(post.workers@[l].id_spec() == pre.workers@[l].id_spec());
                        }
                        assert(post.wf());
                        assert forall|x: nat| #[trigger] post.registered(x) implies pre.registered(
                            x,
                        ) by {
                            let k = choose|k: int|
                                0 <= k < post.records().len() && (
                                #[trigger] post.records()[k]).id_spec().num_spec() == x;
                            assert(pre.records()[k].id_spec().num_spec() == x);
                        }
                        assert forall|x: nat| pre.registered(x) implies #[trigger] post.registered(
                            x,
                        ) by {
                            let k = choose|k: int|
                                0 <= k < pre.records().len() && (
                                #[trigger] pre.records()[k]).id_spec().num_spec() == x;
                            assert(post.records()[k].id_spec().num_spec() == x);
                        }
                        lemma_bus_at_index(pre, i as int);
                        lemma_bus_at_index(post, i as int);
                        assert(post.subs_of(num) == pre.subs_of(num).insert(ty_id));
                        assert forall|x: nat|
                            x != num && pre.registered(x) implies #[trigger] post.subs_of(x)
                            == pre.subs_of(x) by {
                            let k = choose|k: int|
                                0 <= k < pre.records().len() && (
                                #[trigger] pre.records()[k]).id_spec().num_spec() == x;
                            assert(k != i);
                            lemma_bus_at_index(pre, k);
                            lemma_bus_at_index(post, k);
                        }
                        assert forall|k: int|
                            0 <= k < pre.records().len() implies (
                        #[trigger] post.records()[k]).id_spec() == pre.records()[k].id_spec() by {}
                        assert forall|k: int|
                            0 <= k < pre.records().len() implies (
                        #[trigger] post.records()[k]).chan_spec()
                            == pre.records()[k].chan_spec() by {}
                        assert forall|k: int|
                            0 <= k < pre.records().len() && pre.records()[k].id_spec().num_spec()
                            != num implies #[trigger] post.records()[k] == pre.records()[k] by {
                            assert(pre.records()[i as int].id_spec().num_spec() == num);
                        }
                    }
                } else {
                    proof {
                        let num = id.num_spec();
                        assert(self.subs_of(num).insert(ty_id) =~= self.subs_of(num));
                    }
                }
                Ok(())
            }
            None => Err(BusError::UnknownWorker),
        }
    }

    /// Records worker `id`'s interest in the event type `T`; see
    /// `subscribe_tag`.
    pub fn subscribe<T: Event>(&mut self, id: &WorkerId) -> (r: Result<(), BusError>)
        requires
            old(self).wf(),
        ensures
            final(self).wf(),
            r is Ok <==> old(self).registered(id.num_spec()),
            (r matches Err(e) ==> e == BusError::UnknownWorker && *final(self) == *old(self)),
            (r is Ok ==> EntryOfBus::subscribe_effect(
                *old(self),
                *final(self),
                id.num_spec(),
                T::tag_spec(),
            )),
            (r is Ok && old(self).subs_of(id.num_spec()).contains(T::tag_spec()) ==> *final(self)
                == *old(self)),
    {
        self.subscribe_tag(id, T::type_tag())
    }

    /// Registers a worker named after `W`, subscribes it to every tag `M`
    /// declares, and returns the merge handle; the handle's receiving end
    /// is the very channel the new registry record sends on. Fails with
    /// `RegistryFull` exactly when the bus cannot take one more worker; no
    /// other worker is touched either way.
    pub fn merge_login<W: ToWorker, M: Merge>(&mut self) -> (r: Result<IdentityOfMerge<M>, BusError>)
        requires
            old(self).wf(),
        ensures
            final(self).wf(),
            r is Ok <==> old(self).can_register(),
            (r matches Err(e) ==> e == BusError::RegistryFull && *final(self) == *old(self)),
            (r matches Ok(h) ==> h.id_spec().num_spec() == old(self).next_id_spec()
                && h.id_spec().name_spec() == W::name_spec() && EntryOfBus::login_effect(
                *old(self),
                *final(self),
                h.id_spec().num_spec(),
                M::tags_spec().to_set(),
            ) && paired(
                final(self).records()[old(self).worker_count() as int].chan_spec(),
                h.rx_spec(),
            )),
    {
        let registered_pair = match self.register_worker(W::name()) {
            Ok(p) => p,
            Err(e) => {
                return Err(e);
            },
        };
        let (id, rx) = registered_pair;
        let ghost mid = *self;
        let ghost num = id.num_spec();
        let tags = M::subscribe_types();
        let mut k: usize = 0;
        proof {
            assert(M::tags_spec().take(0) =~= Seq::<u64>::empty());
            assert(Seq::<u64>::empty().to_set() =~= Set::<u64>::empty());
        }
        while k < tags.len()
            invariant
                self.wf(),
                k <= tags@.len(),
                tags@.map_values(|p: (u64, String)| p.0) == M::tags_spec(),
                id.num_spec() == num,
                self.registered(num),
                self.subs_of(num) == M::tags_spec().take(k as int).to_set(),
                forall|x: nat| #[trigger] self.registered(x) <==> mid.registered(x),
                forall|x: nat|
                    x != num && mid.registered(x) ==> #[trigger] self.subs_of(x) == mid.subs_of(x),
                self.worker_count() == mid.worker_count(),
                self.next_id_spec() == mid.next_id_spec(),
                self.capacity_spec() == mid.capacity_spec(),
                forall|j: int|
                    0 <= j < mid.records().len() ==> (#[trigger] self.records()[j]).id_spec()
                        == mid.records()[j].id_spec(),
                forall|j: int|
                    0 <= j < mid.records().len() ==> (#[trigger] self.records()[j]).chan_spec()
                        == mid.records()[j].chan_spec(),
                forall|j: int|
                    0 <= j < mid.records().len() && mid.records()[j].id_spec().num_spec() != num
                        ==> #[trigger] self.records()[j] == mid.records()[j],
            decreases tags@.len() - k,
        {
            let ghost before = *self;
            let tag = tags[k].0;
            proof {
                assert(tags@.map_values(|p: (u64, String)| p.0)[k as int] == tag);
            }
            let sub_result = self.subscribe_tag(&id, tag);
            match sub_result {
                Ok(()) => {},
                Err(_) => {
                    proof {
                        assert(false);
                    }
                },
            }
            proof {
                assert(M::tags_spec()[k as int] == tag);
                assert(M::tags_spec().take(k as int + 1) =~= M::tags_spec().take(k as int).push(
                    tag,
                ));
                lemma_push_to_set(M::tags_spec().take(k as int), tag);
                assert(self.subs_of(num) == M::tags_spec().take(k as int + 1).to_set());
                assert forall|x: nat|
                    x != num && mid.registered(x) implies #[trigger] self.subs_of(x)
                    == mid.subs_of(x) by {
                    assert(before.registered(x));
                    assert(self.subs_of(x) == before.subs_of(x));
                }
                assert forall|j: int|
                    0 <= j < mid.records().len() && mid.records()[j].id_spec().num_spec()
                    != num implies #[trigger] self.records()[j] == mid.records()[j] by {
                    assert(before.records()[j] == mid.records()[j]);
                    assert(before.records()[j].id_spec().num_spec() != num);
                }
            }
            k += 1;
        }
        proof {
            assert(M::tags_spec().take(M::tags_spec().len() as int) =~= M::tags_spec());
            // the records of the bus as it stood before this registration
            // keep their positions, and the new record, appended behind
            // them, still sends on the channel whose receiving end the
            // handle takes
            let pre = *old(self);
            let n = pre.records().len() as int;
            assert forall|j: int| 0 <= j < n implies #[trigger] self.records()[j]
                == pre.records()[j] by {
                assert(mid.records()[j] == pre.records()[j]);
                assert(pre.records()[j].id_spec().num_spec() < pre.next_id_spec());
                assert(mid.records()[j].id_spec().num_spec() != num);
            }
            assert(self.records()[n].id_spec() == mid.records()[n].id_spec());
            assert(self.records()[n].chan_spec() == mid.records()[n].chan_spec());
            assert(paired(self.records()[n].chan_spec(), rx));
        }
        Ok(IdentityOfMerge::make(id, rx))
    }

    /// Erases the event and attempts to enqueue one shared envelope on the
    /// channel of every registered worker subscribed to its tag, in
    /// registration order. The first full or closed channel is reported at
    /// once and ends the scan: no silent drop, and no guarantee for workers
    /// not yet scanned. An error therefore means some worker is subscribed
    /// to the tag; the error names the failure kind but carries neither the
    /// target nor the undelivered envelope, which is dropped. The registry
    /// itself is never changed by dispatch.
    pub fn dispatch_event<T: Event>(&self, event: T) -> (r: Result<(), BusError>)
        requires
            self.wf(),
        ensures
            (r is Err ==> r == Result::<(), BusError>::Err(BusError::ChannelFull) || r
                == Result::<(), BusError>::Err(BusError::ChannelClosed)),
            (r is Err ==> self.targets(T::tag_spec()) != Set::<nat>::empty()),
    {
        let envelope = BusEvent::erase(event);
        let tag = envelope.tag();
        let mut i: usize = 0;
        while i < self.workers.len()
            invariant
                self.wf(),
                i <= self.workers@.len(),
                tag == T::tag_spec(),
            decreases self.workers@.len() - i,
        {
            if self.workers[i].is_subscribed(tag) {
                let delivery = self.workers[i].try_send(envelope.duplicate());
                match delivery {
                    Ok(()) => {},
                    Err(e) => {
                        proof {
                            lemma_bus_at_index(*self, i as int);
                            let num = self.records()[i as int].id_spec().num_spec();
                            assert(self.targets(T::tag_spec()).contains(num));
                            assert(!Set::<nat>::empty().contains(num));
                        }
                        return Err(e);
                    },
                }
            }
            i += 1;
        }
        Ok(())
    }

    /// The identities a dispatched event of tag `ty_id` would be delivered
    /// to, in registration order: exactly the registered workers whose
    /// subscription set holds the tag.
    pub fn subscribers_of(&self, ty_id: u64) -> (ids: Vec<WorkerId>)
        requires
            self.wf(),
        ensures
            ids@ == self.records().filter(|w: CopyOfWorker| w.subs().contains(ty_id)).map_values(
                |w: CopyOfWorker| w.id_spec(),
            ),
    {
        let ghost pred = |w: CopyOfWorker| w.subs().contains(ty_id);
        let ghost to_id = |w: CopyOfWorker| w.id_spec();
        let mut ids: Vec<WorkerId> = Vec::new();
        let mut i: usize = 0;
        proof {
            assert(self.records().take(0) =~= Seq::<CopyOfWorker>::empty());
            assert(Seq::<CopyOfWorker>::empty().filter(pred) =~= Seq::<CopyOfWorker>::empty());
            assert(Seq::<CopyOfWorker>::empty().map_values(to_id) =~= Seq::<WorkerId>::empty());
        }
        while i < self.workers.len()
            invariant
                i <= self.workers@.len(),
                self.wf(),
                pred == (|w: CopyOfWorker| w.subs().contains(ty_id)),
                to_id == (|w: CopyOfWorker| w.id_spec()),
                ids@ == self.records().take(i as int).filter(pred).map_values(to_id),
            decreases self.workers@.len() - i,
        {
            let ghost prefix = self.records().take(i as int);
            let ghost longer = self.records().take(i as int + 1);
            let subscribed = self.workers[i].is_subscribed(ty_id);
            if subscribed {
                ids.push(self.workers[i].id());
            }
            proof {
                reveal_with_fuel(Seq::filter, 2);
                let record = self.records()[i as int];
                assert(longer =~= prefix.push(record));
                assert(longer.drop_last() =~= prefix);
                assert(longer.last() == record);
                assert(longer.len() == prefix.len() + 1);
                if pred(record) {
                    assert(longer.filter(pred) == prefix.filter(pred).push(record));
                    assert(prefix.filter(pred).push(record).map_values(to_id) =~= prefix.filter(
                        pred,
                    ).map_values(to_id).push(record.id_spec()));
                } else {
                    assert(longer.filter(pred) == prefix.filter(pred));
                }
            }
            i += 1;
        }
        proof {
            assert(self.records().take(self.records().len() as int) =~= self.records());
        }
        ids
    }
}

/// Registered worker `w` appears at index `i`: then `w`'s record is that
/// very index, and its subscriptions are read there.
proof fn lemma_bus_at_index(bus: EntryOfBus, i: int)
    requires
        bus.wf(),
        0 <= i < bus.records().len(),
    ensures
        bus.registered(bus.records()[i].id_spec().num_spec()),
        bus.idx_of(bus.records()[i].id_spec().num_spec()) == i,
        bus.subs_of(bus.records()[i].id_spec().num_spec()) == bus.records()[i].subs(),
{
    let w = bus.records()[i].id_spec().num_spec();
    assert(bus.registered(w));
    let j = bus.idx_of(w);
    assert(0 <= j < bus.records().len() && bus.records()[j].id_spec().num_spec() == w);
    if i != j {
        assert(bus.records()[i].id_spec().num_spec() != bus.records()[j].id_spec().num_spec());
    }
}

/// A fixed-capacity bus: at most `N` workers ever register; the `N + 1`st
/// registration attempt fails.
pub struct Bus<const N: usize> {}

impl<const N: usize> Bus<N> {
    /// A fresh bounded bus with no workers.
    pub fn init() -> (b: EntryOfBus)
        ensures
            b.wf(),
            b.capacity_spec() == Some(N),
            b.worker_count() == 0,
            b.next_id_spec() == 0,
    {
        EntryOfBus { workers: Vec::new(), capacity: Some(N), next_id: 0 }
    }
}

/// A dynamically-growing bus: registration is never refused for capacity.
pub struct SimpleBus {}

impl SimpleBus {
    /// A fresh unbounded bus with no workers.
    pub fn init() -> (b: EntryOfBus)
        ensures
            b.wf(),
            b.capacity_spec() == None::<usize>,
            b.worker_count() == 0,
            b.next_id_spec() == 0,
    {
        EntryOfBus { workers: Vec::new(), capacity: None, next_id: 0 }
    }
}

/// Law: routing is by subscription alone. A worker subscribed to `a` and
/// not to `b` is a delivery target of every dispatched `a` event and of no
/// dispatched `b` event, whatever else is interleaved.
pub proof fn lemma_subscriber_receives_only_its_types(bus: EntryOfBus, w: nat, a: u64, b: u64)
    requires
        bus.registered(w),
        bus.subs_of(w).contains(a),
        !bus.subs_of(w).contains(b),
    ensures
        bus.targets(a).contains(w),
        !bus.targets(b).contains(w),
{
}

/// Law: fan-out is multiplicative, not consumed-once. Every worker
/// subscribed to `a` is a delivery target of every dispatched `a` event.
pub proof fn lemma_fan_out_reaches_all(bus: EntryOfBus, w1: nat, w2: nat, a: u64)
    requires
        bus.registered(w1),
        bus.registered(w2),
        bus.subs_of(w1).contains(a),
        bus.subs_of(w2).contains(a),
    ensures
        bus.targets(a).contains(w1),
        bus.targets(a).contains(w2),
{
}

/// Law: subscribing to the same type twice routes every future dispatch
/// exactly as subscribing once does.
pub proof fn lemma_subscribe_idempotent(
    pre: EntryOfBus,
    once: EntryOfBus,
    twice: EntryOfBus,
    w: nat,
    t: u64,
)
    requires
        EntryOfBus::subscribe_effect(pre, once, w, t),
        EntryOfBus::subscribe_effect(once, twice, w, t),
    ensures
        forall|tag: u64| #[trigger] twice.targets(tag) == once.targets(tag),
{
    assert(twice.subs_of(w) =~= once.subs_of(w));
    assert forall|tag: u64| #[trigger] twice.targets(tag) == once.targets(tag) by {
        assert forall|x: nat| twice.targets(tag).contains(x) <==> once.targets(tag).contains(
            x,
        ) by {
            assert(twice.registered(x) <==> once.registered(x));
            if x != w && once.registered(x) {
                assert(twice.subs_of(x) == once.subs_of(x));
            }
        }
        assert(twice.targets(tag) =~= once.targets(tag));
    }
}

/// Law: a merge registration over a declared tag list makes its worker a
/// delivery target of exactly the declared tags.
pub proof fn lemma_merge_covers_exactly_declared(
    bus: EntryOfBus,
    w: nat,
    declared: Seq<u64>,
    t: u64,
)
    requires
        bus.registered(w),
        bus.subs_of(w) == declared.to_set(),
    ensures
        bus.targets(t).contains(w) <==> declared.contains(t),
{
}

} // verus!
