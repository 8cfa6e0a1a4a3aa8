//! Worker identities and the bus-side record of a registered worker.

use vstd::prelude::*;

use crate::channel::{clone_sender, try_send_event};
use crate::errors::BusError;
use crate::event::BusEvent;

verus! {

/// Appending one element to a sequence adds exactly it to the element set.
pub(crate) proof fn lemma_push_to_set<A>(s: Seq<A>, x: A)
    ensures
        s.push(x).to_set() == s.to_set().insert(x),
{
    let s_new = s.push(x);
    assert(s_new[s.len() as int] == x);
    assert forall|y: A| s_new.contains(y) implies (s.contains(y) || y == x) by {
        let i = choose|i: int| 0 <= i < s_new.len() && s_new[i] == y;
        if i < s.len() {
            assert(s[i] == y);
        }
    }
    assert forall|y: A| s.contains(y) implies s_new.contains(y) by {
        let i = choose|i: int| 0 <= i < s.len() && s[i] == y;
        assert(s_new[i] == y);
    }
    assert(s_new.to_set() =~= s.to_set().insert(x));
}

/// `true` exactly when `v` holds `x`.
pub(crate) fn contains_tag(v: &Vec<u64>, x: u64) -> (b: bool)
    ensures
        b == v@.contains(x),
{
    let mut i: usize = 0;
    while i < v.len()
        invariant
            0 <= i <= v@.len(),
            forall|j: int| 0 <= j < i ==> v@[j] != x,
        decreases v@.len() - i,
    {
        if v[i] == x {
            proof {
                assert(v@[i as int] == x);
            }
            return true;
        }
        i += 1;
    }
    false
}

/// The decimal digit character for a value below ten.
pub open spec fn dec_digit(d: nat) -> char {
    if d == 0 {
        '0'
    } else if d == 1 {
        '1'
    } else if d == 2 {
        '2'
    } else if d == 3 {
        '3'
    } else if d == 4 {
        '4'
    } else if d == 5 {
        '5'
    } else if d == 6 {
        '6'
    } else if d == 7 {
        '7'
    } else if d == 8 {
        '8'
    } else {
        '9'
    }
}

/// The decimal representation of `n`, most significant digit first.
pub open spec fn dec_rep(n: nat) -> Seq<char>
    decreases n,
{
    if n < 10 {
        seq![dec_digit(n)]
    } else {
        dec_rep(n / 10).push(dec_digit(n % 10))
    }
}

/// The one-character string for a decimal digit.
fn digit_str(d: usize) -> (r: &'static str)
    requires
        d < 10,
    ensures
        r@ == seq![dec_digit(d as nat)],
{
    let r: &'static str = if d == 0 {
        "0"
    } else if d == 1 {
        "1"
    } else if d == 2 {
        "2"
    } else if d == 3 {
        "3"
    } else if d == 4 {
        "4"
    } else if d == 5 {
        "5"
    } else if d == 6 {
        "6"
    } else if d == 7 {
        "7"
    } else if d == 8 {
        "8"
    } else {
        "9"
    };
    proof {
        reveal_strlit("0");
        reveal_strlit("1");
        reveal_strlit("2");
        reveal_strlit("3");
        reveal_strlit("4");
        reveal_strlit("5");
        reveal_strlit("6");
        reveal_strlit("7");
        reveal_strlit("8");
        reveal_strlit("9");
        assert(r@ =~= seq![dec_digit(d as nat)]);
    }
    r
}

/// Appends the decimal digits of `n`, most significant first.
fn push_decimal(n: usize, s: &mut String)
    ensures
        final(s)@ == old(s)@ + dec_rep(n as nat),
    decreases n,
{
    if n < 10 {
        s.append(digit_str(n));
        proof {
            assert(old(s)@ + seq![dec_digit(n as nat)] =~= old(s)@ + dec_rep(n as nat));
        }
    } else {
        push_decimal(n / 10, s);
        s.append(digit_str(n % 10));
        proof {
            assert(old(s)@ + dec_rep(n as nat / 10) + seq![dec_digit(n as nat % 10)] =~= old(s)@
                + dec_rep(n as nat));
        }
    }
}

/// The decimal form of `n`.
fn decimal_string(n: usize) -> (r: String)
    ensures
        r@ == dec_rep(n as nat),
{
    let mut s = String::new();
    push_decimal(n, &mut s);
    proof {
        assert(Seq::<char>::empty() + dec_rep(n as nat) =~= dec_rep(n as nat));
    }
    s
}

/// A handle naming one registered participant.
///
/// The numeric part is allocated by the bus from a monotone counter, so no
/// two identities handed out by one bus are ever equal, even under a shared
/// name. The counter is per bus, not per process: two buses can hand out
/// identities with equal numbers, and this constructor is open, so holding
/// a `WorkerId` proves nothing about who built it — a bus accepts any
/// identity whose number matches a registered worker. An identity is
/// immutable after creation.
pub struct WorkerId {
    id: usize,
    name: String,
}

impl WorkerId {
    /// The numeric part of the identity.
    pub closed spec fn num_spec(&self) -> nat {
        self.id as nat
    }

    /// The human-readable part of the identity.
    pub closed spec fn name_spec(&self) -> Seq<char> {
        self.name@
    }

    /// Pairs a freshly allocated number with a caller-supplied name.
    /// Never blocks and never fails; uniqueness of the number is the
    /// allocating bus's burden.
    pub fn init(id: usize, name: String) -> (w: WorkerId)
        ensures
            w.num_spec() == id as nat,
            w.name_spec() == name@,
    {
        WorkerId { id, name }
    }

    /// The name this identity was created under.
    pub fn name(&self) -> (r: &str)
        ensures
            r@ == self.name_spec(),
    {
        self.name.as_str()
    }

    /// The numeric part of the identity.
    pub fn num(&self) -> (n: usize)
        ensures
            n as nat == self.num_spec(),
    {
        self.id
    }

    /// The display form `"{name}-{id}"`.
    pub fn display(&self) -> (s: String)
        ensures
            s@ == self.name_spec() + "-"@ + dec_rep(self.num_spec()),
    {
        let mut s = self.name.clone();
        s.append("-");
        let digits = decimal_string(self.id);
        s.append(digits.as_str());
        s
    }

    /// Two identities are the same exactly when both parts agree.
    pub fn same(&self, other: &WorkerId) -> (r: bool)
        ensures
            r == (self.num_spec() == other.num_spec() && self.name_spec() == other.name_spec()),
    {
        self.id == other.id && self.name == other.name
    }
}

impl Clone for WorkerId {
    fn clone(&self) -> (r: Self)
        ensures
            r == *self,
    {
        WorkerId { id: self.id, name: self.name.clone() }
    }
}

/// The dispatch-side projection of a registry entry: the worker's identity
/// and a sending handle on its channel, with no view of its subscriptions.
pub struct Worker {
    id: WorkerId,
    tx: tokio::sync::mpsc::Sender<BusEvent>,
}

impl Worker {
    /// The identity this projection stands for.
    pub closed spec fn id_spec(&self) -> WorkerId {
        self.id
    }

    /// The sending handle on the worker's channel.
    pub closed spec fn chan_spec(&self) -> tokio::sync::mpsc::Sender<BusEvent> {
        self.tx
    }

    /// The identity this projection stands for.
    pub fn id(&self) -> (r: WorkerId)
        ensures
            r == self.id_spec(),
    {
        self.id.clone()
    }

    /// Attempts to enqueue one envelope on the worker's channel; a full or
    /// closed channel is reported, never waited out.
    pub fn try_send(&self, event: BusEvent) -> (r: Result<(), BusError>)
        ensures
            (r is Err ==> r == Result::<(), BusError>::Err(BusError::ChannelFull) || r == Result::<(), BusError>::Err(BusError::ChannelClosed)),
    {
        try_send_event(&self.tx, event)
    }
}

/// The bus-side record of one registered worker: its identity, the sending
/// end of its delivery channel, and the set of type tags it subscribed to.
/// Subscriptions only grow; there is no removal.
pub struct CopyOfWorker {
    id: WorkerId,
    tx_event: tokio::sync::mpsc::Sender<BusEvent>,
    subscribe_events: Vec<u64>,
}

impl CopyOfWorker {
    /// The identity of the recorded worker.
    pub closed spec fn id_spec(&self) -> WorkerId {
        self.id
    }

    /// The sending handle on the recorded worker's channel.
    pub closed spec fn chan_spec(&self) -> tokio::sync::mpsc::Sender<BusEvent> {
        self.tx_event
    }

    /// The set of type tags the recorded worker subscribed to.
    pub closed spec fn subs(&self) -> Set<u64> {
        self.subscribe_events@.to_set()
    }

    /// Internal well-formedness: the subscription list holds no tag twice.
    pub closed spec fn wf(&self) -> bool {
        self.subscribe_events@.no_duplicates()
    }

    /// A fresh record with no subscriptions.
    pub fn init(id: WorkerId, tx_event: tokio::sync::mpsc::Sender<BusEvent>) -> (w: CopyOfWorker)
        ensures
            w.wf(),
            w.id_spec() == id,
            w.chan_spec() == tx_event,
            w.subs() == Set::<u64>::empty(),
    {
        let w = CopyOfWorker { id, tx_event, subscribe_events: Vec::new() };
        proof {
            assert(w.subscribe_events@.to_set() =~= Set::<u64>::empty());
        }
        w
    }

    /// The identity of the recorded worker.
    pub fn id(&self) -> (r: WorkerId)
        ensures
            r == self.id_spec(),
    {
        self.id.clone()
    }

    /// The numeric part of the recorded worker's identity.
    pub fn id_num(&self) -> (n: usize)
        ensures
            n as nat == self.id_spec().num_spec(),
    {
        self.id.num()
    }

    /// Attempts to enqueue one envelope on the recorded worker's channel; a
    /// full or closed channel is reported, never waited out.
    pub fn try_send(&self, event: BusEvent) -> (r: Result<(), BusError>)
        ensures
            (r is Err ==> r == Result::<(), BusError>::Err(BusError::ChannelFull) || r == Result::<(), BusError>::Err(BusError::ChannelClosed)),
    {
        try_send_event(&self.tx_event, event)
    }

    /// The dispatch-side projection of this record: same identity, a sending
    /// handle on the same channel, no view of the subscription set.
    pub fn init_subscriber(&self) -> (w: Worker)
        ensures
            w.id_spec() == self.id_spec(),
            w.chan_spec() == self.chan_spec(),
    {
        Worker { id: self.id.clone(), tx: clone_sender(&self.tx_event) }
    }

    /// Records interest in one type tag. Idempotent: on a tag already held
    /// the record is left exactly as it was.
    pub fn subscribe_event(&mut self, ty_id: u64)
        requires
            old(self).wf(),
        ensures
            final(self).wf(),
            final(self).id_spec() == old(self).id_spec(),
            final(self).chan_spec() == old(self).chan_spec(),
            final(self).subs() == old(self).subs().insert(ty_id),
            old(self).subs().contains(ty_id) ==> *final(self) == *old(self),
    {
        if !contains_tag(&self.subscribe_events, ty_id) {
            let ghost s_old = self.subscribe_events@;
            self.subscribe_events.push(ty_id);
            proof {
                assert(self.subscribe_events@[s_old.len() as int] == ty_id);
                lemma_push_to_set(s_old, ty_id);
            }
        } else {
            proof {
                assert(self.subscribe_events@.to_set() =~= old(
                    self,
                ).subscribe_events@.to_set().insert(ty_id));
            }
        }
    }

    /// The subscribed type tags, each exactly once.
    pub fn subscribe_events(&self) -> (r: &Vec<u64>)
        ensures
            r@.to_set() == self.subs(),
            r@.no_duplicates() == self.wf(),
    {
        &self.subscribe_events
    }

    /// `true` exactly when this record subscribed to `ty_id`.
    pub fn is_subscribed(&self, ty_id: u64) -> (b: bool)
        ensures
            b == self.subs().contains(ty_id),
    {
        contains_tag(&self.subscribe_events, ty_id)
    }
}

/// The capability a registering type must provide: a logical name for the
/// identities allocated on its behalf. Implemented by the library's users.
pub trait ToWorker {
    /// The name, as a mathematical sequence of characters; the default
    /// stands only for unverified implementors.
    open spec fn name_spec() -> Seq<char> {
        Seq::<char>::empty()
    }

    /// The name a worker of this type registers under.
    fn name() -> (s: String)
        ensures
            s@ == Self::name_spec(),
    ;
}

} // verus!
