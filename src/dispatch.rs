use vstd::prelude::*;

use crate::decode::{decode_frame, decoded, DecodeError, RawEventFields};
use crate::events::{kind_of, EventKind, PuppetEvent};

verus! {

/// A listener's subscription to one event kind, under the listener's name.
pub struct Subscription<T> {
    pub kind: EventKind,
    pub name: String,
    pub target: T,
}

/// Ask to deliver one event kind to the named listener at `addr`.
pub struct Subscribe<T> {
    pub addr: T,
    pub name: String,
    pub event_kind: EventKind,
}

/// Ask to stop delivering one event kind to the named listener.
#[derive(Clone, Debug)]
pub struct UnSubscribe {
    pub name: String,
    pub event_kind: EventKind,
}

/// Some subscription has this kind and name.
pub open spec fn is_subscribed<T>(e: Seq<Subscription<T>>, kind: EventKind, name: Seq<char>) -> bool {
    exists|i: int| 0 <= i < e.len() && #[trigger] e[i].kind == kind && e[i].name@ == name
}

/// The position of the subscription with this kind and name (when there is one).
pub open spec fn subscription_index<T>(e: Seq<Subscription<T>>, kind: EventKind, name: Seq<char>) -> int {
    choose|i: int| 0 <= i < e.len() && #[trigger] e[i].kind == kind && e[i].name@ == name
}

/// No two subscriptions share kind and name.
pub open spec fn subscriptions_unique<T>(e: Seq<Subscription<T>>) -> bool {
    forall|i: int, j: int|
        0 <= i < j < e.len() ==> !(#[trigger] e[i].kind == #[trigger] e[j].kind && e[i].name@ == e[j].name@)
}

/// The registry of subscribers, keyed by event kind and subscriber name: a
/// plain mapping, so subscribing again under a name replaces its target.
pub struct SubscriberRegistry<T> {
    entries: Vec<Subscription<T>>,
}

impl<T> View for SubscriberRegistry<T> {
    type V = Seq<Subscription<T>>;

    closed spec fn view(&self) -> Seq<Subscription<T>> {
        self.entries@
    }
}

impl<T> SubscriberRegistry<T> {
    /// Each kind and name appears at most once.
    pub open spec fn wf(&self) -> bool {
        subscriptions_unique(self@)
    }

    /// An empty registry.
    pub fn new() -> (r: SubscriberRegistry<T>)
        ensures
            r.wf(),
            r@ == Seq::<Subscription<T>>::empty(),
    {
        SubscriberRegistry { entries: Vec::new() }
    }

    /// The position of the subscription with this kind and name, if any.
    pub fn position(&self, kind: EventKind, name: &String) -> (r: Option<usize>)
        ensures
            r is None <==> !is_subscribed(self@, kind, name@),
            r matches Some(i) ==> i < self@.len() && self@[i as int].kind == kind && self@[i as int].name@ == name@,
    {
        let mut i: usize = 0;
        while i < self.entries.len()
            invariant
                0 <= i <= self@.len(),
                self@ == self.entries@,
                forall|j: int| 0 <= j < i ==> !(#[trigger] self@[j].kind == kind && self@[j].name@ == name@),
            decreases self@.len() - i,
        {
            if self.entries[i].kind == kind && self.entries[i].name.eq(name) {
                return Some(i);
            }
            i = i + 1;
        }
        None
    }

    /// Subscribes `name` to `kind` with `target`. An existing subscription under
    /// the same kind and name has its target replaced in place.
    pub fn subscribe(&mut self, kind: EventKind, name: String, target: T)
        requires
            old(self).wf(),
        ensures
            final(self).wf(),
            is_subscribed(old(self)@, kind, name@) ==> {
                let i = subscription_index(old(self)@, kind, name@);
                &&& final(self)@.len() == old(self)@.len()
                &&& final(self)@[i].kind == kind
                &&& final(self)@[i].name@ == name@
                &&& final(self)@[i].target == target
                &&& forall|j: int| 0 <= j < old(self)@.len() && j != i ==> #[trigger] final(self)@[j] == old(self)@[j]
            },
            !is_subscribed(old(self)@, kind, name@) ==> {
                &&& final(self)@.len() == old(self)@.len() + 1
                &&& final(self)@.last().kind == kind
                &&& final(self)@.last().name@ == name@
                &&& final(self)@.last().target == target
                &&& forall|j: int| 0 <= j < old(self)@.len() ==> #[trigger] final(self)@[j] == old(self)@[j]
            },
    {
        match self.position(kind, &name) {
            Some(i) => {
                proof {
                    let k = subscription_index(self@, kind, name@);
                    assert(k == i as int) by {
                        if k != i as int {
                            assert(self@[k].kind == kind && self@[k].name@ == name@);
                            if k < i {
                                assert(!(self@[k].kind == self@[i as int].kind && self@[k].name@ == self@[i as int].name@));
                            } else {
                                assert(!(self@[i as int].kind == self@[k].kind && self@[i as int].name@ == self@[k].name@));
                            }
                        }
                    }
                }
                self.entries.set(i, Subscription { kind, name, target });
            },
            None => {
                self.entries.push(Subscription { kind, name, target });
            },
        }
    }

    /// Removes the subscription of `name` to `kind`; an absent one is no error.
    pub fn unsubscribe(&mut self, kind: EventKind, name: &String)
        requires
            old(self).wf(),
        ensures
            final(self).wf(),
            !is_subscribed(final(self)@, kind, name@),
            is_subscribed(old(self)@, kind, name@) ==> final(self)@ == old(self)@.remove(
                subscription_index(old(self)@, kind, name@),
            ),
            !is_subscribed(old(self)@, kind, name@) ==> final(self)@ == old(self)@,
    {
        match self.position(kind, name) {
            Some(i) => {
                let ghost before = self@;
                proof {
                    let k = subscription_index(self@, kind, name@);
                    assert(k == i as int) by {
                        if k != i as int {
                            if k < i {
                                assert(!(self@[k].kind == self@[i as int].kind && self@[k].name@ == self@[i as int].name@));
                            } else {
                                assert(!(self@[i as int].kind == self@[k].kind && self@[i as int].name@ == self@[k].name@));
                            }
                        }
                    }
                }
                self.entries.remove(i);
                proof {
                    assert forall|a: int| 0 <= a < self@.len() implies #[trigger] self@[a] == (if a < i {
                        before[a]
                    } else {
                        before[a + 1]
                    }) by {}
                    if is_subscribed(self@, kind, name@) {
                        let m = choose|m: int| 0 <= m < self@.len() && #[trigger] self@[m].kind == kind && self@[m].name@ == name@;
                        let bm = if m < i { m } else { m + 1 };
                        if bm < i {
                            assert(!(before[bm].kind == before[i as int].kind && before[bm].name@ == before[i as int].name@));
                        } else {
                            assert(!(before[i as int].kind == before[bm].kind && before[i as int].name@ == before[bm].name@));
                        }
                    }
                    assert forall|a: int, b: int| 0 <= a < b < self@.len() implies !(#[trigger] self@[a].kind
                        == #[trigger] self@[b].kind && self@[a].name@ == self@[b].name@) by {
                        let ba = if a < i { a } else { a + 1 };
                        let bb = if b < i { b } else { b + 1 };
                        assert(!(before[ba].kind == before[bb].kind && before[ba].name@ == before[bb].name@));
                    }
                }
            },
            None => {},
        }
    }

    /// Handles a subscribe request (see `subscribe`).
    pub fn apply_subscribe(&mut self, request: Subscribe<T>)
        requires
            old(self).wf(),
        ensures
            final(self).wf(),
            is_subscribed(final(self)@, request.event_kind, request.name@),
            final(self)@[subscription_index(final(self)@, request.event_kind, request.name@)].target == request.addr,
    {
        let ghost before = self@;
        let Subscribe { addr, name, event_kind } = request;
        let ghost key = name@;
        self.subscribe(event_kind, name, addr);
        proof {
            let i = if is_subscribed(before, event_kind, key) {
                subscription_index(before, event_kind, key)
            } else {
                before.len() as int
            };
            assert(self@[i].kind == event_kind && self@[i].name@ == key);
            assert(is_subscribed(self@, event_kind, key));
            let k = subscription_index(self@, event_kind, key);
            if k != i {
                if k < i {
                    assert(!(self@[k].kind == self@[i].kind && self@[k].name@ == self@[i].name@));
                } else {
                    assert(!(self@[i].kind == self@[k].kind && self@[i].name@ == self@[k].name@));
                }
            }
        }
    }

    /// Handles an unsubscribe request.
    pub fn apply_unsubscribe(&mut self, request: &UnSubscribe)
        requires
            old(self).wf(),
        ensures
            final(self).wf(),
            !is_subscribed(final(self)@, request.event_kind, request.name@),
            !is_subscribed(old(self)@, request.event_kind, request.name@) ==> final(self)@ == old(self)@,
    {
        self.unsubscribe(request.event_kind, &request.name);
    }

    /// The positions of the subscriptions to `kind`, in order: every current
    /// subscriber of the kind, each once.
    pub fn subscribers_of(&self, kind: EventKind) -> (r: Vec<usize>)
        ensures
            forall|j: int| 0 <= j < r@.len() ==> #[trigger] r@[j] < self@.len() && self@[r@[j] as int].kind == kind,
            forall|a: int, b: int| 0 <= a < b < r@.len() ==> #[trigger] r@[a] < #[trigger] r@[b],
            forall|i: int| 0 <= i < self@.len() && #[trigger] self@[i].kind == kind ==> r@.contains(i as usize),
    {
        let mut out: Vec<usize> = Vec::new();
        let mut i: usize = 0;
        while i < self.entries.len()
            invariant
                0 <= i <= self@.len(),
                self@ == self.entries@,
                forall|j: int| 0 <= j < out@.len() ==> #[trigger] out@[j] < i && self@[out@[j] as int].kind == kind,
                forall|a: int, b: int| 0 <= a < b < out@.len() ==> #[trigger] out@[a] < #[trigger] out@[b],
                forall|m: int| 0 <= m < i && #[trigger] self@[m].kind == kind ==> out@.contains(m as usize),
            decreases self@.len() - i,
        {
            if self.entries[i].kind == kind {
                let ghost before = out@;
                out.push(i);
                proof {
                    assert forall|m: int| 0 <= m < i + 1 && #[trigger] self@[m].kind == kind implies out@.contains(
                        m as usize,
                    ) by {
                        if m < i {
                            let j = choose|j: int| 0 <= j < before.len() && before[j] == m as usize;
                            assert(out@[j] == m as usize);
                        } else {
                            assert(out@[before.len() as int] == m as usize);
                        }
                    }
                }
            }
            i = i + 1;
        }
        out
    }

    /// The target of the subscription at position `i`.
    pub fn target_at(&self, i: usize) -> (r: &T)
        requires
            i < self@.len(),
        ensures
            *r == self@[i as int].target,
    {
        &self.entries[i].target
    }

    /// The subscriber name at position `i`.
    pub fn name_at(&self, i: usize) -> (r: &String)
        requires
            i < self@.len(),
        ensures
            *r == self@[i as int].name,
    {
        &self.entries[i].name
    }
}

/// What the dispatcher does with one raw frame.
pub enum FrameOutcome {
    /// The frame was dropped; the error says why.
    Dropped(DecodeError),
    /// The frame deliberately carries nothing.
    Ignored,
    /// Deliver the event to the subscriptions at these positions, in order.
    Publish(PuppetEvent, Vec<usize>),
}

/// Decodes one raw frame and picks its recipients. The registry is only read,
/// so a dropped frame leaves nothing behind for the frames after it.
pub fn handle_frame<T>(registry: &SubscriberRegistry<T>, event_type: i32, fields: RawEventFields) -> (r: FrameOutcome)
    ensures
        decoded(event_type, fields) matches Err(e) ==> r == FrameOutcome::Dropped(e),
        decoded(event_type, fields) == Ok::<Option<PuppetEvent>, DecodeError>(None) ==> r is Ignored,
        decoded(event_type, fields) matches Ok(Some(ev)) ==> r matches FrameOutcome::Publish(e2, to) && e2 == ev
            && (kind_of(ev) is None ==> to@.len() == 0) && (kind_of(ev) matches Some(k) ==> (forall|j: int|
            0 <= j < to@.len() ==> #[trigger] to@[j] < registry@.len() && registry@[to@[j] as int].kind == k)
            && (forall|i: int| 0 <= i < registry@.len() && #[trigger] registry@[i].kind == k ==> to@.contains(
            i as usize,
        ))),
{
    match decode_frame(event_type, fields) {
        Err(e) => FrameOutcome::Dropped(e),
        Ok(None) => FrameOutcome::Ignored,
        Ok(Some(ev)) => {
            let to = match ev.kind() {
                Some(k) => registry.subscribers_of(k),
                None => Vec::new(),
            };
            FrameOutcome::Publish(ev, to)
        },
    }
}

} // verus!
