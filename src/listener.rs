use vstd::prelude::*;

use crate::events::EventKind;

verus! {

/// The call budget of one registered handler: `None` is unbounded.
#[derive(Clone, Copy, Debug, PartialEq, Eq, Structural)]
pub struct HandlerSlot {
    pub kind: EventKind,
    pub remaining: Option<usize>,
}

/// The handler in `s` runs on an event of kind `k`: it handles that kind and
/// has calls left.
pub open spec fn will_fire(s: HandlerSlot, k: EventKind) -> bool {
    s.kind == k && (s.remaining matches Some(n) ==> n > 0)
}

/// The slot after an event of kind `k`: a handler that runs uses up one call.
pub open spec fn after_fire(s: HandlerSlot, k: EventKind) -> HandlerSlot {
    if will_fire(s, k) {
        match s.remaining {
            Some(n) => HandlerSlot { kind: s.kind, remaining: Some((n - 1) as usize) },
            None => s,
        }
    } else {
        s
    }
}

/// How many handlers of kind `k` the slots hold.
pub open spec fn kind_count(slots: Seq<HandlerSlot>, k: EventKind) -> nat
    decreases slots.len(),
{
    if slots.len() == 0 {
        0
    } else {
        kind_count(slots.drop_last(), k) + if slots.last().kind == k {
            1nat
        } else {
            0nat
        }
    }
}

/// How many of `m` successive events of kind `k` run the handler in `s`.
pub open spec fn fire_count(s: HandlerSlot, k: EventKind, m: nat) -> nat
    decreases m,
{
    if m == 0 {
        0
    } else {
        (if will_fire(s, k) {
            1nat
        } else {
            0nat
        }) + fire_count(after_fire(s, k), k, (m - 1) as nat)
    }
}

/// The handlers one listening component has registered, in registration order,
/// each with its remaining call budget. Handlers are never removed.
pub struct ListenerRegistry {
    name: String,
    slots: Vec<HandlerSlot>,
}

impl View for ListenerRegistry {
    type V = Seq<HandlerSlot>;

    closed spec fn view(&self) -> Seq<HandlerSlot> {
        self.slots@
    }
}

impl ListenerRegistry {
    /// The component's name.
    pub closed spec fn spec_name(&self) -> Seq<char> {
        self.name@
    }

    /// A registry with no handlers for the component called `name`.
    pub fn new(name: String) -> (r: ListenerRegistry)
        ensures
            r@ == Seq::<HandlerSlot>::empty(),
            r.spec_name() == name@,
    {
        ListenerRegistry { name, slots: Vec::new() }
    }

    /// The component's name.
    pub fn get_name(&self) -> (r: String)
        ensures
            r@ == self.spec_name(),
    {
        self.name.clone()
    }

    /// Appends a handler for `kind` that may run `max_calls` times (`None`:
    /// without limit), and returns its index among the handlers of that kind.
    pub fn register(&mut self, kind: EventKind, max_calls: Option<usize>) -> (r: usize)
        ensures
            final(self)@ == old(self)@.push(HandlerSlot { kind, remaining: max_calls }),
            final(self).spec_name() == old(self).spec_name(),
            r == kind_count(old(self)@, kind),
    {
        let mut count: usize = 0;
        let mut i: usize = 0;
        while i < self.slots.len()
            invariant
                0 <= i <= self@.len(),
                self@ == self.slots@,
                count == kind_count(self@.subrange(0, i as int), kind),
                count <= i,
            decreases self@.len() - i,
        {
            assert(self@.subrange(0, i + 1).drop_last() == self@.subrange(0, i as int));
            if self.slots[i].kind == kind {
                count = count + 1;
            }
            i = i + 1;
        }
        assert(self@.subrange(0, self@.len() as int) == self@);
        self.slots.push(HandlerSlot { kind, remaining: max_calls });
        count
    }

    /// Takes one event of `kind`: returns, in registration order, the positions
    /// of the handlers to run (those of that kind with calls left), and uses up
    /// one call of each. Handlers without calls left are skipped, not removed.
    pub fn fire(&mut self, kind: EventKind) -> (r: Vec<usize>)
        ensures
            final(self).spec_name() == old(self).spec_name(),
            final(self)@.len() == old(self)@.len(),
            forall|i: int| 0 <= i < old(self)@.len() ==> #[trigger] final(self)@[i] == after_fire(old(self)@[i], kind),
            forall|j: int| 0 <= j < r@.len() ==> #[trigger] r@[j] < old(self)@.len() && will_fire(
                old(self)@[r@[j] as int],
                kind,
            ),
            forall|a: int, b: int| 0 <= a < b < r@.len() ==> #[trigger] r@[a] < #[trigger] r@[b],
            forall|i: int| 0 <= i < old(self)@.len() && #[trigger] will_fire(old(self)@[i], kind) ==> r@.contains(
                i as usize,
            ),
    {
        let ghost start = self@;
        let mut out: Vec<usize> = Vec::new();
        let mut i: usize = 0;
        while i < self.slots.len()
            invariant
                0 <= i <= self@.len(),
                self@ == self.slots@,
                self.spec_name() == old(self).spec_name(),
                self@.len() == start.len(),
                forall|m: int| 0 <= m < i ==> #[trigger] self@[m] == after_fire(start[m], kind),
                forall|m: int| i <= m < self@.len() ==> #[trigger] self@[m] == start[m],
                forall|j: int| 0 <= j < out@.len() ==> #[trigger] out@[j] < i && will_fire(start[out@[j] as int], kind),
                forall|a: int, b: int| 0 <= a < b < out@.len() ==> #[trigger] out@[a] < #[trigger] out@[b],
                forall|m: int| 0 <= m < i && #[trigger] will_fire(start[m], kind) ==> out@.contains(m as usize),
            decreases self@.len() - i,
        {
            let slot = self.slots[i];
            let fires = slot.kind == kind && match slot.remaining {
                Some(n) => n > 0,
                None => true,
            };
            if fires {
                let ghost before = out@;
                out.push(i);
                match slot.remaining {
                    Some(n) => {
                        self.slots.set(i, HandlerSlot { kind: slot.kind, remaining: Some(n - 1) });
                    },
                    None => {},
                }
                proof {
                    assert forall|m: int| 0 <= m < i + 1 && #[trigger] will_fire(start[m], kind) implies out@.contains(
                        m as usize,
                    ) by {
                        if m < i {
                            let j = choose|j: int| 0 <= j < before.len() && before[j] == m as usize;
                            assert(out@[j] == m as usize);
                        } else {
                            assert(out@[before.len() as int] == m as usize);
                        }
                    }
                }
            }
            i = i + 1;
        }
        out
    }
}

/// A handler registered with a budget of `n` calls runs on exactly the first
/// `n` of the events of its kind and on none after; an unbounded handler runs
/// on every one.
pub proof fn lemma_call_limit(k: EventKind, n: usize, m: nat)
    ensures
        fire_count(HandlerSlot { kind: k, remaining: Some(n) }, k, m) == if m < n {
            m
        } else {
            n as nat
        },
        fire_count(HandlerSlot { kind: k, remaining: None }, k, m) == m,
    decreases m,
{
    if m > 0 {
        if n == 0 {
            lemma_spent_handler_never_runs(k, m);
        } else {
            lemma_call_limit(k, (n - 1) as usize, (m - 1) as nat);
        }
        lemma_call_limit(k, n, (m - 1) as nat);
    }
}

/// A handler with no calls left never runs again.
pub proof fn lemma_spent_handler_never_runs(k: EventKind, m: nat)
    ensures
        fire_count(HandlerSlot { kind: k, remaining: Some(0) }, k, m) == 0,
    decreases m,
{
    if m > 0 {
        lemma_spent_handler_never_runs(k, (m - 1) as nat);
    }
}

} // verus!
