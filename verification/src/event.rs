//! A broadcast wakeup primitive.
//!
//! An [`Event`] keeps a monotonically non-decreasing generation counter and a
//! set of registered waiters. [`Event::listen`] hands out a single-shot
//! [`EventListener`] that captures the generation current at creation;
//! [`Event::notify_all`] advances the generation and drains the waiter set,
//! reporting the wake handles of every waiter it woke. A listener learns of a
//! notification at its next [`EventListener::poll`]: it completes exactly when
//! the event's generation has moved past the one it captured.
//!
//! The host scheduler is deliberately kept outside: `poll` is one suspension
//! attempt, the returned wake handles are what a scheduler would use to resume
//! parked tasks, and [`EventListener::cancel`] is what dropping a pending
//! listener does — it removes the handle from the waiter set.

use vstd::prelude::*;

verus! {

/// The stages of a listener handle.
///
/// A handle starts `Created`; its first pending poll registers it in the
/// waiter set (`Registered`); a completed poll ends it (`Consumed`). The
/// delivered-but-not-yet-observed stage of the design — notified — is not a
/// stored state here: it is the condition that the event's generation has
/// moved past the one the handle captured, and the handle observes it at its
/// next poll (see [`completes`]).
#[derive(Clone, Copy, Debug, PartialEq, Eq, Structural)]
pub enum ListenerState {
    Created,
    Registered,
    Consumed,
}

/// The mathematical state of an [`Event`]: its generation, the identities in
/// its waiter set, and the next fresh identity.
#[verifier::ext_equal]
pub struct EventModel {
    pub generation: nat,
    pub waiters: Set<nat>,
    pub next_id: nat,
}

/// The mathematical state of an [`EventListener`]: its identity, the
/// generation it captured at creation, and its stage.
#[verifier::ext_equal]
pub struct ListenerModel {
    pub id: nat,
    pub gen: nat,
    pub state: ListenerState,
}

/// The set of identities a sequence of wake handles holds.
pub open spec fn id_set(s: Seq<u64>) -> Set<nat> {
    Set::new(|n: nat| exists|i: int| 0 <= i < s.len() && (#[trigger] s[i]) as nat == n)
}

/// Every identity in the waiter set was handed out before.
pub open spec fn wf_model(e: EventModel) -> bool {
    forall|n: nat| #[trigger] e.waiters.contains(n) ==> n < e.next_id
}

/// A listener handle belongs to the event's history: its identity was handed
/// out by the event, its captured generation is not in the future, and it sits
/// in the waiter set exactly while it is registered and no notification has
/// fired since it registered.
pub open spec fn valid(l: ListenerModel, e: EventModel) -> bool {
    &&& l.id < e.next_id
    &&& l.gen <= e.generation
    &&& (e.waiters.contains(l.id) <==> (l.state == ListenerState::Registered && l.gen
        == e.generation))
}

/// Whether the waiter set holds anybody to wake.
pub open spec fn has_waiters(e: EventModel) -> bool {
    exists|n: nat| e.waiters.contains(n)
}

/// What one `notify_all` does to the event: nothing when nobody is registered
/// (the fast path), otherwise it advances the generation and drains the
/// waiter set.
pub open spec fn notify_model(e: EventModel) -> EventModel {
    if has_waiters(e) {
        EventModel { generation: e.generation + 1, waiters: Set::empty(), next_id: e.next_id }
    } else {
        e
    }
}

/// Whether the next poll of the listener completes: it has not been consumed
/// and a notification has fired since it captured its generation.
pub open spec fn completes(e: EventModel, l: ListenerModel) -> bool {
    l.state != ListenerState::Consumed && e.generation > l.gen
}

/// A broadcast wakeup primitive. See the module documentation.
pub struct Event {
    /// How many draining notifications have fired.
    generation: u64,
    /// The wake handles of the registered listeners, each at most once.
    waiters: Vec<u64>,
    /// The fast-path flag: whether `waiters` is non-empty. `notify_all` reads
    /// it first and returns without touching the waiter set when it is clear.
    nonempty: bool,
    /// The next fresh listener identity.
    next_id: u64,
}

impl View for Event {
    type V = EventModel;

    closed spec fn view(&self) -> EventModel {
        EventModel {
            generation: self.generation as nat,
            waiters: id_set(self.waiters@),
            next_id: self.next_id as nat,
        }
    }
}

impl Event {
    /// The representation invariant: the waiter list holds no identity twice,
    /// only identities that were handed out, and the fast-path flag says
    /// whether the list is non-empty.
    pub closed spec fn wf(&self) -> bool {
        &&& self.nonempty == (self.waiters@.len() > 0)
        &&& (forall|i: int, j: int|
            0 <= i < j < self.waiters@.len() ==> self.waiters@[i] != self.waiters@[j])
        &&& (forall|i: int|
            0 <= i < self.waiters@.len() ==> (#[trigger] self.waiters@[i]) < self.next_id)
    }

    /// Construct an event with no waiters and generation zero.
    pub fn new() -> (e: Event)
        ensures
            e.wf(),
            wf_model(e@),
            e@.generation == 0,
            e@.waiters == Set::<nat>::empty(),
            e@.next_id == 0,
    {
        let e = Event { generation: 0, waiters: Vec::new(), nonempty: false, next_id: 0 };
        proof {
            assert(id_set(e.waiters@) =~= Set::<nat>::empty());
        }
        e
    }

    /// Produce a fresh listener for the next notification fired after this
    /// call. Returns at once: the handle is registered lazily, by its first
    /// pending poll, and captures the current generation so that a draining
    /// notification in between is not missed.
    pub fn listen(&mut self) -> (l: EventListener)
        requires
            old(self).wf(),
            old(self)@.next_id < u64::MAX,
        ensures
            final(self).wf(),
            wf_model(final(self)@),
            final(self)@.generation == old(self)@.generation,
            final(self)@.waiters == old(self)@.waiters,
            final(self)@.next_id == old(self)@.next_id + 1,
            l@.id == old(self)@.next_id,
            l@.gen == old(self)@.generation,
            l@.state == ListenerState::Created,
            valid(l@, final(self)@),
            forall|m: ListenerModel| valid(m, old(self)@) ==> valid(m, final(self)@),
    {
        let id = self.next_id;
        self.next_id = self.next_id + 1;
        let l = EventListener { id, gen: self.generation, state: ListenerState::Created };
        proof {
            assert(!id_set(self.waiters@).contains(l@.id));
        }
        l
    }

    /// Fire a notification: advance the generation, drain the waiter set,
    /// clear the fast-path flag, and report the wake handles of everybody who
    /// was registered, each exactly once. When nobody is registered, the
    /// fast-path flag is clear and the call returns at once without reading
    /// or writing the waiter set, with no observable effect.
    ///
    /// Returns promptly in every case: invoking the reported wake handles is
    /// the scheduler's business, not this function's.
    pub fn notify_all(&mut self) -> (woken: Vec<u64>)
        requires
            old(self).wf(),
            old(self)@.generation < u64::MAX,
        ensures
            final(self).wf(),
            wf_model(final(self)@),
            final(self)@ == notify_model(old(self)@),
            id_set(woken@) == old(self)@.waiters,
            forall|i: int, j: int| 0 <= i < j < woken@.len() ==> woken@[i] != woken@[j],
            !has_waiters(old(self)@) ==> final(self)@ == old(self)@ && woken@.len() == 0,
            has_waiters(old(self)@) ==> final(self)@.generation == old(self)@.generation + 1,
            forall|m: ListenerModel| valid(m, old(self)@) ==> valid(m, final(self)@),
    {
        if !self.nonempty {
            let woken: Vec<u64> = Vec::new();
            proof {
                assert(id_set(self.waiters@) =~= Set::<nat>::empty());
                assert(id_set(woken@) =~= Set::<nat>::empty());
                assert(!has_waiters(self@));
            }
            return woken;
        }
        self.generation = self.generation + 1;
        let mut woken: Vec<u64> = Vec::new();
        core::mem::swap(&mut woken, &mut self.waiters);
        self.nonempty = false;
        proof {
            assert(id_set(self.waiters@) =~= Set::<nat>::empty());
            assert(has_waiters(old(self)@)) by {
                assert(old(self)@.waiters.contains(old(self).waiters@[0] as nat));
            }
            assert(final(self)@ =~= notify_model(old(self)@));
        }
        woken
    }
}

/// A single-shot handle to one future notification of its [`Event`].
pub struct EventListener {
    /// The identity under which the handle sits in the waiter set; it doubles
    /// as the wake handle that `notify_all` reports.
    id: u64,
    /// The event generation captured when the handle was created.
    gen: u64,
    /// Where in its life the handle stands.
    state: ListenerState,
}

impl View for EventListener {
    type V = ListenerModel;

    closed spec fn view(&self) -> ListenerModel {
        ListenerModel { id: self.id as nat, gen: self.gen as nat, state: self.state }
    }
}

impl EventListener {
    /// One suspension attempt: the single step of awaiting this handle.
    ///
    /// Completes — returns true and consumes the handle — exactly when a
    /// draining notification has fired since the handle captured its
    /// generation. Otherwise the handle stays pending: a first attempt
    /// registers it in the waiter set and sets the fast-path flag, a repeated
    /// attempt merely refreshes its wake handle. Re-polling is idempotent; a
    /// consumed handle must not be polled again.
    pub fn poll(&mut self, event: &mut Event) -> (ready: bool)
        requires
            old(event).wf(),
            valid(old(self)@, old(event)@),
            old(self)@.state != ListenerState::Consumed,
        ensures
            final(event).wf(),
            wf_model(final(event)@),
            final(event)@.generation == old(event)@.generation,
            final(event)@.next_id == old(event)@.next_id,
            final(self)@.id == old(self)@.id,
            final(self)@.gen == old(self)@.gen,
            ready == completes(old(event)@, old(self)@),
            ready ==> final(self)@.state == ListenerState::Consumed && final(event)@.waiters
                == old(event)@.waiters,
            !ready ==> final(self)@.state == ListenerState::Registered && final(event)@.waiters
                == old(event)@.waiters.insert(old(self)@.id),
            valid(final(self)@, final(event)@),
            forall|m: ListenerModel|
                valid(m, old(event)@) && m.id != old(self)@.id ==> valid(m, final(event)@),
    {
        if event.generation > self.gen {
            // A notification has fired since this handle was created: deliver
            // it and consume the handle. If the handle was registered, the
            // firing already drained it from the waiter set.
            self.state = ListenerState::Consumed;
            true
        } else if matches!(self.state, ListenerState::Created) {
            // First pending attempt: register in the waiter set and set the
            // fast-path flag.
            event.waiters.push(self.id);
            event.nonempty = true;
            self.state = ListenerState::Registered;
            proof {
                let s = old(event).waiters@;
                let t = event.waiters@;
                assert(t == s.push(old(self).id));
                assert forall|i: int| 0 <= i < s.len() implies s[i] != old(self).id by {
                    if s[i] == old(self).id {
                        assert(id_set(s).contains(old(self)@.id));
                    }
                }
                assert forall|n: nat|
                    id_set(t).contains(n) <==> id_set(s).insert(old(self)@.id).contains(
                        n,
                    ) by {
                    if id_set(t).contains(n) {
                        let i = choose|i: int| 0 <= i < t.len() && (#[trigger] t[i]) as nat == n;
                        if i < s.len() {
                            assert(s[i] as nat == n);
                            assert(id_set(s).contains(n));
                        } else {
                            assert(n == old(self)@.id);
                        }
                    }
                    if id_set(s).insert(old(self)@.id).contains(n) {
                        if id_set(s).contains(n) {
                            let i = choose|i: int|
                                0 <= i < s.len() && (#[trigger] s[i]) as nat == n;
                            assert(t[i] as nat == n);
                            assert(id_set(t).contains(n));
                        } else {
                            assert(t[s.len() as int] as nat == n);
                            assert(id_set(t).contains(n));
                        }
                    }
                }
                assert(id_set(t) =~= id_set(s).insert(old(self)@.id));
            }
            false
        } else {
            // Already registered and nothing fired yet: a real scheduler
            // would refresh the stored wake handle here; the handle itself is
            // the wake handle, so there is nothing to store.
            proof {
                assert(old(event)@.waiters.insert(old(self)@.id) =~= old(event)@.waiters);
            }
            false
        }
    }

    /// Give the handle up without completing it: what dropping a pending
    /// listener does. Removes the handle from the waiter set, restores the
    /// fast-path flag, and releases the handle, so that no later notification
    /// spends a wake on it.
    pub fn cancel(self, event: &mut Event)
        requires
            old(event).wf(),
            valid(self@, old(event)@),
        ensures
            final(event).wf(),
            wf_model(final(event)@),
            final(event)@.generation == old(event)@.generation,
            final(event)@.next_id == old(event)@.next_id,
            final(event)@.waiters == old(event)@.waiters.remove(self@.id),
            !final(event)@.waiters.contains(self@.id),
            forall|m: ListenerModel|
                valid(m, old(event)@) && m.id != self@.id ==> valid(m, final(event)@),
    {
        let ghost s = event.waiters@;
        let n = event.waiters.len();
        let mut i: usize = 0;
        while i < n
            invariant
                old(event).wf(),
                *event == *old(event),
                s == event.waiters@,
                n == s.len(),
                i <= n,
                forall|j: int| 0 <= j < i ==> s[j] != self.id,
            decreases n - i,
        {
            if event.waiters[i] == self.id {
                let _removed: u64 = event.waiters.swap_remove(i);
                event.nonempty = event.waiters.len() > 0;
                proof {
                    let t = event.waiters@;
                    assert(t == s.update(i as int, s.last()).drop_last());
                    assert forall|n2: nat|
                        id_set(t).contains(n2) <==> (id_set(s).remove(self@.id).contains(
                            n2,
                        )) by {
                        if id_set(t).contains(n2) {
                            let j = choose|j: int|
                                0 <= j < t.len() && (#[trigger] t[j]) as nat == n2;
                            if j == i {
                                assert(s[s.len() - 1] as nat == n2);
                            } else {
                                assert(s[j] as nat == n2);
                            }
                            assert(id_set(s).contains(n2));
                            assert(n2 != self@.id);
                        }
                        if id_set(s).remove(self@.id).contains(n2) {
                            let k = choose|k: int|
                                0 <= k < s.len() && (#[trigger] s[k]) as nat == n2;
                            assert(k != i);
                            if k < s.len() - 1 {
                                assert(t[k] as nat == n2);
                            } else {
                                assert(i < s.len() - 1);
                                assert(t[i as int] as nat == n2);
                            }
                            assert(id_set(t).contains(n2));
                        }
                    }
                    assert(id_set(t) =~= id_set(s).remove(self@.id));
                }
                return ;
            }
            i += 1;
        }
        proof {
            assert(!id_set(s).contains(self@.id)) by {
                if id_set(s).contains(self@.id) {
                    let j = choose|j: int|
                        0 <= j < s.len() && (#[trigger] s[j]) as nat == self@.id;
                    assert(s[j] == self.id);
                }
            }
            assert(id_set(s).remove(self@.id) =~= id_set(s));
        }
    }
}

/// Delivery: a listener that is registered when a notification fires
/// completes afterwards — its next poll returns ready.
pub proof fn lemma_delivery(e: EventModel, l: ListenerModel)
    requires
        valid(l, e),
        l.state == ListenerState::Registered,
    ensures
        completes(notify_model(e), l),
{
    if e.waiters.contains(l.id) {
        assert(has_waiters(e));
    }
}

/// No spurious early delivery: while no notification has fired since a
/// listener captured its generation, the listener does not complete.
pub proof fn lemma_no_spurious(e: EventModel, l: ListenerModel)
    requires
        valid(l, e),
        l.gen == e.generation,
    ensures
        !completes(e, l),
{
}

/// Single shot: a consumed listener never completes again, whatever further
/// notifications fire.
pub proof fn lemma_single_shot(e: EventModel, l: ListenerModel)
    requires
        l.state == ListenerState::Consumed,
    ensures
        !completes(e, l),
        !completes(notify_model(e), l),
{
}

/// Fast path: a notification with nobody registered changes nothing about
/// the event.
pub proof fn lemma_fast_path(e: EventModel)
    requires
        !has_waiters(e),
    ensures
        notify_model(e) == e,
{
}

} // verus!
