//! The [`ChangeNotifier`] type: a value whose every update fires an event.
//!
//! A [`ChangeNotifier`] owns a payload and an embedded [`Event`]. Mutators go
//! through [`ChangeNotifier::update`], which runs a caller-supplied closure on
//! the payload and then fires the event, so that every listener registered
//! before the call wakes and re-reads the payload — and what it reads is the
//! state the closure left behind. Notification is edge-triggered on the call:
//! it fires whether or not the closure changed anything, and no value
//! comparison is ever made.

use vstd::prelude::*;

use crate::event::Event;
use crate::event::EventListener;
use crate::event::EventModel;
use crate::event::ListenerModel;
use crate::event::ListenerState;
use crate::event::notify_model;
use crate::event::valid;
use crate::event::wf_model;

verus! {

/// A wrapper type for subscribing to changes of the inner value.
pub struct ChangeNotifier<T> {
    inner: T,
    event: Event,
}

impl<T> ChangeNotifier<T> {
    /// The current payload.
    pub closed spec fn value(&self) -> T {
        self.inner
    }

    /// The mathematical state of the embedded event.
    pub closed spec fn event_model(&self) -> EventModel {
        self.event@
    }

    /// The representation invariant, carried by every operation.
    pub closed spec fn wf(&self) -> bool {
        self.event.wf()
    }

    /// Create a new [`ChangeNotifier`] wrapping the given data, with a fresh
    /// event that nobody listens to yet.
    pub fn new(data: T) -> (n: Self)
        ensures
            n.wf(),
            wf_model(n.event_model()),
            n.value() == data,
            n.event_model().generation == 0,
            n.event_model().waiters == Set::<nat>::empty(),
            n.event_model().next_id == 0,
    {
        ChangeNotifier { inner: data, event: Event::new() }
    }

    /// Read-only access to the payload. Never locks, never suspends, and does
    /// not interact with listeners.
    pub fn get(&self) -> (r: &T)
        ensures
            *r == self.value(),
    {
        &self.inner
    }

    /// Update the inner data by passing a closure to do the mutation, then
    /// fire the embedded event and hand back the closure's return value.
    ///
    /// Listeners are notified only by a call to this function, and they are
    /// notified on every call, whether or not the closure really changed the
    /// inner data. The notification strictly follows the closure's return: a
    /// listener that wakes and reads the payload sees the state the closure
    /// produced.
    pub fn update<R, F: FnOnce(&mut T) -> R>(&mut self, apply_update: F) -> (ret: R)
        requires
            old(self).wf(),
            old(self).event_model().generation < u64::MAX,
            forall|m: &mut T|
                mut_ref_current(m) == old(self).value() ==> call_requires(apply_update, (m,)),
        ensures
            final(self).wf(),
            wf_model(final(self).event_model()),
            exists|m: &mut T|
                mut_ref_current(m) == old(self).value()
                && mut_ref_future(m) == final(self).value()
                && call_ensures(apply_update, (m,), ret),
            final(self).event_model() == notify_model(old(self).event_model()),
            forall|m: ListenerModel|
                valid(m, old(self).event_model()) ==> valid(m, final(self).event_model()),
    {
        // Apply the update to the inner type.
        let ret = apply_update(&mut self.inner);

        // Notify all listeners of the change; invoking the reported wake
        // handles is the host scheduler's business.
        let _woken: Vec<u64> = self.event.notify_all();

        // Return the return value of the apply update function.
        ret
    }

    /// Get an event listener for the next update of the inner data.
    pub fn listen(&mut self) -> (l: EventListener)
        requires
            old(self).wf(),
            old(self).event_model().next_id < u64::MAX,
        ensures
            final(self).wf(),
            wf_model(final(self).event_model()),
            final(self).value() == old(self).value(),
            final(self).event_model().generation == old(self).event_model().generation,
            final(self).event_model().waiters == old(self).event_model().waiters,
            final(self).event_model().next_id == old(self).event_model().next_id + 1,
            l@.id == old(self).event_model().next_id,
            l@.gen == old(self).event_model().generation,
            l@.state == ListenerState::Created,
            valid(l@, final(self).event_model()),
            forall|m: ListenerModel|
                valid(m, old(self).event_model()) ==> valid(m, final(self).event_model()),
    {
        self.event.listen()
    }

    /// One suspension attempt on a listener of this notifier's event: see
    /// [`EventListener::poll`].
    pub fn poll(&mut self, l: &mut EventListener) -> (ready: bool)
        requires
            old(self).wf(),
            valid(old(l)@, old(self).event_model()),
            old(l)@.state != ListenerState::Consumed,
        ensures
            final(self).wf(),
            wf_model(final(self).event_model()),
            final(self).value() == old(self).value(),
            final(self).event_model().generation == old(self).event_model().generation,
            final(self).event_model().next_id == old(self).event_model().next_id,
            final(l)@.id == old(l)@.id,
            final(l)@.gen == old(l)@.gen,
            ready == crate::event::completes(old(self).event_model(), old(l)@),
            ready ==> final(l)@.state == ListenerState::Consumed
                && final(self).event_model().waiters == old(self).event_model().waiters,
            !ready ==> final(l)@.state == ListenerState::Registered
                && final(self).event_model().waiters == old(self).event_model().waiters.insert(
                old(l)@.id,
            ),
            valid(final(l)@, final(self).event_model()),
            forall|m: ListenerModel|
                valid(m, old(self).event_model()) && m.id != old(l)@.id ==> valid(
                    m,
                    final(self).event_model(),
                ),
    {
        l.poll(&mut self.event)
    }

    /// Give a pending listener of this notifier's event up: see
    /// [`EventListener::cancel`].
    pub fn cancel(&mut self, l: EventListener)
        requires
            old(self).wf(),
            valid(l@, old(self).event_model()),
        ensures
            final(self).wf(),
            wf_model(final(self).event_model()),
            final(self).value() == old(self).value(),
            final(self).event_model().generation == old(self).event_model().generation,
            final(self).event_model().next_id == old(self).event_model().next_id,
            final(self).event_model().waiters == old(self).event_model().waiters.remove(l@.id),
            !final(self).event_model().waiters.contains(l@.id),
            forall|m: ListenerModel|
                valid(m, old(self).event_model()) && m.id != l@.id ==> valid(
                    m,
                    final(self).event_model(),
                ),
    {
        l.cancel(&mut self.event)
    }
}

impl<T: Clone> Clone for ChangeNotifier<T> {
    /// Clone the payload into a new notifier with a fresh event of its own:
    /// listeners of the clone see only the clone's updates, and listeners of
    /// the original see only the original's.
    fn clone(&self) -> (r: Self)
        ensures
            r.wf(),
            wf_model(r.event_model()),
            cloned::<T>(self.value(), r.value()),
            r.event_model().generation == 0,
            r.event_model().waiters == Set::<nat>::empty(),
            r.event_model().next_id == 0,
    {
        ChangeNotifier { inner: self.inner.clone(), event: Event::new() }
    }
}

/// Happens-before: an update wakes every listener that was registered in the
/// waiter set when its notification fired, and the payload a woken listener
/// then reads is the one the update closure left behind — [`ChangeNotifier::update`]
/// fires the event only after the closure has returned and ensures that the
/// stored payload is the closure's output, and [`ChangeNotifier::get`] hands
/// that payload back unchanged.
pub proof fn lemma_update_happens_before(e: EventModel, l: ListenerModel)
    requires
        valid(l, e),
        l.state == ListenerState::Registered,
    ensures
        crate::event::completes(notify_model(e), l),
{
    crate::event::lemma_delivery(e, l);
}

} // verus!
