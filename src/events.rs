//! The event-loop bridge: a single-slot holder for deferred engine events and
//! the work that each wake of the host main loop performs.
use vstd::prelude::*;

verus! {

/// Holds at most one event that waits for the next wake. Putting an event
/// replaces one that was not delivered yet: only the latest survives.
pub struct DeferredSlot<E> {
    pending: Option<E>,
}

impl<E> View for DeferredSlot<E> {
    type V = Option<E>;

    closed spec fn view(&self) -> Option<E> {
        self.pending
    }
}

impl<E> DeferredSlot<E> {
    /// An empty slot.
    pub fn new() -> (r: DeferredSlot<E>)
        ensures
            r@ is None,
    {
        DeferredSlot { pending: None }
    }

    /// Whether no event waits.
    pub fn is_empty(&self) -> (r: bool)
        ensures
            r == (self@ is None),
    {
        self.pending.is_none()
    }

    /// Queues `e`, dropping any event that had not been delivered yet.
    pub fn put(&mut self, e: E)
        ensures
            final(self)@ == Some(e),
    {
        self.pending = Some(e);
    }

    /// Removes and returns the waiting event, if any.
    pub fn take(&mut self) -> (r: Option<E>)
        ensures
            r == old(self)@,
            final(self)@ is None,
    {
        let r = self.pending.take();
        r
    }

    /// The work of one wake, as the batches of events to hand to the engine in
    /// order: first an empty batch, which only flushes the engine's internal
    /// queue, then the waiting event alone, if there is one. The slot is empty
    /// afterwards. Wakes may be coalesced: the flush is idempotent, so running
    /// this once for several wake requests is correct.
    pub fn wake(&mut self) -> (r: Vec<Vec<E>>)
        ensures
            final(self)@ is None,
            r@.len() == (if old(self)@ is Some { 2int } else { 1int }),
            r@[0]@ == Seq::<E>::empty(),
            forall|e: E| old(self)@ == Some(e) ==> r@[1]@ == seq![e],
    {
        let mut batches: Vec<Vec<E>> = Vec::new();
        batches.push(Vec::new());
        match self.take() {
            Some(e) => {
                let mut one: Vec<E> = Vec::new();
                one.push(e);
                batches.push(one);
            },
            None => {},
        }
        batches
    }
}

} // verus!
