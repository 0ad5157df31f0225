use vstd::prelude::*;
use vstd::string::*;

use crate::clock::{new_event_id, now_millis};
use crate::window_tracker::WindowInfo;

verus! {

/// An observation waiting in the queue.
#[derive(Debug, Clone)]
pub struct QueuedEvent {
    pub id: String,
    pub window_info: WindowInfo,
    /// Milliseconds since the Unix epoch at admission.
    pub queued_at: i64,
    pub retry_count: u32,
}

impl QueuedEvent {
    /// A field-by-field copy.
    pub fn duplicate(&self) -> (r: QueuedEvent)
        ensures
            r == *self,
    {
        QueuedEvent {
            id: self.id.clone(),
            window_info: self.window_info.duplicate(),
            queued_at: self.queued_at,
            retry_count: self.retry_count,
        }
    }
}

/// Why an event was not admitted.
#[derive(Debug, Clone, Copy, PartialEq, Eq)]
pub enum QueueError {
    /// Every admission permit is held: wait for a drain.
    Full,
}

/// The queue after admitting `ev`, or `None` when no permit is free.
pub open spec fn accept(contents: Seq<QueuedEvent>, capacity: nat, ev: QueuedEvent) -> Option<Seq<QueuedEvent>> {
    if contents.len() < capacity {
        Some(contents.push(ev))
    } else {
        None
    }
}

/// The queue after admitting each of `evs` in turn, or `None` if one of them
/// finds no free permit.
pub open spec fn accept_all(contents: Seq<QueuedEvent>, capacity: nat, evs: Seq<QueuedEvent>) -> Option<
    Seq<QueuedEvent>,
>
    decreases evs.len(),
{
    if evs.len() == 0 {
        Some(contents)
    } else {
        match accept_all(contents, capacity, evs.drop_last()) {
            Some(c) => accept(c, capacity, evs.last()),
            None => None,
        }
    }
}

/// A fixed-capacity, order-keeping holding area for observations. Each
/// resident event holds one of `capacity` admission permits.
pub struct EventQueue {
    events: Vec<QueuedEvent>,
    max_size: usize,
}

impl EventQueue {
    /// The resident events, oldest first.
    pub closed spec fn contents(&self) -> Seq<QueuedEvent> {
        self.events@
    }

    pub closed spec fn capacity(&self) -> nat {
        self.max_size as nat
    }

    pub open spec fn wf(&self) -> bool {
        self.contents().len() <= self.capacity()
    }

    pub fn new(max_size: usize) -> (r: EventQueue)
        ensures
            r.wf(),
            r.contents() == Seq::<QueuedEvent>::empty(),
            r.capacity() == max_size,
    {
        EventQueue { events: Vec::new(), max_size }
    }

    /// The number of admission permits.
    pub fn max_size(&self) -> (r: usize)
        ensures
            r == self.capacity(),
    {
        self.max_size
    }

    /// Admits an observation when a permit is free: it gets a fresh
    /// identifier, the current time and no retries, and goes to the tail.
    /// With every permit held nothing changes and the caller must wait for a
    /// drain.
    pub fn enqueue(&mut self, window_info: WindowInfo) -> (r: Result<(), QueueError>)
        requires
            old(self).wf(),
        ensures
            final(self).wf(),
            final(self).capacity() == old(self).capacity(),
            r is Err <==> old(self).contents().len() >= old(self).capacity(),
            r is Err ==> final(self).contents() == old(self).contents(),
            r is Ok ==> exists|ev: QueuedEvent|
                #![trigger accept(old(self).contents(), old(self).capacity(), ev)]
                ev.window_info == window_info && ev.retry_count == 0 && ev.id@.len() == 36 && accept(
                    old(self).contents(),
                    old(self).capacity(),
                    ev,
                ) == Some(final(self).contents()),
    {
        if self.events.len() >= self.max_size {
            return Err(QueueError::Full);
        }
        let ev = QueuedEvent { id: new_event_id(), window_info, queued_at: now_millis(), retry_count: 0 };
        self.events.push(ev);
        assert(accept(old(self).contents(), old(self).capacity(), ev) == Some(self.contents()));
        Ok(())
    }

    /// Removes and returns every resident event, oldest first, freeing their
    /// permits.
    pub fn drain(&mut self) -> (r: Vec<QueuedEvent>)
        requires
            old(self).wf(),
        ensures
            final(self).wf(),
            r@ == old(self).contents(),
            final(self).contents() == Seq::<QueuedEvent>::empty(),
            final(self).capacity() == old(self).capacity(),
    {
        let mut drained: Vec<QueuedEvent> = Vec::new();
        std::mem::swap(&mut drained, &mut self.events);
        drained
    }

    pub fn len(&self) -> (r: usize)
        ensures
            r == self.contents().len(),
    {
        self.events.len()
    }

    pub fn is_empty(&self) -> (r: bool)
        ensures
            r == (self.contents().len() == 0),
    {
        self.events.len() == 0
    }

    /// The first resident event with identifier `id`, if any.
    pub fn get_event(&self, id: &str) -> (r: Option<QueuedEvent>)
        ensures
            r is None <==> forall|i: int| 0 <= i < self.contents().len() ==> (#[trigger] self.contents()[i]).id@ != id@,
            r matches Some(e) ==> exists|i: int|
                0 <= i < self.contents().len() && e == #[trigger] self.contents()[i] && e.id@ == id@,
    {
        let target = String::from_str(id);
        let mut i: usize = 0;
        while i < self.events.len()
            invariant
                target@ == id@,
                i <= self.events@.len(),
                forall|j: int| 0 <= j < i ==> (#[trigger] self.events@[j]).id@ != id@,
            decreases self.events@.len() - i,
        {
            if self.events[i].id == target {
                let e = self.events[i].duplicate();
                assert(e == self.contents()[i as int] && e.id@ == id@);
                return Some(e);
            }
            i += 1;
        }
        None
    }
}

/// Filling an empty queue of capacity `C` with `C` events accepts every one
/// of them, in order; the next one finds no permit until a drain empties
/// the queue, after which it is admitted.
pub proof fn lemma_fill_then_drain(capacity: nat, evs: Seq<QueuedEvent>, next: QueuedEvent)
    requires
        evs.len() == capacity,
    ensures
        accept_all(Seq::empty(), capacity, evs) == Some(evs),
        accept(evs, capacity, next) is None,
        capacity > 0 ==> accept(Seq::empty(), capacity, next) == Some(seq![next]),
{
    lemma_accept_prefix(capacity, evs, evs.len());
    assert(evs.take(evs.len() as int) =~= evs);
    assert(Seq::<QueuedEvent>::empty().push(next) =~= seq![next]);
}

/// Any prefix of at most `capacity` events is accepted whole.
proof fn lemma_accept_prefix(capacity: nat, evs: Seq<QueuedEvent>, k: nat)
    requires
        k <= evs.len(),
        k <= capacity,
    ensures
        accept_all(Seq::empty(), capacity, evs.take(k as int)) == Some(evs.take(k as int)),
    decreases k,
{
    if k > 0 {
        lemma_accept_prefix(capacity, evs, (k - 1) as nat);
        let p = evs.take(k as int);
        assert(p.drop_last() =~= evs.take(k - 1));
        assert(evs.take(k - 1).push(p.last()) =~= p);
    } else {
        assert(evs.take(0) =~= Seq::<QueuedEvent>::empty());
    }
}

} // verus!
