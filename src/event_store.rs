use vstd::prelude::*;

use crate::error::Error;
use crate::event_batch::EventBatch;
use crate::payload::Payload;

verus! {

/// Capacity of the queue of a default store.
pub const DEFAULT_EVENT_STORE_CAPACITY: usize = 10_000;

/// Batch size of a default store.
pub const DEFAULT_BATCH_SIZE: usize = 50;

/// Message of the error returned when the queue is at capacity.
pub const STORE_FULL_MESSAGE: &'static str = "Event store is full";

/// Message of the error returned when a batch is asked of an empty queue.
pub const STORE_EMPTY_MESSAGE: &'static str = "Event store is empty";

/// Message of the error returned when the queue holds less than a full batch.
pub const NOT_ENOUGH_FOR_FULL_BATCH_MESSAGE: &'static str =
    "Failed to get batch: Not enough events in the event store for a full batch";

/// Message of the error returned when a batch larger than the queue is asked for.
pub const BATCH_LARGER_THAN_QUEUE_MESSAGE: &'static str =
    "Requested batch size is greater than queue length";

/// Message of the error returned when a batch of no events is asked for.
pub const NO_EVENTS_MESSAGE: &'static str = "No events to send";

/// `e` is an event store error with message `msg`.
pub open spec fn is_store_error(e: Error, msg: Seq<char>) -> bool {
    e matches Error::EventStoreError(m) && m@ == msg
}

pub(crate) fn store_error(msg: &str) -> (e: Error)
    ensures
        is_store_error(e, msg@),
{
    Error::EventStoreError(msg.to_owned())
}

/// A queue of payloads with a fixed maximum length: adding to a full queue
/// is an error.
pub struct InMemoryEventStoreQueue {
    queue: Vec<Payload>,
    capacity: usize,
}

impl InMemoryEventStoreQueue {
    /// The queued payloads, oldest first.
    pub closed spec fn events(&self) -> Seq<Payload> {
        self.queue@
    }

    /// The maximum number of queued payloads.
    pub closed spec fn max_len(&self) -> nat {
        self.capacity as nat
    }

    pub open spec fn well_formed(&self) -> bool {
        self.events().len() <= self.max_len()
    }

    /// An empty queue that holds at most `capacity` payloads.
    pub fn new(capacity: usize) -> (r: InMemoryEventStoreQueue)
        ensures
            r.well_formed(),
            r.events() == Seq::<Payload>::empty(),
            r.max_len() == capacity,
    {
        InMemoryEventStoreQueue { queue: Vec::with_capacity(capacity), capacity }
    }

    /// Adds a payload at the back of the queue; fails iff the queue is full.
    pub fn push(&mut self, payload: Payload) -> (r: Result<(), Error>)
        requires
            old(self).well_formed(),
        ensures
            final(self).well_formed(),
            final(self).max_len() == old(self).max_len(),
            r is Ok <==> old(self).events().len() < old(self).max_len(),
            r is Ok ==> final(self).events() == old(self).events().push(payload),
            r matches Err(e) ==> final(self).events() == old(self).events() && is_store_error(
                e,
                STORE_FULL_MESSAGE@,
            ),
    {
        if self.queue.len() == self.capacity {
            return Err(store_error(STORE_FULL_MESSAGE));
        }
        self.queue.push(payload);
        Ok(())
    }

    /// The number of queued payloads.
    pub fn len(&self) -> (r: usize)
        ensures
            r == self.events().len(),
    {
        self.queue.len()
    }

    /// The maximum number of queued payloads.
    pub fn capacity(&self) -> (r: usize)
        ensures
            r == self.max_len(),
    {
        self.capacity
    }

    /// Removes the `n` oldest payloads and returns them, oldest first.
    fn take_front(&mut self, n: usize) -> (r: Vec<Payload>)
        requires
            old(self).well_formed(),
            n <= old(self).events().len(),
        ensures
            final(self).well_formed(),
            final(self).max_len() == old(self).max_len(),
            r@ == old(self).events().subrange(0, n as int),
            final(self).events() == old(self).events().subrange(
                n as int,
                old(self).events().len() as int,
            ),
    {
        let mut front = self.queue.split_off(n);
        std::mem::swap(&mut self.queue, &mut front);
        front
    }
}

/// An event store that queues events in memory, up to a fixed capacity,
/// and hands them out in batches of a configured size.
pub struct InMemoryEventStore {
    event_queue: InMemoryEventStoreQueue,
    batch_size: usize,
}

impl InMemoryEventStore {
    /// The queued events, oldest first.
    pub closed spec fn events(&self) -> Seq<Payload> {
        self.event_queue.events()
    }

    /// The maximum number of queued events.
    pub closed spec fn max_len(&self) -> nat {
        self.event_queue.max_len()
    }

    /// The number of events in a full batch.
    pub closed spec fn full_batch_size(&self) -> nat {
        self.batch_size as nat
    }

    pub open spec fn well_formed(&self) -> bool {
        self.events().len() <= self.max_len()
    }

    /// The batch taken from the front of the queue: `b` holds the first `n`
    /// events of `q` in order, carries the id of the first, and is fresh.
    pub open spec fn is_front_batch(b: EventBatch, q: Seq<Payload>, n: nat) -> bool {
        &&& 0 < n <= q.len()
        &&& b.events@ == q.subrange(0, n as int)
        &&& b.id == q[0].eid
        &&& b.delay is None
        &&& b.retry_attempts == 0
    }

    /// `self` is `old` with the `n` oldest events removed.
    pub open spec fn removed_front(self, old: InMemoryEventStore, n: nat) -> bool {
        &&& self.well_formed()
        &&& self.max_len() == old.max_len()
        &&& self.full_batch_size() == old.full_batch_size()
        &&& self.events() == old.events().subrange(n as int, old.events().len() as int)
    }

    /// `self` is `old`, unchanged.
    pub open spec fn unchanged_from(self, old: InMemoryEventStore) -> bool {
        &&& self.well_formed()
        &&& self.max_len() == old.max_len()
        &&& self.full_batch_size() == old.full_batch_size()
        &&& self.events() == old.events()
    }

    /// An empty store with a queue of `queue_capacity` events and batches of
    /// `batch_size` events.
    pub fn new(queue_capacity: usize, batch_size: usize) -> (r: InMemoryEventStore)
        ensures
            r.well_formed(),
            r.events() == Seq::<Payload>::empty(),
            r.max_len() == queue_capacity,
            r.full_batch_size() == batch_size,
    {
        InMemoryEventStore { event_queue: InMemoryEventStoreQueue::new(queue_capacity), batch_size }
    }

    /// Adds an event at the back of the queue; fails iff the queue is at capacity.
    pub fn add(&mut self, event: Payload) -> (r: Result<(), Error>)
        requires
            old(self).well_formed(),
        ensures
            final(self).well_formed(),
            final(self).max_len() == old(self).max_len(),
            final(self).full_batch_size() == old(self).full_batch_size(),
            r is Ok <==> old(self).events().len() < old(self).max_len(),
            r is Ok ==> final(self).events() == old(self).events().push(event),
            r matches Err(e) ==> final(self).events() == old(self).events() && is_store_error(
                e,
                STORE_FULL_MESSAGE@,
            ),
    {
        self.event_queue.push(event)
    }

    /// The number of events currently queued.
    pub fn len(&self) -> (r: usize)
        ensures
            r == self.events().len(),
    {
        self.event_queue.len()
    }

    /// The maximum number of events that can be queued.
    pub fn capacity(&self) -> (r: usize)
        ensures
            r == self.max_len(),
    {
        self.event_queue.capacity()
    }

    /// The number of events in a full batch.
    pub fn batch_size(&self) -> (r: usize)
        ensures
            r == self.full_batch_size(),
    {
        self.batch_size
    }

    /// Moves the `size` oldest events into a new batch, named after the
    /// first of them.
    fn event_batch(&mut self, size: usize) -> (r: EventBatch)
        requires
            old(self).well_formed(),
            0 < size <= old(self).events().len(),
        ensures
            Self::is_front_batch(r, old(self).events(), size as nat),
            final(self).removed_front(*old(self), size as nat),
    {
        let events = self.event_queue.take_front(size);
        let first_event_id = events[0].eid;
        EventBatch::new(first_event_id, events)
    }

    /// Removes and returns the `batch_size` oldest events as a batch; fails,
    /// leaving the store as it was, when fewer are queued (or the batch size
    /// is zero).
    pub fn full_batch(&mut self) -> (r: Result<EventBatch, Error>)
        requires
            old(self).well_formed(),
        ensures
            r is Ok <==> 0 < old(self).full_batch_size() <= old(self).events().len(),
            r matches Ok(b) ==> Self::is_front_batch(
                b,
                old(self).events(),
                old(self).full_batch_size(),
            ) && final(self).removed_front(*old(self), old(self).full_batch_size()),
            r matches Err(e) ==> final(self).unchanged_from(*old(self)) && (if old(self).events().len()
                < old(self).full_batch_size() {
                is_store_error(e, NOT_ENOUGH_FOR_FULL_BATCH_MESSAGE@)
            } else {
                is_store_error(e, NO_EVENTS_MESSAGE@)
            }),
    {
        if self.event_queue.len() < self.batch_size {
            return Err(store_error(NOT_ENOUGH_FOR_FULL_BATCH_MESSAGE));
        }
        if self.batch_size == 0 {
            return Err(store_error(NO_EVENTS_MESSAGE));
        }
        Ok(self.event_batch(self.batch_size))
    }

    /// Removes and returns the `size` oldest events as a batch; fails,
    /// leaving the store as it was, when `size` exceeds the queue length,
    /// when the queue is empty, or when `size` is zero.
    pub fn batch_of(&mut self, size: usize) -> (r: Result<EventBatch, Error>)
        requires
            old(self).well_formed(),
        ensures
            r is Ok <==> 0 < size <= old(self).events().len(),
            r matches Ok(b) ==> Self::is_front_batch(b, old(self).events(), size as nat)
                && final(self).removed_front(*old(self), size as nat),
            r matches Err(e) ==> final(self).unchanged_from(*old(self)) && (if size
                > old(self).events().len() {
                is_store_error(e, BATCH_LARGER_THAN_QUEUE_MESSAGE@)
            } else if old(self).events().len() == 0 {
                is_store_error(e, STORE_EMPTY_MESSAGE@)
            } else {
                is_store_error(e, NO_EVENTS_MESSAGE@)
            }),
    {
        if size > self.event_queue.len() {
            return Err(store_error(BATCH_LARGER_THAN_QUEUE_MESSAGE));
        }
        if self.event_queue.len() == 0 {
            return Err(store_error(STORE_EMPTY_MESSAGE));
        }
        if size == 0 {
            return Err(store_error(NO_EVENTS_MESSAGE));
        }
        Ok(self.event_batch(size))
    }

    /// Called once a batch has reached its final outcome; an in-memory
    /// store holds nothing for a batch once it is handed out, so this
    /// always succeeds and changes nothing.
    pub fn cleanup_after_send_attempt(&mut self, batch_id: u128) -> (r: Result<(), Error>)
        requires
            old(self).well_formed(),
        ensures
            r is Ok,
            final(self).unchanged_from(*old(self)),
    {
        Ok(())
    }
}

impl Default for InMemoryEventStore {
    /// A store with a queue of 10,000 events and batches of 50.
    fn default() -> (r: InMemoryEventStore)
        ensures
            r.well_formed(),
            r.events() == Seq::<Payload>::empty(),
            r.max_len() == DEFAULT_EVENT_STORE_CAPACITY,
            r.full_batch_size() == DEFAULT_BATCH_SIZE,
    {
        InMemoryEventStore::new(DEFAULT_EVENT_STORE_CAPACITY, DEFAULT_BATCH_SIZE)
    }
}

} // verus!
