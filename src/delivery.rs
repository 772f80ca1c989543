use vstd::prelude::*;

use crate::error::Error;
use crate::event_batch::{is_backoff_factor, next_delay, EventBatch};
use crate::event_store::{is_store_error, InMemoryEventStore, STORE_EMPTY_MESSAGE};
use crate::payload::Payload;
use crate::response::{is_retryable_code, is_success_code, is_successful_response, should_retry};
use crate::retry_policy::RetryPolicy;

verus! {

/// Messages to the delivery worker.
#[derive(Debug)]
pub enum EmitterMessage {
    /// Sends a batch of events
    Send(EventBatch),
    /// Shuts the worker down once the sends in flight have finished
    Close,
}

/// What came of one post of a batch to the collector.
#[derive(Debug, Copy, Clone, PartialEq, Eq, Structural)]
pub enum SendOutcome {
    /// The collector answered with this status code
    Response(u16),
    /// No response: the request failed on the way
    TransportFailure,
}

/// What becomes of a batch after a send attempt.
#[derive(Debug)]
pub enum SendDecision {
    /// The collector accepted the batch: acknowledge it
    Delivered(EventBatch),
    /// Send the batch again after its delay
    Retry(EventBatch),
    /// Give the batch up (non-retryable status, or retries exhausted):
    /// acknowledge it and record the loss
    Abandon(EventBatch),
}

/// The attempt failed in a way that a resend may mend.
pub open spec fn is_retryable_outcome(outcome: SendOutcome) -> bool {
    match outcome {
        SendOutcome::Response(code) => is_retryable_code(code),
        SendOutcome::TransportFailure => true,
    }
}

/// The collector accepted the batch.
pub open spec fn is_delivered_outcome(outcome: SendOutcome) -> bool {
    outcome matches SendOutcome::Response(code) && is_success_code(code)
}

/// A batch may be rescheduled: the attempt is retryable, the policy allows
/// another retry, and the retry count can still grow.
pub open spec fn may_retry(batch: EventBatch, outcome: SendOutcome, policy: RetryPolicy) -> bool {
    &&& is_retryable_outcome(outcome)
    &&& policy.permits(batch.retry_attempts)
    &&& batch.retry_attempts < u32::MAX
}

/// `next` is `batch` scheduled for one more attempt, its delay grown by
/// some backoff factor in `[1.0, 3.0)`.
pub open spec fn is_rescheduled(next: EventBatch, batch: EventBatch) -> bool {
    &&& next.id == batch.id
    &&& next.events@ == batch.events@
    &&& next.retry_attempts == batch.retry_attempts + 1
    &&& exists|factor: u64|
        is_backoff_factor(factor) && next.delay == Some(#[trigger] next_delay(batch.delay, factor))
}

/// Decides what becomes of `batch` after a send attempt with `outcome`:
/// a 2xx response delivers it; a retryable failure reschedules it while
/// the policy allows; anything else abandons it.
pub fn decide_after_send(batch: EventBatch, outcome: SendOutcome, retry_policy: RetryPolicy) -> (r:
    SendDecision)
    ensures
        is_delivered_outcome(outcome) ==> r == SendDecision::Delivered(batch),
        may_retry(batch, outcome, retry_policy) ==> (r matches SendDecision::Retry(next)
            && is_rescheduled(next, batch)),
        !is_delivered_outcome(outcome) && !may_retry(batch, outcome, retry_policy) ==> r
            == SendDecision::Abandon(batch),
{
    let retryable = match outcome {
        SendOutcome::Response(code) => {
            if is_successful_response(code) {
                return SendDecision::Delivered(batch);
            }
            should_retry(code)
        },
        SendOutcome::TransportFailure => true,
    };
    if retryable && batch.has_retry(retry_policy) && batch.retry_attempts < u32::MAX {
        let mut next = batch;
        next.update_for_retry();
        SendDecision::Retry(next)
    } else {
        SendDecision::Abandon(batch)
    }
}

/// The events of `batches`, batch after batch, each in its own order.
pub open spec fn batched_events(batches: Seq<EventBatch>) -> Seq<Payload>
    decreases batches.len(),
{
    if batches.len() == 0 {
        Seq::empty()
    } else {
        batched_events(batches.drop_last()) + batches.last().events@
    }
}

/// `b` is a fresh batch of at least one event, named after its first event.
pub open spec fn is_fresh_batch(b: EventBatch) -> bool {
    &&& b.events@.len() > 0
    &&& b.id == b.events@[0].eid
    &&& b.delay is None
    &&& b.retry_attempts == 0
}

/// Adds an event to the store and, where that completes a full batch, takes
/// the batch out to be sent. Fails, changing nothing, when the store is at
/// capacity.
pub fn add_event(store: &mut InMemoryEventStore, payload: Payload) -> (r: Result<
    Option<EventBatch>,
    Error,
>)
    requires
        old(store).well_formed(),
    ensures
        final(store).well_formed(),
        final(store).max_len() == old(store).max_len(),
        final(store).full_batch_size() == old(store).full_batch_size(),
        r is Err <==> old(store).events().len() == old(store).max_len(),
        r matches Err(e) ==> final(store).events() == old(store).events() && is_store_error(
            e,
            crate::event_store::STORE_FULL_MESSAGE@,
        ),
        r matches Ok(None) ==> final(store).events() == old(store).events().push(payload) && !(0
            < old(store).full_batch_size() <= old(store).events().len() + 1),
        r matches Ok(Some(b)) ==> {
            let added = old(store).events().push(payload);
            let n = old(store).full_batch_size();
            &&& 0 < n <= added.len()
            &&& InMemoryEventStore::is_front_batch(b, added, n)
            &&& final(store).events() == added.subrange(n as int, added.len() as int)
        },
{
    if let Err(e) = store.add(payload) {
        return Err(e);
    }
    match store.full_batch() {
        Ok(batch) => Ok(Some(batch)),
        Err(_) => Ok(None),
    }
}

/// Takes every queued event out of the store as batches, in order: full
/// batches first, then one batch of what is left. Fails, changing nothing,
/// when the store is empty.
pub fn flush_batches(store: &mut InMemoryEventStore) -> (r: Result<Vec<EventBatch>, Error>)
    requires
        old(store).well_formed(),
    ensures
        final(store).well_formed(),
        final(store).max_len() == old(store).max_len(),
        final(store).full_batch_size() == old(store).full_batch_size(),
        r is Err <==> old(store).events().len() == 0,
        r matches Err(e) ==> final(store).events() == old(store).events() && is_store_error(
            e,
            STORE_EMPTY_MESSAGE@,
        ),
        r matches Ok(batches) ==> {
            &&& final(store).events().len() == 0
            &&& batched_events(batches@) == old(store).events()
            &&& forall|i: int| 0 <= i < batches@.len() ==> is_fresh_batch(#[trigger] batches@[i])
            &&& forall|i: int|
                0 <= i < batches@.len() - 1 ==> (#[trigger] batches@[i]).events@.len()
                    == old(store).full_batch_size()
            &&& batches@.last().events@.len() <= old(store).full_batch_size() || old(
                store,
            ).full_batch_size() == 0
        },
{
    if store.len() == 0 {
        return Err(crate::event_store::store_error(STORE_EMPTY_MESSAGE));
    }
    let ghost original = store.events();
    let batch_size = store.batch_size();
    let mut batches: Vec<EventBatch> = Vec::new();
    while batch_size > 0 && store.len() >= batch_size
        invariant
            store.well_formed(),
            store.max_len() == old(store).max_len(),
            store.full_batch_size() == old(store).full_batch_size(),
            batch_size == store.full_batch_size(),
            original == old(store).events(),
            batched_events(batches@) + store.events() == original,
            forall|i: int| 0 <= i < batches@.len() ==> is_fresh_batch(#[trigger] batches@[i]),
            forall|i: int|
                0 <= i < batches@.len() ==> (#[trigger] batches@[i]).events@.len() == batch_size,
            batches@.len() == 0 ==> store.events().len() > 0,
        decreases store.events().len(),
    {
        let ghost before = store.events();
        let ghost done = batches@;
        match store.full_batch() {
            Ok(batch) => {
                proof {
                    assert(batches@.push(batch).drop_last() == done);
                    assert(before == batch.events@ + store.events());
                }
                batches.push(batch);
                assert(batched_events(batches@) == batched_events(done) + batch.events@);
            },
            Err(_) => {
                assert(false);
            },
        }
    }
    let remaining = store.len();
    if remaining > 0 {
        let ghost before = store.events();
        let ghost done = batches@;
        match store.batch_of(remaining) {
            Ok(batch) => {
                proof {
                    assert(batches@.push(batch).drop_last() == done);
                    assert(before == batch.events@);
                }
                batches.push(batch);
                assert(batched_events(batches@) == batched_events(done) + batch.events@);
            },
            Err(_) => {
                assert(false);
            },
        }
    }
    assert(batched_events(batches@) == original);
    Ok(batches)
}

/// The channels the worker listens on.
#[derive(Debug, Copy, Clone, PartialEq, Eq, Structural)]
pub enum Channel {
    /// Batches rescheduled after a failed attempt
    Retry,
    /// Commands from the producer side
    Command,
}

/// The channel to read next: retries go first, so that failed batches are
/// not starved behind fresh sends.
pub fn pick_channel(retry_ready: bool, command_ready: bool) -> (r: Option<Channel>)
    ensures
        retry_ready ==> r == Some(Channel::Retry),
        !retry_ready && command_ready ==> r == Some(Channel::Command),
        !retry_ready && !command_ready ==> r is None,
{
    if retry_ready {
        Some(Channel::Retry)
    } else if command_ready {
        Some(Channel::Command)
    } else {
        None
    }
}

/// Lifecycle of the delivery worker.
#[derive(Debug, Copy, Clone, PartialEq, Eq, Structural)]
pub enum WorkerState {
    /// Taking messages and starting sends
    Running,
    /// Closed: waiting for the sends in flight to finish
    Draining,
    /// Terminal
    Stopped,
}

/// What the worker does next.
#[derive(Debug)]
pub enum WorkerAction {
    /// Start a concurrent send of the batch
    StartSend(EventBatch),
    /// Wait for every send in flight to finish
    AwaitInFlight,
    /// Tear the worker down
    Exit,
}

impl WorkerState {
    /// The step of a running worker on the next message, or on `None` once
    /// its channels are closed.
    pub fn on_message(self, message: Option<EmitterMessage>) -> (r: (WorkerState, WorkerAction))
        requires
            self == WorkerState::Running,
        ensures
            message matches Some(EmitterMessage::Send(b)) ==> r == (
            WorkerState::Running,
            WorkerAction::StartSend(b),
            ),
            message matches Some(EmitterMessage::Close) ==> r == (
            WorkerState::Draining,
            WorkerAction::AwaitInFlight,
            ),
            message is None ==> r == (WorkerState::Stopped, WorkerAction::Exit),
    {
        match message {
            Some(EmitterMessage::Send(batch)) => (WorkerState::Running, WorkerAction::StartSend(batch)),
            Some(EmitterMessage::Close) => (WorkerState::Draining, WorkerAction::AwaitInFlight),
            None => (WorkerState::Stopped, WorkerAction::Exit),
        }
    }

    /// The step of a draining worker once every send in flight has finished.
    pub fn on_drained(self) -> (r: WorkerState)
        requires
            self == WorkerState::Draining,
        ensures
            r == WorkerState::Stopped,
    {
        WorkerState::Stopped
    }
}

} // verus!
