//! Reliable delivery core of an analytics event tracker: a bounded event
//! queue, batches with retry bookkeeping, the retry policy, the
//! classification of collector responses and the decisions of the
//! background delivery worker.

pub mod delivery;
pub mod error;
pub mod event_batch;
pub mod event_store;
pub mod payload;
pub mod response;
pub mod retry_policy;
pub mod subject;
pub mod tracker;

pub use delivery::{
    add_event, decide_after_send, flush_batches, pick_channel, Channel, EmitterMessage, SendDecision, SendOutcome,
    WorkerAction, WorkerState,
};
pub use error::Error;
pub use event_batch::{
    EventBatch, INITIAL_RETRY_DELAY_MS, MAX_BACKOFF_PER_MILLE, MAX_RETRY_DELAY_MS,
    MIN_BACKOFF_PER_MILLE, PAYLOAD_DATA_SCHEMA,
};
pub use event_store::{
    is_store_error, InMemoryEventStore, InMemoryEventStoreQueue, BATCH_LARGER_THAN_QUEUE_MESSAGE,
    DEFAULT_BATCH_SIZE, DEFAULT_EVENT_STORE_CAPACITY, NOT_ENOUGH_FOR_FULL_BATCH_MESSAGE,
    NO_EVENTS_MESSAGE, STORE_EMPTY_MESSAGE, STORE_FULL_MESSAGE,
};
pub use payload::{EventType, Payload, PayloadBuilder};
pub use response::{is_successful_response, should_retry, NON_RETRYABLE_STATUS_CODES};
pub use retry_policy::RetryPolicy;
pub use subject::{Subject, SubjectBuilder};
pub use tracker::{NoSuchTracker, TrackerConfig, TRACKER_PLATFORM, TRACKER_VERSION};
