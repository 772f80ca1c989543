use snowplow_tracker::{
    decide_after_send, is_successful_response, pick_channel, Channel,
    EmitterMessage, EventBatch, InMemoryEventStore, Payload, RetryPolicy, SendDecision,
    SendOutcome, WorkerAction, WorkerState, NON_RETRYABLE_STATUS_CODES,
};

fn payload(eid: u128) -> Payload {
    Payload::builder()
        .p("pc".to_string())
        .tv("rust-0.1.0".to_string())
        .eid(eid)
        .dtm("1".to_string())
        .aid("app".to_string())
        .finalise_payload()
        .unwrap()
}

fn batch_of_two() -> EventBatch {
    EventBatch::new(11, vec![payload(11), payload(12)])
}

#[test]
fn should_retry() {
    let below_200 = (0..=199).collect::<Vec<u16>>();
    let between_300_and_599 = (300..=599)
        .into_iter()
        .filter(|code| !NON_RETRYABLE_STATUS_CODES.contains(code))
        .collect::<Vec<u16>>();

    let should_retry_codes = [below_200, between_300_and_599].concat();

    for code in 0..=599 {
        assert_eq!(
            snowplow_tracker::should_retry(code),
            should_retry_codes.contains(&code)
        )
    }
}

#[test]
fn response_classes() {
    assert!(is_successful_response(200));
    assert!(is_successful_response(299));
    assert!(!is_successful_response(300));
    assert!(!is_successful_response(199));
    for code in [400u16, 401, 403, 410, 422] {
        assert!(!snowplow_tracker::should_retry(code));
    }
    for code in [100u16, 302, 404, 429, 500, 503] {
        assert!(snowplow_tracker::should_retry(code));
    }
    assert!(!snowplow_tracker::should_retry(204));
}

#[test]
fn success_is_delivered_unchanged() {
    match decide_after_send(batch_of_two(), SendOutcome::Response(200), RetryPolicy::NoRetry) {
        SendDecision::Delivered(b) => {
            assert_eq!(b.id, 11);
            assert_eq!(b.retry_attempts, 0);
            assert_eq!(b.delay, None);
        }
        other => panic!("unexpected {other:?}"),
    }
}

#[test]
fn non_retryable_status_is_abandoned_whatever_the_policy() {
    match decide_after_send(batch_of_two(), SendOutcome::Response(403), RetryPolicy::RetryForever)
    {
        SendDecision::Abandon(b) => assert_eq!(b.retry_attempts, 0),
        other => panic!("unexpected {other:?}"),
    }
}

#[test]
fn transport_failure_is_retried() {
    match decide_after_send(batch_of_two(), SendOutcome::TransportFailure, RetryPolicy::MaxRetries(1))
    {
        SendDecision::Retry(b) => {
            assert_eq!(b.retry_attempts, 1);
            assert_eq!(b.delay, Some(1000));
            assert_eq!(b.events.len(), 2);
        }
        other => panic!("unexpected {other:?}"),
    }
}

#[test]
fn exhausted_policy_abandons() {
    let mut batch = batch_of_two();
    batch.retry_attempts = 3;
    match decide_after_send(batch, SendOutcome::Response(500), RetryPolicy::MaxRetries(3)) {
        SendDecision::Abandon(b) => assert_eq!(b.retry_attempts, 3),
        other => panic!("unexpected {other:?}"),
    }
    match decide_after_send(batch_of_two(), SendOutcome::TransportFailure, RetryPolicy::NoRetry) {
        SendDecision::Abandon(_) => (),
        other => panic!("unexpected {other:?}"),
    }
}

#[test]
fn five_failures_then_success_with_ten_retries() {
    let mut store = InMemoryEventStore::new(2, 2);
    let policy = RetryPolicy::MaxRetries(10);
    let mut batch = batch_of_two();
    let mut attempts = 0;
    let mut retries = 0;
    let mut deliveries = 0;
    let mut acknowledgements = 0;
    loop {
        let outcome = if attempts < 5 {
            SendOutcome::Response(500)
        } else {
            SendOutcome::Response(200)
        };
        attempts += 1;
        match decide_after_send(batch, outcome, policy) {
            SendDecision::Retry(next) => {
                retries += 1;
                batch = next;
            }
            SendDecision::Delivered(done) => {
                deliveries += 1;
                store.cleanup_after_send_attempt(done.id).unwrap();
                acknowledgements += 1;
                assert_eq!(done.retry_attempts, 5);
                assert_eq!(done.events.len(), 2);
                break;
            }
            SendDecision::Abandon(_) => panic!("batch abandoned"),
        }
    }
    assert_eq!(deliveries, 1);
    assert_eq!(retries, 5);
    assert_eq!(acknowledgements, 1);
    assert_eq!(attempts, 6);
}

#[test]
fn retries_are_read_first() {
    assert_eq!(pick_channel(true, true), Some(Channel::Retry));
    assert_eq!(pick_channel(true, false), Some(Channel::Retry));
    assert_eq!(pick_channel(false, true), Some(Channel::Command));
    assert_eq!(pick_channel(false, false), None);
}

#[test]
fn worker_lifecycle() {
    let (state, action) = WorkerState::Running.on_message(Some(EmitterMessage::Send(batch_of_two())));
    assert_eq!(state, WorkerState::Running);
    assert!(matches!(action, WorkerAction::StartSend(b) if b.id == 11));

    let (state, action) = state.on_message(Some(EmitterMessage::Close));
    assert_eq!(state, WorkerState::Draining);
    assert!(matches!(action, WorkerAction::AwaitInFlight));
    assert_eq!(state.on_drained(), WorkerState::Stopped);

    let (state, action) = WorkerState::Running.on_message(None);
    assert_eq!(state, WorkerState::Stopped);
    assert!(matches!(action, WorkerAction::Exit));
}
