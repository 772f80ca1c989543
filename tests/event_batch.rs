use snowplow_tracker::{
    EventBatch, Payload, RetryPolicy, INITIAL_RETRY_DELAY_MS, MAX_RETRY_DELAY_MS,
};
use uuid::Uuid;

fn create_payloads(n: usize) -> Vec<Payload> {
    (0..n)
        .map(|_| {
            Payload::builder()
                .p("p".to_string())
                .tv("tv".to_string())
                .eid(Uuid::new_v4().as_u128())
                .dtm("dtm".to_string())
                .stm("stm".to_string())
                .aid("aid".to_string())
                .finalise_payload()
                .unwrap()
        })
        .collect()
}

#[test]
fn update_event_stm() {
    let now = std::time::SystemTime::now()
        .duration_since(std::time::UNIX_EPOCH)
        .unwrap();

    let mut batch = EventBatch::new(Uuid::new_v4().as_u128(), create_payloads(5));

    let later = now.as_millis() as u64 + 1000;
    batch.update_event_stm(later);

    for event in batch.events.iter() {
        let event_stm = std::time::Duration::from_millis(event.stm.parse::<u64>().unwrap());
        assert!(event_stm > now);
        assert_eq!(event.stm, later.to_string());
        assert_eq!(event.p, "p");
    }
}

#[test]
fn update_event_stm_writes_plain_decimal() {
    let mut batch = EventBatch::new(1, create_payloads(2));
    batch.update_event_stm(1701147392697);
    assert!(batch.events.iter().all(|e| e.stm == "1701147392697"));
    batch.update_event_stm(0);
    assert!(batch.events.iter().all(|e| e.stm == "0"));
}

#[test]
fn update_batch_delay() {
    let mut batch = EventBatch::new(Uuid::new_v4().as_u128(), create_payloads(5));

    batch.update_for_retry();

    assert!(batch.delay.unwrap() > 0);
}

#[test]
fn no_retry_policy() {
    let batch = EventBatch::new(Uuid::new_v4().as_u128(), create_payloads(5));

    assert!(!batch.has_retry(RetryPolicy::NoRetry));
}

#[test]
fn limited_retry_policy() {
    let mut batch = EventBatch::new(Uuid::new_v4().as_u128(), create_payloads(5));
    let policy = RetryPolicy::MaxRetries(5);

    assert!(batch.has_retry(policy));

    for _ in 0..5 {
        batch.update_for_retry();
    }

    assert!(!batch.has_retry(policy));
}

#[test]
fn max_retries_boundary() {
    let mut batch = EventBatch::new(3, Vec::new());
    let policy = RetryPolicy::MaxRetries(2);
    assert!(batch.has_retry(policy));
    batch.retry_attempts = 1;
    assert!(batch.has_retry(policy));
    batch.retry_attempts = 2;
    assert!(!batch.has_retry(policy));
    assert!(!batch.has_retry(RetryPolicy::MaxRetries(0)));
}

#[test]
fn retry_forever_always_permits() {
    let mut batch = EventBatch::new(3, Vec::new());
    assert!(batch.has_retry(RetryPolicy::RetryForever));
    batch.retry_attempts = u32::MAX;
    assert!(batch.has_retry(RetryPolicy::RetryForever));
    assert!(!batch.has_retry(RetryPolicy::NoRetry));
}

#[test]
fn first_retry_waits_one_second() {
    let mut batch = EventBatch::new(9, create_payloads(1));
    batch.update_for_retry();
    assert_eq!(batch.delay, Some(INITIAL_RETRY_DELAY_MS));
    assert_eq!(batch.retry_attempts, 1);
    assert_eq!(batch.id, 9);
    assert_eq!(batch.events.len(), 1);
}

#[test]
fn apply_retry_scales_and_caps() {
    let mut batch = EventBatch::new(9, Vec::new());
    batch.apply_retry(2500);
    assert_eq!(batch.delay, Some(1000));
    batch.apply_retry(2500);
    assert_eq!(batch.delay, Some(2500));
    batch.apply_retry(1000);
    assert_eq!(batch.delay, Some(2500));
    batch.apply_retry(1500);
    assert_eq!(batch.delay, Some(3750));
    batch.delay = Some(500_000);
    batch.apply_retry(2999);
    assert_eq!(batch.delay, Some(MAX_RETRY_DELAY_MS));
    assert_eq!(batch.retry_attempts, 5);
}

#[test]
fn backoff_grows_and_stays_under_the_ceiling() {
    let mut batch = EventBatch::new(9, Vec::new());
    let mut previous = 0u64;
    for _ in 0..40 {
        batch.update_for_retry();
        let delay = batch.delay.unwrap();
        assert!(delay >= previous);
        assert!(delay <= MAX_RETRY_DELAY_MS);
        assert!(delay <= previous.max(INITIAL_RETRY_DELAY_MS) * 3);
        previous = delay;
    }
    assert_eq!(batch.retry_attempts, 40);
}
