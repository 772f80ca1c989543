use rand::Rng;
use vstd::prelude::*;

use crate::payload::Payload;
use crate::retry_policy::RetryPolicy;

verus! {

/// Schema of the envelope in which a batch is posted to the collector.
pub const PAYLOAD_DATA_SCHEMA: &'static str = "iglu:com.snowplowanalytics.snowplow/payload_data/jsonschema/1-0-4";

/// Delay before the first retry of a batch, in milliseconds.
pub const INITIAL_RETRY_DELAY_MS: u64 = 1000;

/// Ceiling of the retry delay, in milliseconds (ten minutes).
pub const MAX_RETRY_DELAY_MS: u64 = 600_000;

/// Lowest backoff factor, in thousandths (a factor of 1.0).
pub const MIN_BACKOFF_PER_MILLE: u64 = 1000;

/// Bound of the backoff factor, in thousandths, not included (a factor of 3.0).
pub const MAX_BACKOFF_PER_MILLE: u64 = 3000;

/// A batch of events to be sent to the collector, with its retry state.
#[derive(Debug)]
pub struct EventBatch {
    /// The id of the batch: the `eid` of its first event
    pub id: u128,
    /// The events, in arrival order
    pub events: Vec<Payload>,
    /// Delay before the next send attempt, in milliseconds; unset until
    /// the first failed attempt
    pub delay: Option<u64>,
    /// How many times the batch has been scheduled for a retry
    pub retry_attempts: u32,
}

/// A backoff factor in thousandths, within `[1.0, 3.0)`.
pub open spec fn is_backoff_factor(factor: u64) -> bool {
    MIN_BACKOFF_PER_MILLE <= factor < MAX_BACKOFF_PER_MILLE
}

/// The delay of the next retry: one time unit after the first failure, then
/// the previous delay scaled by `factor` thousandths and capped at the ceiling.
pub open spec fn next_delay(prev: Option<u64>, factor: u64) -> u64 {
    match prev {
        None => INITIAL_RETRY_DELAY_MS,
        Some(d) => {
            let scaled = d as int * factor as int / 1000;
            if scaled > MAX_RETRY_DELAY_MS as int {
                MAX_RETRY_DELAY_MS
            } else {
                scaled as u64
            }
        },
    }
}

/// Backoff never shrinks and never passes its ceiling: for any backoff
/// factor in `[1.0, 3.0)`, the next retry delay is at most the ceiling and,
/// where a previous delay within the ceiling exists, at least that delay.
pub proof fn lemma_backoff_monotone_and_capped(prev: Option<u64>, factor: u64)
    requires
        is_backoff_factor(factor),
        prev matches Some(d) ==> d <= MAX_RETRY_DELAY_MS,
    ensures
        next_delay(prev, factor) <= MAX_RETRY_DELAY_MS,
        prev matches Some(d) ==> d <= next_delay(prev, factor),
{
    if let Some(d) = prev {
        assert(d as int * factor as int >= d as int * 1000) by (nonlinear_arith)
            requires
                factor >= 1000,
        ;
        assert(d as int * factor as int / 1000 >= d as int) by (nonlinear_arith)
            requires
                d as int * factor as int >= d as int * 1000,
        ;
    }
}

/// The text of a decimal digit.
pub open spec fn digit_char(d: nat) -> char {
    if d == 0 { '0' }
    else if d == 1 { '1' }
    else if d == 2 { '2' }
    else if d == 3 { '3' }
    else if d == 4 { '4' }
    else if d == 5 { '5' }
    else if d == 6 { '6' }
    else if d == 7 { '7' }
    else if d == 8 { '8' }
    else { '9' }
}

/// The decimal text of a natural number, without sign or leading zeros.
pub open spec fn decimal_text(n: nat) -> Seq<char>
    decreases n,
{
    if n < 10 {
        seq![digit_char(n)]
    } else {
        decimal_text(n / 10).push(digit_char(n % 10))
    }
}

/// Relies on `ToString` for `u64` (its `Display`): the decimal digits of
/// the number.
#[verifier::external_body]
fn u64_to_decimal(n: u64) -> (r: String)
    ensures
        r@ == decimal_text(n as nat),
{
    n.to_string()
}

/// Relies on rand's `thread_rng().gen_range(low..high)`: a value drawn
/// from `[low, high)`; the range must not be empty.
#[verifier::external_body]
fn random_in_range(low: u64, high: u64) -> (r: u64)
    requires
        low < high,
    ensures
        low <= r < high,
{
    rand::thread_rng().gen_range(low..high)
}

impl EventBatch {
    /// A fresh batch: no delay and no retry yet.
    pub fn new(id: u128, events: Vec<Payload>) -> (r: EventBatch)
        ensures
            r.id == id,
            r.events@ == events@,
            r.delay is None,
            r.retry_attempts == 0,
    {
        EventBatch { id, events, delay: None, retry_attempts: 0 }
    }

    /// Whether the batch has any retries remaining under `retry_policy`.
    pub fn has_retry(&self, retry_policy: RetryPolicy) -> (r: bool)
        ensures
            r == retry_policy.permits(self.retry_attempts),
    {
        retry_policy.allows_retry(self.retry_attempts)
    }

    /// Sets the sent-at timestamp of every event to `now_millis`, the
    /// milliseconds since the Unix epoch, written in decimal.
    pub fn update_event_stm(&mut self, now_millis: u64)
        ensures
            final(self).id == old(self).id,
            final(self).delay == old(self).delay,
            final(self).retry_attempts == old(self).retry_attempts,
            final(self).events@.len() == old(self).events@.len(),
            forall|i: int|
                0 <= i < old(self).events@.len() ==> #[trigger] final(self).events@[i]
                    == old(self).events@[i].with_stm(final(self).events@[i].stm),
            forall|i: int|
                0 <= i < old(self).events@.len() ==> (#[trigger] final(self).events@[i]).stm@
                    == decimal_text(now_millis as nat),
    {
        let stm = u64_to_decimal(now_millis);
        let n = self.events.len();
        let mut i: usize = 0;
        while i < n
            invariant
                0 <= i <= n,
                n == old(self).events@.len(),
                self.id == old(self).id,
                self.delay == old(self).delay,
                self.retry_attempts == old(self).retry_attempts,
                self.events@.len() == n,
                stm@ == decimal_text(now_millis as nat),
                forall|j: int|
                    0 <= j < n ==> #[trigger] self.events@[j] == old(self).events@[j].with_stm(
                        self.events@[j].stm,
                    ),
                forall|j: int| 0 <= j < i ==> (#[trigger] self.events@[j]).stm@ == stm@,
            decreases n - i,
        {
            self.events[i].stm = stm.clone();
            i = i + 1;
        }
    }

    /// Records one more retry and sets the delay before the next attempt,
    /// scaling the previous delay by `factor` thousandths.
    pub fn apply_retry(&mut self, factor: u64)
        requires
            old(self).retry_attempts < u32::MAX,
            is_backoff_factor(factor),
        ensures
            final(self).id == old(self).id,
            final(self).events@ == old(self).events@,
            final(self).retry_attempts == old(self).retry_attempts + 1,
            final(self).delay == Some(next_delay(old(self).delay, factor)),
    {
        self.retry_attempts = self.retry_attempts + 1;
        self.delay = match self.delay {
            None => Some(INITIAL_RETRY_DELAY_MS),
            Some(d) => {
                assert(d as u128 * factor as u128 <= u64::MAX as u128 * 3000) by (nonlinear_arith)
                    requires
                        factor < 3000,
                ;
                let scaled: u128 = d as u128 * factor as u128 / 1000;
                if scaled > MAX_RETRY_DELAY_MS as u128 {
                    Some(MAX_RETRY_DELAY_MS)
                } else {
                    Some(scaled as u64)
                }
            },
        };
    }

    /// Updates the delay until another sending attempt is made: one more
    /// retry, with a backoff factor drawn at random from `[1.0, 3.0)`.
    pub fn update_for_retry(&mut self)
        requires
            old(self).retry_attempts < u32::MAX,
        ensures
            final(self).id == old(self).id,
            final(self).events@ == old(self).events@,
            final(self).retry_attempts == old(self).retry_attempts + 1,
            exists|factor: u64|
                is_backoff_factor(factor) && final(self).delay == Some(
                    #[trigger] next_delay(old(self).delay, factor),
                ),
    {
        let factor = random_in_range(MIN_BACKOFF_PER_MILLE, MAX_BACKOFF_PER_MILLE);
        self.apply_retry(factor);
    }
}

} // verus!
