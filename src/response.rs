use vstd::prelude::*;

verus! {

/// HTTP status codes that are never retried: client errors that will not
/// succeed on resend.
pub const NON_RETRYABLE_STATUS_CODES: [u16; 5] = [400, 401, 403, 410, 422];

/// A status code in the 2xx range.
pub open spec fn is_success_code(code: u16) -> bool {
    200 <= code < 300
}

/// A status code that is rejected for good, whatever the retry policy.
pub open spec fn is_non_retryable_code(code: u16) -> bool {
    code == 400 || code == 401 || code == 403 || code == 410 || code == 422
}

/// A status code after which the batch may be sent again.
pub open spec fn is_retryable_code(code: u16) -> bool {
    !is_success_code(code) && !is_non_retryable_code(code)
}

/// Whether the collector accepted the request.
pub fn is_successful_response(code: u16) -> (r: bool)
    ensures
        r == is_success_code(code),
{
    code >= 200 && code < 300
}

/// True if the code is outside 200-299 and not one of the non-retryable codes.
pub fn should_retry(code: u16) -> (r: bool)
    ensures
        r == is_retryable_code(code),
{
    if is_successful_response(code) {
        return false;
    }
    let mut i: usize = 0;
    while i < NON_RETRYABLE_STATUS_CODES.len()
        invariant
            0 <= i <= NON_RETRYABLE_STATUS_CODES.len(),
            NON_RETRYABLE_STATUS_CODES@ == seq![400u16, 401, 403, 410, 422],
            forall|j: int| 0 <= j < i ==> NON_RETRYABLE_STATUS_CODES@[j] != code,
        decreases NON_RETRYABLE_STATUS_CODES.len() - i,
    {
        if NON_RETRYABLE_STATUS_CODES[i] == code {
            return false;
        }
        i = i + 1;
    }
    assert(!is_non_retryable_code(code)) by {
        if is_non_retryable_code(code) {
            let k: int = if code == 400 { 0 } else if code == 401 { 1 } else if code == 403 { 2 } else if code == 410 { 3 } else { 4 };
            assert(NON_RETRYABLE_STATUS_CODES@[k] == code);
        }
    }
    true
}

} // verus!
