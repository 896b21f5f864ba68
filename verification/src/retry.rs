//! What to do after an HTTP answer: accept it, try again, or give up.
use vstd::prelude::*;

verus! {

/// How many times a request is sent at most.
pub open spec fn max_attempts() -> u32 {
    3
}

/// The next step after an HTTP answer.
#[derive(Debug, PartialEq, Eq)]
pub enum CallStep {
    /// A 2xx answer: read its body.
    Success,
    /// Wait this many seconds, then send the request again.
    Retry(u64),
    /// Give up with this message.
    Fail(String),
}

pub enum CallStepV {
    Success,
    Retry(u64),
    Fail(Seq<char>),
}

pub open spec fn call_step_view(s: CallStep) -> CallStepV {
    match s {
        CallStep::Success => CallStepV::Success,
        CallStep::Retry(n) => CallStepV::Retry(n),
        CallStep::Fail(m) => CallStepV::Fail(m@),
    }
}

pub open spec fn is_success(status: u16) -> bool {
    200 <= status <= 299
}

/// Too many requests (429) and server errors (5xx) are worth another try.
pub open spec fn is_transient(status: u16) -> bool {
    status == 429 || (500 <= status <= 599)
}

/// The step after the `attempt`-th answer: success on 2xx; another try after
/// `attempt` seconds for a transient failure while fewer than three attempts were
/// made; otherwise the failure, with the status and the answer's text.
pub open spec fn call_step_of(attempt: u32, status: u16, status_text: Seq<char>, body: Seq<char>) -> CallStepV {
    if is_success(status) {
        CallStepV::Success
    } else if attempt < max_attempts() && is_transient(status) {
        CallStepV::Retry(attempt as u64)
    } else {
        CallStepV::Fail("HTTP "@ + status_text + ": "@ + body)
    }
}

/// The step after the `attempt`-th answer, which had status code `status` (shown as
/// `status_text`) and the text `body`.
pub fn after_status(attempt: u32, status: u16, status_text: &str, body: &str) -> (res: CallStep)
    ensures
        call_step_view(res) == call_step_of(attempt, status, status_text@, body@),
{
    if 200 <= status && status <= 299 {
        CallStep::Success
    } else if attempt < 3 && (status == 429 || (500 <= status && status <= 599)) {
        CallStep::Retry(attempt as u64)
    } else {
        let mut msg = String::from_str("HTTP ");
        msg.append(status_text);
        msg.append(": ");
        msg.append(body);
        CallStep::Fail(msg)
    }
}

/// A request is sent three times at most: from the third answer on, no answer leads to
/// another try; before it, every transient failure does, after a wait that grows with
/// each attempt.
pub proof fn lemma_bounded_retries(attempt: u32, status: u16, status_text: Seq<char>, body: Seq<char>)
    ensures
        attempt >= 3 ==> !(call_step_of(attempt, status, status_text, body) is Retry),
        attempt < 3 && is_transient(status) ==> call_step_of(attempt, status, status_text, body)
            == CallStepV::Retry(attempt as u64),
{
}

} // verus!
