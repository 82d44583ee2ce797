//! A simple status-code-based retry policy: resend the same request while
//! the server keeps answering with a server error, up to a bounded number
//! of attempts.

use vstd::prelude::*;

use crate::chainable::ChainOutcome;
use crate::chainable::Chainer;
use crate::chainable::run_contract;
use crate::history::raw_of;
use crate::message::Error;
use crate::message::Request;
use crate::message::Response;

verus! {

/// Retry a request while the response status lies in the server-error
/// class (5xx), making at most `retries` attempts in all. The request is
/// resent unchanged; a transport error terminates the chain at once.
pub struct RetryOnServerError {
    /// The total number of attempts this policy is willing to make.
    pub retries: u32,
}

/// What `RetryOnServerError` decides about one outcome, given the number
/// of attempts seen so far (after counting the current one): continue only
/// on a server-error response with attempts to spare.
pub open spec fn retry_decision(
    result: Result<Response, Error>,
    attempts_seen: u32,
    retries: u32,
) -> Result<Option<Response>, Error> {
    match result {
        Err(error) => Err(error),
        Ok(response) => if 500 <= response.status < 600 && attempts_seen < retries {
            Ok(None)
        } else {
            Ok(Some(response))
        },
    }
}

impl Chainer for RetryOnServerError {
    /// The number of attempts this chain has made, counted by the policy.
    type State = u32;

    fn max_chain_length(&self) -> (r: u32)
        ensures
            r == self.spec_max_chain_length(),
    {
        crate::chainable::DEFAULT_MAXIMUM_CHAIN_LENGTH
    }

    /// A decision call counts the attempt (the count saturates rather than
    /// wrap), leaves the request untouched, and returns exactly the
    /// verdict that `retry_decision` describes.
    open spec fn chain_spec(
        &self,
        result: Result<Response, Error>,
        state_in: Self::State,
        request_in: Request,
        state_out: Self::State,
        request_out: Request,
        decision: Result<Option<Response>, Error>,
    ) -> bool {
        &&& state_out == (if state_in < u32::MAX {
            (state_in + 1) as u32
        } else {
            state_in
        })
        &&& request_out == request_in
        &&& decision == retry_decision(result, state_out, self.retries)
    }

    fn chain(
        &self,
        result: Result<Response, Error>,
        state: &mut Self::State,
        request: &mut Request,
    ) -> (decision: Result<Option<Response>, Error>) {
        if *state < u32::MAX {
            *state = *state + 1;
        }
        let response = match result {
            Ok(response) => response,
            Err(error) => {
                return Err(error);
            },
        };
        if response.is_server_error() && *state < self.retries {
            Ok(None)
        } else {
            Ok(Some(response))
        }
    }
}

/// Whether a send outcome is a response in the server-error class (5xx).
pub open spec fn server_error_outcome(outcome: Result<Response, Error>) -> bool {
    outcome matches Ok(response) && 500 <= response.status < 600
}

/// In a chain run under `RetryOnServerError`, the chain state counts the
/// attempts: the decision call of attempt `i + 1` (index `i` of the
/// history) sees `i` attempts counted and leaves `i + 1` counted.
pub proof fn lemma_retry_state_counts_attempts(
    policy: RetryOnServerError,
    request: Request,
    out: ChainOutcome<u32>,
    i: int,
)
    requires
        run_contract(policy, request, out),
        0 <= i < out.history@.len(),
    ensures
        out.history@[i].state_in == i,
        out.history@[i].state_out == i + 1,
    decreases i,
{
    if i > 0 {
        lemma_retry_state_counts_attempts(policy, request, out, i - 1);
    }
}

/// `RetryOnServerError` never lets a chain past its own attempt budget:
/// besides the engine's maximum chain length, a chain makes at most
/// `retries` send attempts (at most one when the budget is zero, since the
/// first attempt's outcome must still be decided on).
pub proof fn lemma_retry_bounds_attempts(
    policy: RetryOnServerError,
    request: Request,
    out: ChainOutcome<u32>,
)
    requires
        run_contract(policy, request, out),
    ensures
        out.attempts <= policy.spec_max_chain_length(),
        policy.retries >= 1 ==> out.attempts <= policy.retries,
        policy.retries == 0 ==> out.attempts <= 1,
{
    let h = out.history@;
    if h.len() >= 2 {
        let i = h.len() - 2;
        lemma_retry_state_counts_attempts(policy, request, out, i);
        assert(h[i].decision is Continue);
        assert(raw_of(h[i].decision) == retry_decision(h[i].outcome, (i + 1) as u32, policy.retries));
    }
}

/// While the server keeps answering with server errors and the policy's
/// budget lies within the engine's limit, it is the policy that ends the
/// chain, not the safety valve: exactly `retries` send attempts occur, no
/// error is raised, and the last received response is returned.
pub proof fn lemma_retry_returns_last_server_error(
    policy: RetryOnServerError,
    request: Request,
    out: ChainOutcome<u32>,
)
    requires
        run_contract(policy, request, out),
        1 <= policy.retries <= policy.spec_max_chain_length(),
        forall|i: int|
            0 <= i < out.history@.len() ==> server_error_outcome((#[trigger] out.history@[i]).outcome),
    ensures
        out.attempts == policy.retries,
        out.result == out.history@.last().outcome,
{
    let h = out.history@;
    let retries = policy.retries;
    lemma_retry_bounds_attempts(policy, request, out);
    assert(h.len() >= 1);
    let last = h.len() - 1;
    lemma_retry_state_counts_attempts(policy, request, out, last);
    assert(raw_of(h[last].decision) == retry_decision(
        h[last].outcome,
        (last + 1) as u32,
        retries,
    ));
    if h.len() < retries {
        // The decision on a server error with budget to spare is to
        // continue, so the chain could only have stopped at the engine's
        // limit — which lies at or past the budget. Contradiction.
        assert(h[last].decision is Continue);
        assert(h.len() == policy.spec_max_chain_length());
    }
    assert(h.len() == retries);
}

} // verus!
