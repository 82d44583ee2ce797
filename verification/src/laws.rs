//! The guarantees of the chain execution engine, stated as laws over the
//! contract of `ChainMiddleware::run`.
//!
//! Each law takes a policy, an inbound request, and an engine outcome that
//! satisfies `run_contract` — which `ChainMiddleware::run` ensures of
//! every outcome it returns — and derives what the engine promises of it.

use vstd::prelude::*;

use crate::chainable::ChainOutcome;
use crate::chainable::Chainer;
use crate::chainable::run_contract;
use crate::history::Decision;
use crate::message::Error;
use crate::message::Request;
use crate::message::Response;

verus! {

/// The safety valve: a chain makes at most the policy's maximum chain
/// length of send attempts, and when the counter runs out before a
/// terminal decision — the history is empty or ends on a continue — the
/// result is the engine's own chain-length-exceeded error, never a
/// transport result.
pub proof fn lemma_attempts_bounded<C: Chainer>(
    policy: C,
    request: Request,
    out: ChainOutcome<C::State>,
)
    requires
        run_contract(policy, request, out),
    ensures
        out.attempts <= policy.spec_max_chain_length(),
        out.history@.len() == out.attempts as int,
        (out.history@.len() == 0 || out.history@.last().decision is Continue) ==> out.result
            == Err::<Response, Error>(Error::ChainLengthExceeded),
{
}

/// Chain state starts freshly default-initialized and is threaded, with
/// the request, from each decision call to the next within the one chain;
/// no other state value ever enters it.
pub proof fn lemma_state_fresh_and_threaded<C: Chainer>(
    policy: C,
    request: Request,
    out: ChainOutcome<C::State>,
)
    requires
        run_contract(policy, request, out),
        out.history@.len() > 0,
    ensures
        call_ensures(<C::State as core::default::Default>::default, (), out.history@[0].state_in),
        out.history@[0].request_sent == request,
        forall|i: int|
            1 <= i < out.history@.len() ==> (#[trigger] out.history@[i]).state_in
                == out.history@[i - 1].state_out && out.history@[i].request_sent == out.history@[i
                - 1].request_out,
{
}

/// If the policy's decision after attempt `k` terminates the chain with a
/// response, exactly `k` send attempts occur and that response is returned
/// unchanged.
pub proof fn lemma_response_returned_unchanged<C: Chainer>(
    policy: C,
    request: Request,
    out: ChainOutcome<C::State>,
    k: int,
    response: Response,
)
    requires
        run_contract(policy, request, out),
        out.history@.len() == k,
        k > 0,
        out.history@.last().decision == Decision::Finish(response),
    ensures
        out.attempts as int == k,
        out.result == Ok::<Response, Error>(response),
{
}

/// If the policy's decision after attempt `k` terminates the chain with an
/// error, exactly `k` send attempts occur and that error is returned
/// unchanged.
pub proof fn lemma_error_returned_unchanged<C: Chainer>(
    policy: C,
    request: Request,
    out: ChainOutcome<C::State>,
    k: int,
    error: Error,
)
    requires
        run_contract(policy, request, out),
        out.history@.len() == k,
        k > 0,
        out.history@.last().decision == Decision::Fail(error),
    ensures
        out.attempts as int == k,
        out.result == Err::<Response, Error>(error),
{
}

/// The limit check fires exactly once past the limit, never before or
/// after: with maximum chain length 1 and a policy whose decisions always
/// continue the chain, exactly one send attempt occurs — not zero, not two
/// — followed by the chain-length-exceeded error.
pub proof fn lemma_limit_check_exact<C: Chainer>(
    policy: C,
    request: Request,
    out: ChainOutcome<C::State>,
)
    requires
        run_contract(policy, request, out),
        policy.spec_max_chain_length() == 1,
        forall|
            result: Result<Response, Error>,
            s_in: C::State,
            r_in: Request,
            s_out: C::State,
            r_out: Request,
            d: Result<Option<Response>, Error>,
        |
            #[trigger] policy.chain_spec(result, s_in, r_in, s_out, r_out, d) ==> d == Ok::<
                Option<Response>,
                Error,
            >(None),
    ensures
        out.attempts == 1,
        out.result == Err::<Response, Error>(Error::ChainLengthExceeded),
{
    assert(out.history@.len() > 0);
    let last = out.history@.last();
    assert(policy.chain_spec(
        last.outcome,
        last.state_in,
        last.request_sent,
        last.state_out,
        last.request_out,
        crate::history::raw_of(last.decision),
    ));
    assert(crate::history::raw_of(last.decision) == Ok::<Option<Response>, Error>(None));
    assert(last.decision is Continue);
}

} // verus!
