//! The chaining policy contract and the chain execution engine.

use vstd::prelude::*;

use crate::driver::ChainDriver;
use crate::history::Step;
use crate::history::decision_of;
use crate::history::history_linked;
use crate::history::raw_of;
use crate::history::result_of_history;
use crate::message::Error;
use crate::message::Request;
use crate::message::Response;

verus! {

/// The default maximum chain length: a conservative bound on the number of
/// send attempts per chain, protecting against unbounded chaining without
/// requiring the caller to think about limits.
pub const DEFAULT_MAXIMUM_CHAIN_LENGTH: u32 = 7;

/// A chaining policy: decides, after each send attempt, whether the chain
/// continues with a follow-up request or terminates with a final result.
///
/// Information is available to a decision from:
///
/// - `self` (global state, instantiated at middleware creation),
/// - `result` (the outcome of the previous send attempt),
/// - `state` (local state, freshly default-initialized for each chain).
pub trait Chainer {
    /// Per-chain local state, default-initialized at the start of every
    /// chain and discarded when the chain terminates.
    type State: Default;

    /// The maximum chain length this policy configures, as a
    /// specification-level value that `max_chain_length` returns.
    open spec fn spec_max_chain_length(&self) -> u32 {
        DEFAULT_MAXIMUM_CHAIN_LENGTH
    }

    /// Safety valve to protect against infinite chaining: the upper bound
    /// on the number of send attempts per chain. This value may be
    /// overridden by a policy; it defaults to
    /// `DEFAULT_MAXIMUM_CHAIN_LENGTH`.
    fn max_chain_length(&self) -> (r: u32)
        ensures
            r == self.spec_max_chain_length(),
    ;

    /// The policy's decision relation: whether one decision call on
    /// `result` may move the chain state from `state_in` to `state_out`,
    /// rewrite the request from `request_in` to `request_out`, and return
    /// `decision`. Every `chain` call satisfies this relation; a policy
    /// overrides it to publish what its decisions guarantee. The default
    /// relation holds always, promising nothing.
    open spec fn chain_spec(
        &self,
        result: Result<Response, Error>,
        state_in: Self::State,
        request_in: Request,
        state_out: Self::State,
        request_out: Request,
        decision: Result<Option<Response>, Error>,
    ) -> bool {
        true
    }

    /// Inspect the outcome of the previous send attempt and decide whether
    /// to make another request.
    ///
    /// - To continue the chain, update `request` in place to form the next
    ///   attempt and return `Ok(None)`; the engine resends exactly that
    ///   value.
    /// - To terminate with a response (not necessarily the one just
    ///   received), return `Ok(Some(response))`.
    /// - To terminate with a failure, return `Err(error)`; the engine
    ///   propagates it unchanged.
    fn chain(
        &self,
        result: Result<Response, Error>,
        state: &mut Self::State,
        request: &mut Request,
    ) -> (decision: Result<Option<Response>, Error>)
        ensures
            self.chain_spec(
                result,
                *old(state),
                *old(request),
                *final(state),
                *final(request),
                decision,
            ),
    ;
}

/// A handle capable of performing one send over the wrapped transport (or
/// the next middleware layer): the sole effectful step of a chain. The
/// engine passes whatever comes back to the policy uninterpreted, so
/// nothing is assumed about the outcome.
pub trait Transport {
    /// Send `request` once and report the response or the transport-level
    /// error, as-is.
    fn send(&mut self, request: &Request) -> (outcome: Result<Response, Error>);
}

/// What one engine invocation produced: the terminal result, the number of
/// send attempts that were made, and the ghost record of the whole chain.
pub struct ChainOutcome<S> {
    /// The terminal response or error reported to the invoking pipeline.
    pub result: Result<Response, Error>,
    /// How many send attempts the chain made.
    pub attempts: u32,
    /// The chain's history: one step per send attempt.
    pub history: Ghost<Seq<Step<S>>>,
}

/// Whether `step` records a faithful decision call on `policy`: the
/// policy's decision relation admits the step's outcome, its state and
/// request transitions, and its decision.
pub open spec fn decided_by<C: Chainer>(policy: C, step: Step<C::State>) -> bool {
    policy.chain_spec(
        step.outcome,
        step.state_in,
        step.request_sent,
        step.state_out,
        step.request_out,
        raw_of(step.decision),
    )
}

/// The engine's whole obligation for one chain run of `request` under
/// `policy`, stated over the returned history:
///
/// - one history step per send attempt, and at most the policy's maximum
///   chain length of them;
/// - the first attempt sends the inbound request and sees a
///   default-initialized chain state, and both are threaded unchanged from
///   each decision call to the next;
/// - every recorded decision is a faithful decision call on the policy;
/// - the terminal result is exactly what the last decision dictates, the
///   chain-length-exceeded error standing only where the counter ran out
///   before a terminal decision.
pub open spec fn run_contract<C: Chainer>(
    policy: C,
    request: Request,
    out: ChainOutcome<C::State>,
) -> bool {
    &&& out.attempts as int == out.history@.len()
    &&& out.attempts <= policy.spec_max_chain_length()
    &&& history_linked(out.history@, request)
    &&& (out.history@.len() > 0 ==> call_ensures(
        <C::State as core::default::Default>::default,
        (),
        out.history@[0].state_in,
    ))
    &&& (forall|i: int|
        0 <= i < out.history@.len() ==> decided_by(policy, (#[trigger] out.history@[i])))
    &&& result_of_history(out.result, out.history@, policy.spec_max_chain_length())
}

/// The chain execution engine: wraps a chaining policy and, per inbound
/// request, drives the send/decide loop until the policy reaches a
/// terminal decision or the attempt counter reaches the policy's maximum
/// chain length.
pub struct ChainMiddleware<T> {
    inner: T,
}

impl<T> ChainMiddleware<T> {
    /// The wrapped policy, as a specification-level value.
    pub closed spec fn spec_inner(&self) -> T {
        self.inner
    }

    /// Wrap a chaining policy in an engine.
    pub fn new(inner: T) -> (r: Self)
        ensures
            r.spec_inner() == inner,
    {
        ChainMiddleware { inner }
    }

    /// The wrapped policy.
    pub fn inner(&self) -> (r: &T)
        ensures
            *r == self.spec_inner(),
    {
        &self.inner
    }
}

impl<C: Chainer> ChainMiddleware<C> {
    /// Run one chain for `request`: send, feed the outcome to the policy,
    /// and repeat until the policy terminates the chain or the attempt
    /// counter reaches the policy's maximum chain length.
    ///
    /// The returned history records the chain that actually ran. The
    /// contract states the engine's whole obligation over it: at most the
    /// configured maximum of send attempts is made; the chain state starts
    /// default-initialized and, like the request, is threaded unchanged
    /// from each decision call to the next; and the terminal result is
    /// exactly what the last decision dictates, with the engine's own
    /// chain-length-exceeded error returned only when the counter ran out
    /// before a terminal decision.
    pub fn run<T: Transport>(&self, transport: &mut T, request: Request) -> (out: ChainOutcome<
        C::State,
    >)
        ensures
            run_contract(self.spec_inner(), request, out),
    {
        let max = self.inner.max_chain_length();
        let mut state: C::State = Default::default();
        let ghost initial_state = state;
        let mut req = request;
        let mut driver = ChainDriver::new(max);
        let ghost mut h: Seq<Step<C::State>> = Seq::empty();
        loop
            invariant
                max == self.spec_inner().spec_max_chain_length(),
                driver.spec_max() == max,
                driver.spec_attempts() as int == h.len(),
                driver.spec_attempts() <= max,
                history_linked(h, request),
                call_ensures(<C::State as core::default::Default>::default, (), initial_state),
                h.len() > 0 ==> call_ensures(
                    <C::State as core::default::Default>::default,
                    (),
                    h[0].state_in,
                ),
                forall|i: int| 0 <= i < h.len() ==> (#[trigger] h[i]).decision is Continue,
                forall|i: int| 0 <= i < h.len() ==> decided_by(self.spec_inner(), (#[trigger] h[i])),
                h.len() == 0 ==> req == request && state == initial_state,
                h.len() > 0 ==> req == h.last().request_out && state == h.last().state_out,
            decreases max - driver.spec_attempts(),
        {
            if !driver.may_attempt() {
                return ChainOutcome {
                    result: Err(Error::ChainLengthExceeded),
                    attempts: driver.attempts(),
                    history: Ghost(h),
                };
            }
            let ghost request_sent = req;
            let outcome = transport.send(&req);
            let ghost recorded_outcome = outcome;
            let ghost state_in = state;
            driver.record_attempt();
            let decision = self.inner.chain(outcome, &mut state, &mut req);
            proof {
                h = h.push(
                    Step {
                        request_sent,
                        outcome: recorded_outcome,
                        state_in,
                        state_out: state,
                        request_out: req,
                        decision: decision_of(decision),
                    },
                );
            }
            match decision {
                Ok(None) => {},
                Ok(Some(response)) => {
                    return ChainOutcome {
                        result: Ok(response),
                        attempts: driver.attempts(),
                        history: Ghost(h),
                    };
                },
                Err(error) => {
                    return ChainOutcome {
                        result: Err(error),
                        attempts: driver.attempts(),
                        history: Ghost(h),
                    };
                },
            }
        }
    }
}

} // verus!
