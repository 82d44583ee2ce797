//! Ghost record of one chain: the sequence of send attempts, what each
//! attempt returned, and what the policy decided about it.
//!
//! The engine builds this record as it runs and returns it alongside the
//! terminal result, so that its contract can pin down how the result
//! relates to the attempts that were actually made.

use vstd::prelude::*;

use crate::message::Error;
use crate::message::Request;
use crate::message::Response;

verus! {

/// A policy's verdict on one attempt's outcome, as the engine acts on it.
pub enum Decision {
    /// `Ok(None)`: the chain continues with the (possibly rewritten) request.
    Continue,
    /// `Ok(Some(response))`: the chain terminates successfully with this
    /// response, which need not be the one just received.
    Finish(Response),
    /// `Err(error)`: the chain terminates with this failure.
    Fail(Error),
}

/// The `Decision` that a raw policy return value stands for.
pub open spec fn decision_of(d: Result<Option<Response>, Error>) -> Decision {
    match d {
        Ok(Some(response)) => Decision::Finish(response),
        Ok(None) => Decision::Continue,
        Err(error) => Decision::Fail(error),
    }
}

/// The raw policy return value that a `Decision` stands for; the inverse
/// of `decision_of`.
pub open spec fn raw_of(d: Decision) -> Result<Option<Response>, Error> {
    match d {
        Decision::Finish(response) => Ok(Some(response)),
        Decision::Continue => Ok(None),
        Decision::Fail(error) => Err(error),
    }
}

/// One send attempt of a chain: the request that was sent, the outcome the
/// transport produced, the chain state and request around the policy's
/// decision call, and the decision itself.
pub struct Step<S> {
    /// The request value handed to the transport for this attempt.
    pub request_sent: Request,
    /// What the transport returned, passed to the policy uninterpreted.
    pub outcome: Result<Response, Error>,
    /// The chain state before the policy's decision call.
    pub state_in: S,
    /// The chain state after the policy's decision call.
    pub state_out: S,
    /// The request value after the policy's decision call; resent verbatim
    /// if the chain continues.
    pub request_out: Request,
    /// The policy's verdict on this attempt.
    pub decision: Decision,
}

/// The attempts of one chain form a linked sequence: the first attempt
/// sends the inbound request untouched, every later attempt sends exactly
/// the request the previous decision call left behind and sees exactly the
/// state it left behind, and only the final attempt may carry a terminal
/// decision.
pub open spec fn history_linked<S>(h: Seq<Step<S>>, inbound: Request) -> bool {
    &&& (h.len() > 0 ==> h[0].request_sent == inbound)
    &&& (forall|i: int|
        1 <= i < h.len() ==> (#[trigger] h[i]).state_in == h[i - 1].state_out
            && h[i].request_sent == h[i - 1].request_out)
    &&& (forall|i: int| 0 <= i < h.len() - 1 ==> (#[trigger] h[i]).decision is Continue)
}

/// How a chain's terminal result follows from its history: an empty
/// history means the safety valve fired before the first send (only
/// possible when the maximum is zero); otherwise the last decision settles
/// the result, with a trailing `Continue` meaning the counter reached the
/// maximum and the engine's own error is returned.
pub open spec fn result_of_history<S>(
    result: Result<Response, Error>,
    h: Seq<Step<S>>,
    max: u32,
) -> bool {
    if h.len() == 0 {
        &&& result == Err::<Response, Error>(Error::ChainLengthExceeded)
        &&& max == 0
    } else {
        match h.last().decision {
            Decision::Continue => {
                &&& result == Err::<Response, Error>(Error::ChainLengthExceeded)
                &&& h.len() == max as int
            },
            Decision::Finish(response) => result == Ok::<Response, Error>(response),
            Decision::Fail(error) => result == Err::<Response, Error>(error),
        }
    }
}

} // verus!
