//! A request-chaining engine for an HTTP client pipeline.
//!
//! A caller supplies a policy that inspects the outcome of each send
//! attempt and decides whether to issue a follow-up request (mutating the
//! request in place) or to terminate the chain with a final result. The
//! engine drives the request/response/decision loop to a terminal state,
//! bounded by the policy's maximum chain length.

mod chainable;
mod driver;
mod history;
mod laws;
mod message;
mod retry;

pub use chainable::ChainMiddleware;
pub use chainable::ChainOutcome;
pub use chainable::Chainer;
pub use chainable::DEFAULT_MAXIMUM_CHAIN_LENGTH;
pub use chainable::Transport;
pub use chainable::decided_by;
pub use chainable::run_contract;
pub use driver::ChainDriver;
pub use history::Decision;
pub use history::Step;
pub use history::decision_of;
pub use history::history_linked;
pub use history::raw_of;
pub use history::result_of_history;
pub use laws::lemma_attempts_bounded;
pub use laws::lemma_error_returned_unchanged;
pub use laws::lemma_limit_check_exact;
pub use laws::lemma_response_returned_unchanged;
pub use laws::lemma_state_fresh_and_threaded;
pub use message::Error;
pub use message::Request;
pub use message::Response;
pub use retry::RetryOnServerError;
pub use retry::lemma_retry_bounds_attempts;
pub use retry::lemma_retry_returns_last_server_error;
pub use retry::lemma_retry_state_counts_attempts;
pub use retry::retry_decision;
pub use retry::server_error_outcome;
