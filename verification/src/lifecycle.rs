//! The life of one balance-changing intent, from draft to its end.
//!
//! A privileged intent (a withdrawal, a transfer into or out of a pool)
//! waits for authorization before it is queued; a deposit is queued at once.
//! A queued intent becomes a pending request with the network. It ends
//! applied, failed or rejected, and an ended intent goes nowhere.

use vstd::prelude::*;
use crate::confidential::CallbackOutcome;
use crate::error::ErrorCode;

verus! {

/// Where an intent stands.
#[derive(Clone, Copy, Debug, PartialEq, Eq, Structural)]
pub enum IntentState {
    Draft,
    AuthorizationPending,
    Queued,
    AwaitingComputation,
    Applied,
    Rejected,
    Failed,
}

/// What can happen to an intent.
#[derive(Clone, Copy, Debug, PartialEq, Eq, Structural)]
pub enum IntentEvent {
    /// The intent is submitted; `privileged` says whether it needs the oracle.
    Submitted { privileged: bool },
    /// The authorization statement passed.
    Authorized,
    /// The authorization statement was rejected.
    AuthorizationRejected,
    /// The request was opened and handed to the network.
    Dispatched,
    /// The request could not be opened.
    DispatchRefused,
    /// A callback was turned away before anything was written.
    CallbackRefused,
    /// The network's answer was written.
    CallbackApplied,
    /// The network reported a fault or a refusal, or the request timed out.
    CallbackFailed,
}

impl IntentState {
    /// Whether the intent has ended.
    pub open spec fn is_terminal(self) -> bool {
        self == IntentState::Applied || self == IntentState::Rejected || self
            == IntentState::Failed
    }

    /// Whether the intent has ended.
    pub fn ended(&self) -> (ended: bool)
        ensures
            ended == self.is_terminal(),
    {
        match self {
            IntentState::Applied | IntentState::Rejected | IntentState::Failed => true,
            _ => false,
        }
    }
}

/// Where an event takes an intent, if the event can occur in its state.
pub open spec fn next_state(state: IntentState, event: IntentEvent) -> Option<IntentState> {
    match (state, event) {
        (IntentState::Draft, IntentEvent::Submitted { privileged }) => Some(
            if privileged {
                IntentState::AuthorizationPending
            } else {
                IntentState::Queued
            },
        ),
        (IntentState::AuthorizationPending, IntentEvent::Authorized) => Some(IntentState::Queued),
        (IntentState::AuthorizationPending, IntentEvent::AuthorizationRejected) => Some(
            IntentState::Rejected,
        ),
        (IntentState::Queued, IntentEvent::Dispatched) => Some(IntentState::AwaitingComputation),
        (IntentState::Queued, IntentEvent::DispatchRefused) => Some(IntentState::Rejected),
        (IntentState::AwaitingComputation, IntentEvent::CallbackRefused) => Some(
            IntentState::AwaitingComputation,
        ),
        (IntentState::AwaitingComputation, IntentEvent::CallbackApplied) => Some(
            IntentState::Applied,
        ),
        (IntentState::AwaitingComputation, IntentEvent::CallbackFailed) => Some(
            IntentState::Failed,
        ),
        _ => None,
    }
}

/// Moves an intent by one event, or says that the event cannot occur now.
pub fn advance(state: IntentState, event: IntentEvent) -> (next: Option<IntentState>)
    ensures
        next == next_state(state, event),
        state.is_terminal() ==> next is None,
{
    match (state, event) {
        (IntentState::Draft, IntentEvent::Submitted { privileged }) => {
            if privileged {
                Some(IntentState::AuthorizationPending)
            } else {
                Some(IntentState::Queued)
            }
        },
        (IntentState::AuthorizationPending, IntentEvent::Authorized) => Some(IntentState::Queued),
        (IntentState::AuthorizationPending, IntentEvent::AuthorizationRejected) => Some(
            IntentState::Rejected,
        ),
        (IntentState::Queued, IntentEvent::Dispatched) => Some(IntentState::AwaitingComputation),
        (IntentState::Queued, IntentEvent::DispatchRefused) => Some(IntentState::Rejected),
        (IntentState::AwaitingComputation, IntentEvent::CallbackRefused) => Some(
            IntentState::AwaitingComputation,
        ),
        (IntentState::AwaitingComputation, IntentEvent::CallbackApplied) => Some(
            IntentState::Applied,
        ),
        (IntentState::AwaitingComputation, IntentEvent::CallbackFailed) => Some(
            IntentState::Failed,
        ),
        _ => None,
    }
}

/// An ended intent goes nowhere, and an answer is applied only to an intent
/// that is awaiting its computation.
pub proof fn ended_intents_stay_ended(state: IntentState, event: IntentEvent)
    ensures
        state.is_terminal() ==> next_state(state, event) is None,
        next_state(state, event) == Some(IntentState::Applied) ==> state
            == IntentState::AwaitingComputation,
        next_state(state, event) == Some(IntentState::Failed) ==> state
            == IntentState::AwaitingComputation,
{
}

/// The event that the outcome of a callback instruction is for its intent.
pub open spec fn callback_event_of(outcome: Result<CallbackOutcome, ErrorCode>) -> IntentEvent {
    match outcome {
        Ok(CallbackOutcome::Applied { .. }) => IntentEvent::CallbackApplied,
        Ok(CallbackOutcome::Failed { .. }) => IntentEvent::CallbackFailed,
        Err(_) => IntentEvent::CallbackRefused,
    }
}

/// The event that the outcome of a callback instruction is for its intent.
pub fn callback_event(outcome: &Result<CallbackOutcome, ErrorCode>) -> (event: IntentEvent)
    ensures
        event == callback_event_of(*outcome),
{
    match outcome {
        Ok(CallbackOutcome::Applied { .. }) => IntentEvent::CallbackApplied,
        Ok(CallbackOutcome::Failed { .. }) => IntentEvent::CallbackFailed,
        Err(_) => IntentEvent::CallbackRefused,
    }
}

} // verus!
