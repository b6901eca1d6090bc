//! What can go wrong with a generation, and who gets to know.

use vstd::prelude::*;
use crate::relay::connection::{connection_step, ConnectionAction, ConnectionInput, ConnectionPhase};
use crate::relay::event::{GenerationEvent, GenerationEventView};
use crate::relay::transform::{relay_step, RelayActionView, RelayInput, RelayInputView, RelayView};

verus! {

/// The kinds of failure of a generation request.
#[derive(Debug, Clone, Copy, PartialEq, Eq, Structural)]
pub enum GenerationError {
    /// The provider did not accept the credential.
    CredentialInvalid,
    /// The provider or the network failed while the text streamed.
    ProviderStreamFailure,
    /// The conversation store did not take the finished text.
    PersistenceFailure,
    /// The client went away. A cancellation, not a fault.
    ClientDisconnected,
}

/// Who gets to know of a failure.
#[derive(Debug, Clone, Copy, PartialEq, Eq, Structural)]
pub enum Propagation {
    /// The caller is turned away before anything is allocated.
    Rejection,
    /// The client receives a failure fragment, which ends the generation.
    TerminalFragment,
    /// The operators are told; the client keeps what it has seen.
    OperatorsOnly,
    /// Nobody is told: the work is cancelled.
    Silent,
}

impl GenerationError {
    /// How each kind of failure is made known.
    pub open spec fn policy(self) -> Propagation {
        match self {
            GenerationError::CredentialInvalid => Propagation::Rejection,
            GenerationError::ProviderStreamFailure => Propagation::TerminalFragment,
            GenerationError::PersistenceFailure => Propagation::OperatorsOnly,
            GenerationError::ClientDisconnected => Propagation::Silent,
        }
    }

    /// How this failure is made known.
    pub fn propagation(&self) -> (propagation: Propagation)
        ensures
            propagation == self.policy(),
    {
        match self {
            GenerationError::CredentialInvalid => Propagation::Rejection,
            GenerationError::ProviderStreamFailure => Propagation::TerminalFragment,
            GenerationError::PersistenceFailure => Propagation::OperatorsOnly,
            GenerationError::ClientDisconnected => Propagation::Silent,
        }
    }
}

/// The failure that an input of the relay transform reports, if any.
pub open spec fn relay_failure(input: RelayInputView) -> Option<GenerationError> {
    match input {
        RelayInputView::Event(GenerationEventView::Failed(_)) => Some(
            GenerationError::ProviderStreamFailure,
        ),
        RelayInputView::ChannelClosed => Some(GenerationError::ProviderStreamFailure),
        RelayInputView::StoreFailed => Some(GenerationError::PersistenceFailure),
        _ => None,
    }
}

/// The failure that an input of a connection reports, if any.
pub open spec fn connection_failure(input: ConnectionInput) -> Option<GenerationError> {
    match input {
        ConnectionInput::ProbeFailed => Some(GenerationError::CredentialInvalid),
        ConnectionInput::ClientGone => Some(GenerationError::ClientDisconnected),
        _ => None,
    }
}

/// Says which failure an input of the relay transform reports.
pub fn failure_of_relay_input(input: &RelayInput) -> (failure: Option<GenerationError>)
    ensures
        failure == relay_failure(input@),
{
    match input {
        RelayInput::Event(GenerationEvent::Failed(_)) => Some(
            GenerationError::ProviderStreamFailure,
        ),
        RelayInput::ChannelClosed => Some(GenerationError::ProviderStreamFailure),
        RelayInput::StoreFailed => Some(GenerationError::PersistenceFailure),
        _ => None,
    }
}

/// Says which failure an input of a connection reports.
pub fn failure_of_connection_input(input: ConnectionInput) -> (failure: Option<GenerationError>)
    ensures
        failure == connection_failure(input),
{
    match input {
        ConnectionInput::ProbeFailed => Some(GenerationError::CredentialInvalid),
        ConnectionInput::ClientGone => Some(GenerationError::ClientDisconnected),
        _ => None,
    }
}

/// A failure of the store never reaches the client and never stores again:
/// the step that learns of it pushes no fragment.
pub proof fn law_store_failure_is_not_shown(state: RelayView)
    ensures
        relay_step(state, RelayInputView::StoreFailed).1 is ReportStoreFailure || relay_step(
            state,
            RelayInputView::StoreFailed,
        ).1 is Ignore,
        relay_step(state, RelayInputView::StoreFailed).0.accumulated == state.accumulated,
{
}

/// A failure of the provider is shown once and never retried: a transform
/// that still receives pushes the failure fragment and is then terminal.
pub proof fn law_provider_failure_ends_the_generation(state: RelayView, cause: Seq<char>)
    requires
        state.phase.is_receiving(),
    ensures
        relay_step(state, RelayInputView::Event(GenerationEventView::Failed(cause))).1 is Fail,
        relay_step(
            state,
            RelayInputView::Event(GenerationEventView::Failed(cause)),
        ).0.phase.is_terminal(),
{
}

/// A client that goes away is told nothing and turned away from nothing: the
/// connection closes, and the producer is cancelled if there is one.
pub proof fn law_disconnect_is_silent(phase: ConnectionPhase)
    ensures
        connection_step(phase, ConnectionInput::ClientGone).0 == ConnectionPhase::Closed,
        connection_step(phase, ConnectionInput::ClientGone).1 == (if phase
            == ConnectionPhase::Streaming {
            ConnectionAction::CancelProducer
        } else {
            ConnectionAction::Ignore
        }),
{
}

} // verus!
