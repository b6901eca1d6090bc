//! The relay transform: the state machine between the channel and the client.
//!
//! The caller reads the channel and feeds each event to [`RelayTransform::step`].
//! The step returns what is to be done: push a fragment, push the final
//! fragment and append the text to the conversation store, report a failure,
//! or close. The transform never waits and never writes by itself.

use vstd::prelude::*;
use vstd::string::StringExecFns;
use crate::relay::event::{GenerationEvent, GenerationEventView};
use crate::relay::render::{
    append_fragment, failure_fragment, render_append, render_failure, render_replace,
    replace_fragment, Fragment, FragmentView,
};

verus! {

/// Where a relay transform stands.
#[derive(Debug, Clone, Copy, PartialEq, Eq, Structural)]
pub enum RelayPhase {
    /// No partial text yet.
    Idle,
    /// At least one delta has arrived.
    Accumulating,
    /// The completion has arrived and the store append is in flight.
    Finalizing,
    /// The generation is complete. Terminal.
    Done,
    /// The generation failed or ended without completing. Terminal.
    Errored,
}

impl RelayPhase {
    /// `Done` and `Errored` are left by no input.
    pub open spec fn is_terminal(self) -> bool {
        self == RelayPhase::Done || self == RelayPhase::Errored
    }

    /// `Idle` and `Accumulating` take events from the channel.
    pub open spec fn is_receiving(self) -> bool {
        self == RelayPhase::Idle || self == RelayPhase::Accumulating
    }
}

/// What the caller hands to the transform.
#[derive(Debug, Clone, PartialEq, Eq)]
pub enum RelayInput {
    /// The next event from the channel.
    Event(GenerationEvent),
    /// The channel is empty and its producer is gone.
    ChannelClosed,
    /// The conversation store took the text.
    Stored,
    /// The conversation store refused the text.
    StoreFailed,
}

/// A [`RelayInput`] over sequences of characters.
pub enum RelayInputView {
    Event(GenerationEventView),
    ChannelClosed,
    Stored,
    StoreFailed,
}

impl View for RelayInput {
    type V = RelayInputView;

    open spec fn view(&self) -> RelayInputView {
        match self {
            RelayInput::Event(event) => RelayInputView::Event(event@),
            RelayInput::ChannelClosed => RelayInputView::ChannelClosed,
            RelayInput::Stored => RelayInputView::Stored,
            RelayInput::StoreFailed => RelayInputView::StoreFailed,
        }
    }
}

/// What the caller is to do after a step.
#[derive(Debug, Clone, PartialEq, Eq)]
pub enum RelayAction {
    /// Push an incremental fragment and read on.
    Push(Fragment),
    /// Push the final fragment, then append `text` to the turn `turn_id` in
    /// the conversation store and hand the outcome back as
    /// [`RelayInput::Stored`] or [`RelayInput::StoreFailed`].
    Finish { fragment: Fragment, turn_id: i64, text: String },
    /// Push the failure fragment and close the connection. No retry.
    Fail(Fragment),
    /// Close the connection.
    Close,
    /// Report to the operators that the store append for `turn_id` failed,
    /// then close the connection. The client is told nothing.
    ReportStoreFailure { turn_id: i64 },
    /// Nothing to do: the input came out of turn.
    Ignore,
}

/// A [`RelayAction`] over sequences of characters.
pub enum RelayActionView {
    Push(FragmentView),
    Finish { fragment: FragmentView, turn_id: i64, text: Seq<char> },
    Fail(FragmentView),
    Close,
    ReportStoreFailure { turn_id: i64 },
    Ignore,
}

impl View for RelayAction {
    type V = RelayActionView;

    open spec fn view(&self) -> RelayActionView {
        match self {
            RelayAction::Push(fragment) => RelayActionView::Push(fragment@),
            RelayAction::Finish { fragment, turn_id, text } => RelayActionView::Finish {
                fragment: fragment@,
                turn_id: *turn_id,
                text: text@,
            },
            RelayAction::Fail(fragment) => RelayActionView::Fail(fragment@),
            RelayAction::Close => RelayActionView::Close,
            RelayAction::ReportStoreFailure { turn_id } => RelayActionView::ReportStoreFailure {
                turn_id: *turn_id,
            },
            RelayAction::Ignore => RelayActionView::Ignore,
        }
    }
}

/// The state of a relay transform as a mathematical value.
pub struct RelayView {
    pub phase: RelayPhase,
    /// Every delta so far, in order of arrival, as one text.
    pub accumulated: Seq<char>,
    /// The turn that the generated text belongs to.
    pub turn_id: i64,
}

impl RelayView {
    /// The state of a fresh transform for a turn.
    pub open spec fn initial(turn_id: i64) -> RelayView {
        RelayView { phase: RelayPhase::Idle, accumulated: Seq::empty(), turn_id }
    }

    /// The accumulator holds text only between the first delta and the
    /// terminal event.
    pub open spec fn wf(self) -> bool {
        self.phase == RelayPhase::Accumulating || self.phase == RelayPhase::Errored
            || self.accumulated == Seq::<char>::empty()
    }
}

/// One step of the relay transform: the next state and the action.
///
/// While receiving, a delta is appended and the whole accumulated text is
/// rendered again; a completion renders its own text as the final fragment,
/// asks for that text to be stored and empties the accumulator; a failure or
/// a closed channel ends in `Errored`. While finalizing, only the outcome of
/// the store append counts. A terminal state is left by nothing.
pub open spec fn relay_step(state: RelayView, input: RelayInputView) -> (RelayView, RelayActionView) {
    if state.phase.is_receiving() {
        match input {
            RelayInputView::Event(GenerationEventView::Delta(text)) => {
                let accumulated = state.accumulated + text;
                (
                    RelayView { phase: RelayPhase::Accumulating, accumulated, ..state },
                    RelayActionView::Push(append_fragment(accumulated)),
                )
            },
            RelayInputView::Event(GenerationEventView::Completed(text)) => (
                RelayView { phase: RelayPhase::Finalizing, accumulated: Seq::empty(), ..state },
                RelayActionView::Finish {
                    fragment: replace_fragment(text),
                    turn_id: state.turn_id,
                    text,
                },
            ),
            RelayInputView::Event(GenerationEventView::Failed(cause)) => (
                RelayView { phase: RelayPhase::Errored, ..state },
                RelayActionView::Fail(failure_fragment(cause)),
            ),
            RelayInputView::ChannelClosed => (
                RelayView { phase: RelayPhase::Errored, ..state },
                RelayActionView::Close,
            ),
            _ => (state, RelayActionView::Ignore),
        }
    } else if state.phase == RelayPhase::Finalizing {
        match input {
            RelayInputView::Stored => (
                RelayView { phase: RelayPhase::Done, ..state },
                RelayActionView::Close,
            ),
            RelayInputView::StoreFailed => (
                RelayView { phase: RelayPhase::Done, ..state },
                RelayActionView::ReportStoreFailure { turn_id: state.turn_id },
            ),
            RelayInputView::Event(GenerationEventView::Failed(cause)) => (
                RelayView { phase: RelayPhase::Errored, ..state },
                RelayActionView::Fail(failure_fragment(cause)),
            ),
            _ => (state, RelayActionView::Ignore),
        }
    } else {
        (state, RelayActionView::Ignore)
    }
}

/// The consumer side of one generation: the phase, the accumulated text and
/// the turn that the result belongs to.
#[derive(Debug)]
pub struct RelayTransform {
    phase: RelayPhase,
    accumulator: String,
    turn_id: i64,
}

impl View for RelayTransform {
    type V = RelayView;

    closed spec fn view(&self) -> RelayView {
        RelayView { phase: self.phase, accumulated: self.accumulator@, turn_id: self.turn_id }
    }
}

impl RelayTransform {
    /// A transform for one generation request on the turn `turn_id`.
    pub fn new(turn_id: i64) -> (relay: RelayTransform)
        ensures
            relay@ == RelayView::initial(turn_id),
    {
        RelayTransform { phase: RelayPhase::Idle, accumulator: String::new(), turn_id }
    }

    /// The phase that the transform is in.
    pub fn phase(&self) -> (phase: RelayPhase)
        ensures
            phase == self@.phase,
    {
        self.phase
    }

    /// The turn that the generated text belongs to.
    pub fn turn_id(&self) -> (turn_id: i64)
        ensures
            turn_id == self@.turn_id,
    {
        self.turn_id
    }

    /// The text accumulated so far.
    pub fn accumulated(&self) -> (text: &str)
        ensures
            text@ == self@.accumulated,
    {
        self.accumulator.as_str()
    }

    /// Whether the connection is to be closed: nothing leaves this state.
    pub fn is_terminal(&self) -> (terminal: bool)
        ensures
            terminal == self@.phase.is_terminal(),
    {
        self.phase == RelayPhase::Done || self.phase == RelayPhase::Errored
    }

    /// Takes one input and says what the caller is to do.
    pub fn step(&mut self, input: RelayInput) -> (action: RelayAction)
        ensures
            (final(self)@, action@) == relay_step(old(self)@, input@),
    {
        if self.phase == RelayPhase::Idle || self.phase == RelayPhase::Accumulating {
            match input {
                RelayInput::Event(GenerationEvent::Delta(text)) => {
                    self.accumulator.append(text.as_str());
                    self.phase = RelayPhase::Accumulating;
                    RelayAction::Push(render_append(self.accumulator.as_str()))
                },
                RelayInput::Event(GenerationEvent::Completed(text)) => {
                    let fragment = render_replace(text.as_str());
                    self.accumulator = String::new();
                    self.phase = RelayPhase::Finalizing;
                    RelayAction::Finish { fragment, turn_id: self.turn_id, text }
                },
                RelayInput::Event(GenerationEvent::Failed(cause)) => {
                    self.phase = RelayPhase::Errored;
                    RelayAction::Fail(render_failure(cause))
                },
                RelayInput::ChannelClosed => {
                    self.phase = RelayPhase::Errored;
                    RelayAction::Close
                },
                _ => RelayAction::Ignore,
            }
        } else if self.phase == RelayPhase::Finalizing {
            match input {
                RelayInput::Stored => {
                    self.phase = RelayPhase::Done;
                    RelayAction::Close
                },
                RelayInput::StoreFailed => {
                    self.phase = RelayPhase::Done;
                    RelayAction::ReportStoreFailure { turn_id: self.turn_id }
                },
                RelayInput::Event(GenerationEvent::Failed(cause)) => {
                    self.phase = RelayPhase::Errored;
                    RelayAction::Fail(render_failure(cause))
                },
                _ => RelayAction::Ignore,
            }
        } else {
            RelayAction::Ignore
        }
    }
}

} // verus!
