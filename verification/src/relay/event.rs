//! The vocabulary shared by the producer and the relay transform.

use vstd::prelude::*;

verus! {

/// What the upstream client reports while a generation streams.
#[derive(Debug, Clone, PartialEq, Eq)]
pub enum GenerationEvent {
    /// A further piece of generated text.
    Delta(String),
    /// The stream has ended; the payload is the whole generated text.
    Completed(String),
    /// The stream has failed; the payload names the cause.
    Failed(String),
}

/// A [`GenerationEvent`] with its texts as sequences of characters.
pub enum GenerationEventView {
    Delta(Seq<char>),
    Completed(Seq<char>),
    Failed(Seq<char>),
}

impl GenerationEventView {
    /// `Completed` and `Failed` end a stream.
    pub open spec fn is_terminal(self) -> bool {
        !(self is Delta)
    }
}

impl View for GenerationEvent {
    type V = GenerationEventView;

    open spec fn view(&self) -> GenerationEventView {
        match self {
            GenerationEvent::Delta(text) => GenerationEventView::Delta(text@),
            GenerationEvent::Completed(text) => GenerationEventView::Completed(text@),
            GenerationEvent::Failed(cause) => GenerationEventView::Failed(cause@),
        }
    }
}

impl GenerationEvent {
    /// Whether this event ends its stream.
    pub fn is_terminal(&self) -> (terminal: bool)
        ensures
            terminal == self@.is_terminal(),
    {
        match self {
            GenerationEvent::Delta(_) => false,
            GenerationEvent::Completed(_) => true,
            GenerationEvent::Failed(_) => true,
        }
    }
}

} // verus!
