//! The producer task: what it does between the upstream client and the channel.
//!
//! The task itself waits on the provider and on the channel. After each wait it
//! hands the outcome to [`Producer::step`], which says what to do next: read
//! the next event, send one into the channel, or stop. The producer holds no
//! state but its own phase.

use vstd::prelude::*;
use crate::relay::event::{GenerationEvent, GenerationEventView};

verus! {

/// How many events the channel between producer and relay holds.
pub const CHANNEL_CAPACITY: usize = 10;

/// Where a producer stands.
#[derive(Debug, Clone, Copy, PartialEq, Eq, Structural)]
pub enum ProducerPhase {
    /// Waiting for the next event of the upstream client.
    Reading,
    /// Waiting for the channel to take a delta.
    Sending,
    /// Waiting for the channel to take the terminal event.
    SendingLast,
    /// The task has ended. Terminal.
    Stopped,
}

/// The outcome of a wait.
#[derive(Debug, Clone, PartialEq, Eq)]
pub enum ProducerInput {
    /// The upstream client gave an event.
    Upstream(GenerationEvent),
    /// The upstream client has nothing more.
    UpstreamEnded,
    /// The channel took the event.
    Sent,
    /// The consumer of the channel is gone.
    ReceiverGone,
    /// The request was cancelled.
    Cancelled,
}

/// A [`ProducerInput`] over sequences of characters.
pub enum ProducerInputView {
    Upstream(GenerationEventView),
    UpstreamEnded,
    Sent,
    ReceiverGone,
    Cancelled,
}

impl View for ProducerInput {
    type V = ProducerInputView;

    open spec fn view(&self) -> ProducerInputView {
        match self {
            ProducerInput::Upstream(event) => ProducerInputView::Upstream(event@),
            ProducerInput::UpstreamEnded => ProducerInputView::UpstreamEnded,
            ProducerInput::Sent => ProducerInputView::Sent,
            ProducerInput::ReceiverGone => ProducerInputView::ReceiverGone,
            ProducerInput::Cancelled => ProducerInputView::Cancelled,
        }
    }
}

/// What the task is to do next.
#[derive(Debug, Clone, PartialEq, Eq)]
pub enum ProducerAction {
    /// Wait for the next event of the upstream client, or for cancellation.
    Read,
    /// Send the event into the channel, waiting while it is full.
    Send(GenerationEvent),
    /// Drop the upstream call and the sender, and end.
    Stop,
}

/// A [`ProducerAction`] over sequences of characters.
pub enum ProducerActionView {
    Read,
    Send(GenerationEventView),
    Stop,
}

impl View for ProducerAction {
    type V = ProducerActionView;

    open spec fn view(&self) -> ProducerActionView {
        match self {
            ProducerAction::Read => ProducerActionView::Read,
            ProducerAction::Send(event) => ProducerActionView::Send(event@),
            ProducerAction::Stop => ProducerActionView::Stop,
        }
    }
}

/// One step of the producer: the next phase and the action.
///
/// An event read is sent on as it is. After a delta was taken the producer
/// reads again; after the terminal event was taken it stops. It also stops
/// when the consumer is gone, on cancellation, when the upstream ends, and on
/// an outcome that it was not waiting for.
pub open spec fn producer_step(phase: ProducerPhase, input: ProducerInputView) -> (
    ProducerPhase,
    ProducerActionView,
) {
    match (phase, input) {
        (ProducerPhase::Reading, ProducerInputView::Upstream(event)) => (
            if event.is_terminal() {
                ProducerPhase::SendingLast
            } else {
                ProducerPhase::Sending
            },
            ProducerActionView::Send(event),
        ),
        (ProducerPhase::Sending, ProducerInputView::Sent) => (
            ProducerPhase::Reading,
            ProducerActionView::Read,
        ),
        _ => (ProducerPhase::Stopped, ProducerActionView::Stop),
    }
}

/// The producer side of one generation.
#[derive(Debug)]
pub struct Producer {
    phase: ProducerPhase,
}

impl View for Producer {
    type V = ProducerPhase;

    closed spec fn view(&self) -> ProducerPhase {
        self.phase
    }
}

impl Producer {
    /// A producer that is about to read its first event.
    pub fn new() -> (producer: Producer)
        ensures
            producer@ == ProducerPhase::Reading,
    {
        Producer { phase: ProducerPhase::Reading }
    }

    /// The phase that the producer is in.
    pub fn phase(&self) -> (phase: ProducerPhase)
        ensures
            phase == self@,
    {
        self.phase
    }

    /// Takes the outcome of the last wait and says what to do next.
    pub fn step(&mut self, input: ProducerInput) -> (action: ProducerAction)
        ensures
            (final(self)@, action@) == producer_step(old(self)@, input@),
    {
        match input {
            ProducerInput::Upstream(event) => {
                if self.phase == ProducerPhase::Reading {
                    if event.is_terminal() {
                        self.phase = ProducerPhase::SendingLast;
                    } else {
                        self.phase = ProducerPhase::Sending;
                    }
                    return ProducerAction::Send(event);
                }
            },
            ProducerInput::Sent => {
                if self.phase == ProducerPhase::Sending {
                    self.phase = ProducerPhase::Reading;
                    return ProducerAction::Read;
                }
            },
            _ => {},
        }
        self.phase = ProducerPhase::Stopped;
        ProducerAction::Stop
    }
}

/// The phase that a run of outcomes leads to.
pub open spec fn producer_run(phase: ProducerPhase, inputs: Seq<ProducerInputView>) -> ProducerPhase
    decreases inputs.len(),
{
    if inputs.len() == 0 {
        phase
    } else {
        producer_run(producer_step(phase, inputs.first()).0, inputs.drop_first())
    }
}

/// The actions of a run, one for each outcome, in order.
pub open spec fn producer_actions(phase: ProducerPhase, inputs: Seq<ProducerInputView>) -> Seq<
    ProducerActionView,
>
    decreases inputs.len(),
{
    if inputs.len() == 0 {
        Seq::empty()
    } else {
        seq![producer_step(phase, inputs.first()).1] + producer_actions(
            producer_step(phase, inputs.first()).0,
            inputs.drop_first(),
        )
    }
}

/// An outcome on which the producer stops whatever it was doing.
pub open spec fn stops_producer(input: ProducerInputView) -> bool {
    input is ReceiverGone || input is Cancelled || input is UpstreamEnded
}

/// A run has one action for each outcome.
pub proof fn law_one_action_per_outcome(phase: ProducerPhase, inputs: Seq<ProducerInputView>)
    ensures
        producer_actions(phase, inputs).len() == inputs.len(),
    decreases inputs.len(),
{
    if inputs.len() > 0 {
        law_one_action_per_outcome(producer_step(phase, inputs.first()).0, inputs.drop_first());
    }
}

/// A stopped producer stays stopped: it never reads or sends again.
pub proof fn law_stopped_producer_stays_stopped(inputs: Seq<ProducerInputView>)
    ensures
        producer_run(ProducerPhase::Stopped, inputs) == ProducerPhase::Stopped,
        forall|j: int|
            0 <= j < inputs.len() ==> #[trigger] producer_actions(ProducerPhase::Stopped, inputs)[j]
                == ProducerActionView::Stop,
    decreases inputs.len(),
{
    if inputs.len() > 0 {
        let rest = inputs.drop_first();
        law_stopped_producer_stays_stopped(rest);
        law_one_action_per_outcome(ProducerPhase::Stopped, rest);
        assert forall|j: int| 0 <= j < inputs.len() implies #[trigger] producer_actions(
            ProducerPhase::Stopped,
            inputs,
        )[j] == ProducerActionView::Stop by {
            if j > 0 {
                assert(producer_actions(ProducerPhase::Stopped, inputs)[j] == producer_actions(
                    ProducerPhase::Stopped,
                    rest,
                )[j - 1]);
            }
        }
    }
}

/// From the step that learns that the consumer is gone, that the request was
/// cancelled or that the upstream has ended, the producer is stopped: that
/// step and every later one answer `Stop`, whatever phase the run began in
/// and whatever else comes.
pub proof fn law_producer_stops_at_once(
    phase: ProducerPhase,
    inputs: Seq<ProducerInputView>,
    k: int,
)
    requires
        0 <= k < inputs.len(),
        stops_producer(inputs[k]),
    ensures
        producer_run(phase, inputs) == ProducerPhase::Stopped,
        forall|j: int|
            k <= j < inputs.len() ==> #[trigger] producer_actions(phase, inputs)[j]
                == ProducerActionView::Stop,
    decreases inputs.len(),
{
    let next = producer_step(phase, inputs.first()).0;
    let rest = inputs.drop_first();
    law_one_action_per_outcome(next, rest);
    if k == 0 {
        law_stopped_producer_stays_stopped(rest);
    } else {
        assert(rest[k - 1] == inputs[k]);
        law_producer_stops_at_once(next, rest, k - 1);
    }
    assert forall|j: int| k <= j < inputs.len() implies #[trigger] producer_actions(
        phase,
        inputs,
    )[j] == ProducerActionView::Stop by {
        if j > 0 {
            assert(producer_actions(phase, inputs)[j] == producer_actions(next, rest)[j - 1]);
        }
    }
}

/// An event read is sent on unchanged, and a delta taken by the channel is
/// followed by the next read: nothing is dropped, merged or reordered.
pub proof fn law_events_are_forwarded_in_order(event: GenerationEventView)
    ensures
        producer_step(ProducerPhase::Reading, ProducerInputView::Upstream(event)).1
            == ProducerActionView::Send(event),
        !event.is_terminal() ==> producer_run(
            ProducerPhase::Reading,
            seq![ProducerInputView::Upstream(event), ProducerInputView::Sent],
        ) == ProducerPhase::Reading,
        event.is_terminal() ==> producer_run(
            ProducerPhase::Reading,
            seq![ProducerInputView::Upstream(event), ProducerInputView::Sent],
        ) == ProducerPhase::Stopped,
{
    let inputs = seq![ProducerInputView::Upstream(event), ProducerInputView::Sent];
    let next = producer_step(ProducerPhase::Reading, inputs.first()).0;
    let rest = inputs.drop_first();
    assert(rest.first() == ProducerInputView::Sent);
    assert(rest.drop_first().len() == 0);
    assert(producer_run(next, rest) == producer_run(
        producer_step(next, rest.first()).0,
        rest.drop_first(),
    ));
}

/// The events that the actions send into the channel, in order.
pub open spec fn sent_events(actions: Seq<ProducerActionView>) -> Seq<GenerationEventView>
    decreases actions.len(),
{
    if actions.len() == 0 {
        Seq::empty()
    } else {
        (match actions.first() {
            ProducerActionView::Send(event) => seq![event],
            _ => Seq::empty(),
        }) + sent_events(actions.drop_first())
    }
}

/// The outcomes of a run in which the upstream gives these events one by one
/// and the channel takes each.
pub open spec fn served(events: Seq<GenerationEventView>) -> Seq<ProducerInputView>
    decreases events.len(),
{
    if events.len() == 0 {
        Seq::empty()
    } else {
        seq![ProducerInputView::Upstream(events.first()), ProducerInputView::Sent] + served(
            events.drop_first(),
        )
    }
}

/// The events up to the first terminal one, and that one.
pub open spec fn until_terminal(events: Seq<GenerationEventView>) -> Seq<GenerationEventView>
    decreases events.len(),
{
    if events.len() == 0 {
        Seq::empty()
    } else if events.first().is_terminal() {
        seq![events.first()]
    } else {
        seq![events.first()] + until_terminal(events.drop_first())
    }
}

proof fn lemma_sent_events_cons(action: ProducerActionView, rest: Seq<ProducerActionView>)
    ensures
        sent_events(seq![action] + rest) == (match action {
            ProducerActionView::Send(event) => seq![event],
            _ => Seq::empty(),
        }) + sent_events(rest),
{
    assert((seq![action] + rest).drop_first() =~= rest);
}

proof fn lemma_stopped_producer_sends_nothing(inputs: Seq<ProducerInputView>)
    ensures
        sent_events(producer_actions(ProducerPhase::Stopped, inputs)) == Seq::<
            GenerationEventView,
        >::empty(),
    decreases inputs.len(),
{
    if inputs.len() > 0 {
        let rest = inputs.drop_first();
        lemma_stopped_producer_sends_nothing(rest);
        lemma_sent_events_cons(
            ProducerActionView::Stop,
            producer_actions(ProducerPhase::Stopped, rest),
        );
        assert(sent_events(producer_actions(ProducerPhase::Stopped, inputs)) =~= Seq::empty());
    }
}

/// While the channel takes what it is given, the producer sends exactly what
/// the upstream gives, each event once and in the order of arrival, up to
/// the terminal event and nothing after it.
pub proof fn law_channel_gets_the_events_in_order(events: Seq<GenerationEventView>)
    ensures
        sent_events(producer_actions(ProducerPhase::Reading, served(events))) == until_terminal(
            events,
        ),
    decreases events.len(),
{
    if events.len() > 0 {
        let event = events.first();
        let tail = served(events.drop_first());
        let inputs = served(events);
        let (second, send) = producer_step(ProducerPhase::Reading, inputs.first());
        let after_first = inputs.drop_first();
        assert(inputs.first() == ProducerInputView::Upstream(event));
        assert(after_first.first() == ProducerInputView::Sent);
        assert(after_first.drop_first() =~= tail);
        let (third, then) = producer_step(second, after_first.first());
        lemma_sent_events_cons(then, producer_actions(third, tail));
        lemma_sent_events_cons(send, producer_actions(second, after_first));
        if event.is_terminal() {
            lemma_stopped_producer_sends_nothing(tail);
        } else {
            law_channel_gets_the_events_in_order(events.drop_first());
        }
        assert(sent_events(producer_actions(ProducerPhase::Reading, inputs)) =~= until_terminal(
            events,
        ));
    }
}

} // verus!
