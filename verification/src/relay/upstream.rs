//! The seam to the provider: what it sends becomes generation events.
//!
//! The caller reads the provider's stream and hands each thing that it
//! receives to [`UpstreamDecoder::decode`] as a [`ProviderSignal`]. The
//! decoder assembles the text and sees to it that exactly one terminal event
//! leaves it, whatever the provider does after that.

use vstd::prelude::*;
use vstd::string::StringExecFns;
use crate::relay::event::{GenerationEvent, GenerationEventView};

verus! {

/// What the caller observed on the provider's stream.
#[derive(Debug, Clone, PartialEq, Eq)]
pub enum ProviderSignal {
    /// A piece of generated text.
    Text(String),
    /// The provider's explicit end marker.
    End,
    /// The provider or the network reported an error, or nothing came in time.
    Error(String),
    /// The stream ended with neither an end marker nor an error.
    Closed,
}

/// A [`ProviderSignal`] over sequences of characters.
pub enum ProviderSignalView {
    Text(Seq<char>),
    End,
    Error(Seq<char>),
    Closed,
}

impl ProviderSignalView {
    /// Every signal but `Text` ends the stream.
    pub open spec fn is_terminal(self) -> bool {
        !(self is Text)
    }
}

impl View for ProviderSignal {
    type V = ProviderSignalView;

    open spec fn view(&self) -> ProviderSignalView {
        match self {
            ProviderSignal::Text(text) => ProviderSignalView::Text(text@),
            ProviderSignal::End => ProviderSignalView::End,
            ProviderSignal::Error(cause) => ProviderSignalView::Error(cause@),
            ProviderSignal::Closed => ProviderSignalView::Closed,
        }
    }
}

/// The cause reported when the provider's stream ends without saying why.
pub open spec fn closed_cause() -> Seq<char> {
    "provider stream ended without an end marker"@
}

/// The state of a decoder as a mathematical value.
pub struct DecoderView {
    /// Every text piece so far, in order, as one text.
    pub assembled: Seq<char>,
    /// Whether the terminal event has left the decoder.
    pub finished: bool,
}

impl DecoderView {
    /// The state of a fresh decoder.
    pub open spec fn initial() -> DecoderView {
        DecoderView { assembled: Seq::empty(), finished: false }
    }
}

/// One step of the decoder: the next state and the event, if one leaves.
///
/// Until the stream has ended, text becomes a delta and joins the assembled
/// text, the end marker becomes the completion that carries the assembled
/// text, and an error or a bare close becomes a failure. After that nothing
/// leaves the decoder.
pub open spec fn decode_step(state: DecoderView, signal: ProviderSignalView) -> (
    DecoderView,
    Option<GenerationEventView>,
) {
    if state.finished {
        (state, None)
    } else {
        match signal {
            ProviderSignalView::Text(text) => (
                DecoderView { assembled: state.assembled + text, finished: false },
                Some(GenerationEventView::Delta(text)),
            ),
            ProviderSignalView::End => (
                DecoderView { finished: true, ..state },
                Some(GenerationEventView::Completed(state.assembled)),
            ),
            ProviderSignalView::Error(cause) => (
                DecoderView { finished: true, ..state },
                Some(GenerationEventView::Failed(cause)),
            ),
            ProviderSignalView::Closed => (
                DecoderView { finished: true, ..state },
                Some(GenerationEventView::Failed(closed_cause())),
            ),
        }
    }
}

/// Turns one provider stream into generation events.
#[derive(Debug)]
pub struct UpstreamDecoder {
    assembled: String,
    finished: bool,
}

impl View for UpstreamDecoder {
    type V = DecoderView;

    closed spec fn view(&self) -> DecoderView {
        DecoderView { assembled: self.assembled@, finished: self.finished }
    }
}

impl UpstreamDecoder {
    /// A decoder for a stream of which nothing has been read.
    pub fn new() -> (decoder: UpstreamDecoder)
        ensures
            decoder@ == DecoderView::initial(),
    {
        UpstreamDecoder { assembled: String::new(), finished: false }
    }

    /// Whether the terminal event has been given out, so that the caller can
    /// stop reading.
    pub fn is_finished(&self) -> (finished: bool)
        ensures
            finished == self@.finished,
    {
        self.finished
    }

    /// Takes one signal and gives the event that it stands for, if any.
    pub fn decode(&mut self, signal: ProviderSignal) -> (event: Option<GenerationEvent>)
        ensures
            final(self)@ == decode_step(old(self)@, signal@).0,
            match event {
                Some(e) => decode_step(old(self)@, signal@).1 == Some(e@),
                None => decode_step(old(self)@, signal@).1 is None,
            },
    {
        if self.finished {
            return None;
        }
        match signal {
            ProviderSignal::Text(text) => {
                self.assembled.append(text.as_str());
                Some(GenerationEvent::Delta(text))
            },
            ProviderSignal::End => {
                self.finished = true;
                Some(GenerationEvent::Completed(self.assembled.clone()))
            },
            ProviderSignal::Error(cause) => {
                self.finished = true;
                Some(GenerationEvent::Failed(cause))
            },
            ProviderSignal::Closed => {
                self.finished = true;
                Some(
                    GenerationEvent::Failed(
                        String::from_str("provider stream ended without an end marker"),
                    ),
                )
            },
        }
    }
}

/// The events that leave a decoder over a run of signals, in order.
pub open spec fn decoded_events(state: DecoderView, signals: Seq<ProviderSignalView>) -> Seq<
    GenerationEventView,
>
    decreases signals.len(),
{
    if signals.len() == 0 {
        Seq::empty()
    } else {
        let (next, event) = decode_step(state, signals.first());
        (match event {
            Some(e) => seq![e],
            None => Seq::empty(),
        }) + decoded_events(next, signals.drop_first())
    }
}

/// Each text as the signal that carries it.
pub open spec fn text_signals(texts: Seq<Seq<char>>) -> Seq<ProviderSignalView> {
    Seq::new(texts.len(), |i: int| ProviderSignalView::Text(texts[i]))
}

/// Each text as the delta that carries it.
pub open spec fn delta_events(texts: Seq<Seq<char>>) -> Seq<GenerationEventView> {
    Seq::new(texts.len(), |i: int| GenerationEventView::Delta(texts[i]))
}

/// The event that a signal stands for when `assembled` is the text so far.
pub open spec fn event_of(assembled: Seq<char>, signal: ProviderSignalView) -> GenerationEventView {
    match signal {
        ProviderSignalView::Text(text) => GenerationEventView::Delta(text),
        ProviderSignalView::End => GenerationEventView::Completed(assembled),
        ProviderSignalView::Error(cause) => GenerationEventView::Failed(cause),
        ProviderSignalView::Closed => GenerationEventView::Failed(closed_cause()),
    }
}

/// Once the terminal event has left, nothing leaves any more.
pub proof fn law_finished_decoder_is_silent(state: DecoderView, signals: Seq<ProviderSignalView>)
    requires
        state.finished,
    ensures
        decoded_events(state, signals) == Seq::<GenerationEventView>::empty(),
    decreases signals.len(),
{
    if signals.len() > 0 {
        law_finished_decoder_is_silent(state, signals.drop_first());
        assert(decoded_events(state, signals) =~= Seq::empty());
    }
}

/// While the provider sends text only, each piece leaves as a delta and no
/// terminal event leaves.
pub proof fn law_text_leaves_as_deltas(state: DecoderView, texts: Seq<Seq<char>>)
    requires
        !state.finished,
    ensures
        decoded_events(state, text_signals(texts)) == delta_events(texts),
    decreases texts.len(),
{
    let signals = text_signals(texts);
    if texts.len() == 0 {
        assert(decoded_events(state, signals) =~= delta_events(texts));
    } else {
        let next = decode_step(state, signals.first()).0;
        assert(signals.drop_first() =~= text_signals(texts.drop_first()));
        law_text_leaves_as_deltas(next, texts.drop_first());
        assert(seq![GenerationEventView::Delta(texts.first())] + delta_events(texts.drop_first())
            =~= delta_events(texts));
    }
}

/// A stream of text pieces, then a terminal signal, then whatever else: the
/// pieces leave as deltas in order, then exactly one terminal event leaves,
/// and it is the last. An end marker gives the completion that carries every
/// piece joined in order.
pub proof fn law_exactly_one_terminal_event(
    state: DecoderView,
    texts: Seq<Seq<char>>,
    last: ProviderSignalView,
    tail: Seq<ProviderSignalView>,
)
    requires
        !state.finished,
        last.is_terminal(),
    ensures
        decoded_events(state, text_signals(texts) + seq![last] + tail) == delta_events(
            texts,
        ).push(event_of(state.assembled + texts.flatten(), last)),
    decreases texts.len(),
{
    let signals = text_signals(texts) + seq![last] + tail;
    let (next, event) = decode_step(state, signals.first());
    if texts.len() == 0 {
        assert(signals.first() == last);
        law_finished_decoder_is_silent(next, signals.drop_first());
        assert(state.assembled + texts.flatten() =~= state.assembled);
        assert(decoded_events(state, signals) =~= delta_events(texts).push(
            event_of(state.assembled, last),
        ));
    } else {
        assert(signals.first() == ProviderSignalView::Text(texts.first()));
        assert(signals.drop_first() =~= text_signals(texts.drop_first()) + seq![last] + tail);
        law_exactly_one_terminal_event(next, texts.drop_first(), last, tail);
        assert(next.assembled + texts.drop_first().flatten() =~= state.assembled
            + texts.flatten());
        assert(seq![GenerationEventView::Delta(texts.first())] + delta_events(
            texts.drop_first(),
        ).push(event_of(state.assembled + texts.flatten(), last)) =~= delta_events(texts).push(
            event_of(state.assembled + texts.flatten(), last),
        ));
    }
}

} // verus!
