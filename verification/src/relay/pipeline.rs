//! The decoder and the relay transform in a row: from what the provider sends
//! to what the conversation store is asked to keep.

use vstd::prelude::*;
use crate::relay::event::GenerationEventView;
use crate::relay::runs::{
    delta_inputs, event_inputs, law_no_completion_no_store_append,
    law_stored_text_is_the_deltas_joined, relay_actions, store_appends,
};
use crate::relay::transform::{RelayInputView, RelayView};
use crate::relay::upstream::{
    decoded_events, delta_events, event_of, law_exactly_one_terminal_event,
    law_text_leaves_as_deltas, text_signals, DecoderView, ProviderSignalView,
};

verus! {

/// What the store is asked to append when a fresh relay for `turn_id` is fed
/// what a fresh decoder makes of the signals.
pub open spec fn stored_by_pipeline(turn_id: i64, signals: Seq<ProviderSignalView>) -> Seq<
    (i64, Seq<char>),
> {
    store_appends(
        relay_actions(
            RelayView::initial(turn_id),
            event_inputs(decoded_events(DecoderView::initial(), signals)),
        ),
    )
}

/// When the provider sends text pieces and then its end marker, the text
/// stored for the turn is the pieces joined in order, and it is stored once,
/// whatever the provider sends after the marker.
pub proof fn law_pipeline_stores_the_pieces_joined(
    turn_id: i64,
    texts: Seq<Seq<char>>,
    tail: Seq<ProviderSignalView>,
)
    ensures
        stored_by_pipeline(turn_id, text_signals(texts) + seq![ProviderSignalView::End] + tail)
            == seq![(turn_id, texts.flatten())],
{
    let full = texts.flatten();
    law_exactly_one_terminal_event(DecoderView::initial(), texts, ProviderSignalView::End, tail);
    assert(DecoderView::initial().assembled + full =~= full);
    let events = delta_events(texts).push(GenerationEventView::Completed(full));
    assert(event_inputs(events) =~= delta_inputs(texts).push(
        RelayInputView::Event(GenerationEventView::Completed(full)),
    ));
    law_stored_text_is_the_deltas_joined(turn_id, texts, full);
}

/// When the provider's stream ends in anything but its end marker (an error,
/// a bare close, or no end at all because the reading stopped), nothing is
/// stored.
pub proof fn law_pipeline_stores_nothing_without_the_end_marker(
    turn_id: i64,
    texts: Seq<Seq<char>>,
    rest: Seq<ProviderSignalView>,
)
    requires
        rest.len() == 0 || (rest[0].is_terminal() && !(rest[0] is End)),
    ensures
        stored_by_pipeline(turn_id, text_signals(texts) + rest) == Seq::<
            (i64, Seq<char>),
        >::empty(),
{
    let signals = text_signals(texts) + rest;
    let events = decoded_events(DecoderView::initial(), signals);
    if rest.len() == 0 {
        assert(signals =~= text_signals(texts));
        law_text_leaves_as_deltas(DecoderView::initial(), texts);
    } else {
        assert(signals =~= text_signals(texts) + seq![rest[0]] + rest.drop_first());
        law_exactly_one_terminal_event(DecoderView::initial(), texts, rest[0], rest.drop_first());
    }
    law_no_completion_no_store_append(RelayView::initial(turn_id), event_inputs(events));
}

} // verus!
