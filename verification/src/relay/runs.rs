//! Whole runs of the relay transform, and what holds of every run.

use vstd::prelude::*;
use crate::relay::event::GenerationEventView;
use crate::relay::render::{append_fragment, replace_fragment, Fragment};
use crate::relay::transform::{relay_step, RelayActionView, RelayInputView, RelayPhase, RelayView};

verus! {

/// The state that a run of inputs leads to.
pub open spec fn relay_run(state: RelayView, inputs: Seq<RelayInputView>) -> RelayView
    decreases inputs.len(),
{
    if inputs.len() == 0 {
        state
    } else {
        relay_run(relay_step(state, inputs.first()).0, inputs.drop_first())
    }
}

/// The actions of a run, one for each input, in order.
pub open spec fn relay_actions(state: RelayView, inputs: Seq<RelayInputView>) -> Seq<
    RelayActionView,
>
    decreases inputs.len(),
{
    if inputs.len() == 0 {
        Seq::empty()
    } else {
        seq![relay_step(state, inputs.first()).1] + relay_actions(
            relay_step(state, inputs.first()).0,
            inputs.drop_first(),
        )
    }
}

/// The appends that a sequence of actions asks of the conversation store:
/// the turn and the text of each, in order.
pub open spec fn store_appends(actions: Seq<RelayActionView>) -> Seq<(i64, Seq<char>)>
    decreases actions.len(),
{
    if actions.len() == 0 {
        Seq::empty()
    } else {
        match actions.first() {
            RelayActionView::Finish { turn_id, text, .. } => seq![(turn_id, text)] + store_appends(
                actions.drop_first(),
            ),
            _ => store_appends(actions.drop_first()),
        }
    }
}

/// An input that ends the receiving of a transform: a terminal event, or the
/// close of the channel.
pub open spec fn decisive(input: RelayInputView) -> bool {
    match input {
        RelayInputView::Event(event) => event.is_terminal(),
        RelayInputView::ChannelClosed => true,
        _ => false,
    }
}

/// The text of a completion, if the input is one.
pub open spec fn completed_text(input: RelayInputView) -> Option<Seq<char>> {
    match input {
        RelayInputView::Event(GenerationEventView::Completed(text)) => Some(text),
        _ => None,
    }
}

/// Each text as the input that delivers it as a delta.
pub open spec fn delta_inputs(texts: Seq<Seq<char>>) -> Seq<RelayInputView> {
    Seq::new(texts.len(), |i: int| RelayInputView::Event(GenerationEventView::Delta(texts[i])))
}

/// Each event as the input that delivers it.
pub open spec fn event_inputs(events: Seq<GenerationEventView>) -> Seq<RelayInputView> {
    Seq::new(events.len(), |i: int| RelayInputView::Event(events[i]))
}

proof fn lemma_store_appends_cons(action: RelayActionView, rest: Seq<RelayActionView>)
    ensures
        store_appends(seq![action] + rest) == store_appends(seq![action]) + store_appends(rest),
        store_appends(seq![action]) == (match action {
            RelayActionView::Finish { turn_id, text, .. } => seq![(turn_id, text)],
            _ => Seq::empty(),
        }),
{
    let all = seq![action] + rest;
    assert(all.drop_first() =~= rest);
    assert(seq![action].drop_first() =~= Seq::<RelayActionView>::empty());
    assert(store_appends(seq![action].drop_first()) =~= Seq::empty());
    match action {
        RelayActionView::Finish { turn_id, text, .. } => {
            assert(store_appends(seq![action]) =~= seq![(turn_id, text)]);
            assert(store_appends(all) =~= store_appends(seq![action]) + store_appends(rest));
        },
        _ => {
            assert(store_appends(seq![action]) =~= Seq::empty());
            assert(store_appends(all) =~= store_appends(seq![action]) + store_appends(rest));
        },
    }
}

proof fn lemma_no_append_once_receiving_is_over(state: RelayView, inputs: Seq<RelayInputView>)
    requires
        !state.phase.is_receiving(),
    ensures
        store_appends(relay_actions(state, inputs)) == Seq::<(i64, Seq<char>)>::empty(),
    decreases inputs.len(),
{
    if inputs.len() > 0 {
        let (next, action) = relay_step(state, inputs.first());
        lemma_no_append_once_receiving_is_over(next, inputs.drop_first());
        lemma_store_appends_cons(action, relay_actions(next, inputs.drop_first()));
        assert(store_appends(relay_actions(state, inputs)) =~= Seq::empty());
    }
}

/// Every step keeps the accumulator empty outside the phases that hold text,
/// and never changes the turn.
pub proof fn law_step_keeps_the_state_well_formed(state: RelayView, input: RelayInputView)
    requires
        state.wf(),
    ensures
        relay_step(state, input).0.wf(),
        relay_step(state, input).0.turn_id == state.turn_id,
{
}

/// Every state that a fresh transform can reach is well formed and belongs
/// to the turn that the transform was made for.
pub proof fn law_every_run_keeps_the_state_well_formed(
    state: RelayView,
    inputs: Seq<RelayInputView>,
)
    requires
        state.wf(),
    ensures
        relay_run(state, inputs).wf(),
        relay_run(state, inputs).turn_id == state.turn_id,
        RelayView::initial(state.turn_id).wf(),
    decreases inputs.len(),
{
    if inputs.len() > 0 {
        law_every_run_keeps_the_state_well_formed(
            relay_step(state, inputs.first()).0,
            inputs.drop_first(),
        );
    }
}

/// A terminal state is left by no input, and asks for nothing.
pub proof fn law_terminal_states_absorb(state: RelayView, input: RelayInputView)
    requires
        state.phase.is_terminal(),
    ensures
        relay_step(state, input) == (state, RelayActionView::Ignore),
{
}

/// Whatever the inputs and wherever the run starts, the conversation store is
/// asked to append at most once.
pub proof fn law_at_most_one_store_append(state: RelayView, inputs: Seq<RelayInputView>)
    ensures
        store_appends(relay_actions(state, inputs)).len() <= 1,
    decreases inputs.len(),
{
    if inputs.len() > 0 {
        let (next, action) = relay_step(state, inputs.first());
        let rest = inputs.drop_first();
        lemma_store_appends_cons(action, relay_actions(next, rest));
        if next.phase.is_receiving() {
            law_at_most_one_store_append(next, rest);
        } else {
            lemma_no_append_once_receiving_is_over(next, rest);
        }
    }
}

/// A receiving transform asks for a store append exactly when the first
/// decisive input is a completion, and then once, for its own turn, with the
/// text of that completion. `k` is the place of the first decisive input, or
/// the number of inputs where there is none.
pub proof fn law_store_append_exactly_on_completion(
    state: RelayView,
    inputs: Seq<RelayInputView>,
    k: int,
)
    requires
        state.phase.is_receiving(),
        0 <= k <= inputs.len(),
        forall|j: int| 0 <= j < k ==> !decisive(#[trigger] inputs[j]),
        k < inputs.len() ==> decisive(inputs[k]),
    ensures
        store_appends(relay_actions(state, inputs)) == (if k < inputs.len() && completed_text(
            inputs[k],
        ) is Some {
            seq![(state.turn_id, completed_text(inputs[k])->Some_0)]
        } else {
            Seq::empty()
        }),
    decreases inputs.len(),
{
    if inputs.len() > 0 {
        let (next, action) = relay_step(state, inputs.first());
        let rest = inputs.drop_first();
        lemma_store_appends_cons(action, relay_actions(next, rest));
        if k == 0 {
            lemma_no_append_once_receiving_is_over(next, rest);
            assert(store_appends(relay_actions(state, inputs)) =~= store_appends(seq![action]));
        } else {
            assert(!decisive(inputs[0]));
            assert forall|j: int| 0 <= j < k - 1 implies !decisive(#[trigger] rest[j]) by {
                assert(rest[j] == inputs[j + 1]);
            }
            if k < inputs.len() {
                assert(rest[k - 1] == inputs[k]);
            }
            law_store_append_exactly_on_completion(next, rest, k - 1);
            assert(store_appends(relay_actions(state, inputs)) =~= store_appends(
                relay_actions(next, rest),
            ));
        }
    }
}

/// Without a completion among the inputs nothing is ever stored: not after a
/// failure, not when the channel closes, not when the inputs simply stop.
pub proof fn law_no_completion_no_store_append(state: RelayView, inputs: Seq<RelayInputView>)
    requires
        forall|i: int| 0 <= i < inputs.len() ==> completed_text(#[trigger] inputs[i]) is None,
    ensures
        store_appends(relay_actions(state, inputs)) == Seq::<(i64, Seq<char>)>::empty(),
    decreases inputs.len(),
{
    if inputs.len() > 0 {
        let (next, action) = relay_step(state, inputs.first());
        let rest = inputs.drop_first();
        assert(completed_text(inputs[0]) is None);
        assert forall|i: int| 0 <= i < rest.len() implies completed_text(#[trigger] rest[i])
            is None by {
            assert(rest[i] == inputs[i + 1]);
        }
        law_no_completion_no_store_append(next, rest);
        lemma_store_appends_cons(action, relay_actions(next, rest));
        assert(store_appends(relay_actions(state, inputs)) =~= Seq::empty());
    }
}

/// After any run of deltas a receiving transform holds what it held before
/// followed by the payloads in order, and is accumulating if any delta came.
pub proof fn law_accumulator_joins_the_deltas(state: RelayView, texts: Seq<Seq<char>>)
    requires
        state.phase.is_receiving(),
    ensures
        relay_run(state, delta_inputs(texts)) == (RelayView {
            phase: if texts.len() == 0 {
                state.phase
            } else {
                RelayPhase::Accumulating
            },
            accumulated: state.accumulated + texts.flatten(),
            turn_id: state.turn_id,
        }),
    decreases texts.len(),
{
    let inputs = delta_inputs(texts);
    if texts.len() == 0 {
        assert(state.accumulated + texts.flatten() =~= state.accumulated);
    } else {
        let next = relay_step(state, inputs.first()).0;
        assert(inputs.drop_first() =~= delta_inputs(texts.drop_first()));
        law_accumulator_joins_the_deltas(next, texts.drop_first());
        assert(state.accumulated + texts.first() + texts.drop_first().flatten()
            =~= state.accumulated + texts.flatten());
    }
}

/// The last of a run of deltas is answered by the fragment that renders all
/// of them joined: the whole text anew, not the last piece.
pub proof fn law_each_delta_renders_the_whole_text(
    state: RelayView,
    texts: Seq<Seq<char>>,
    last: Seq<char>,
)
    requires
        state.phase.is_receiving(),
    ensures
        relay_step(
            relay_run(state, delta_inputs(texts)),
            RelayInputView::Event(GenerationEventView::Delta(last)),
        ).1 == RelayActionView::Push(
            append_fragment(state.accumulated + texts.push(last).flatten()),
        ),
{
    law_accumulator_joins_the_deltas(state, texts);
    texts.lemma_flatten_push(last);
    assert(state.accumulated + texts.flatten() + last =~= state.accumulated + texts.push(
        last,
    ).flatten());
}

/// A stream of deltas that ends in a completion carrying the assembled text
/// has that text, the payloads joined in order, stored once for the turn.
pub proof fn law_stored_text_is_the_deltas_joined(
    turn_id: i64,
    texts: Seq<Seq<char>>,
    full: Seq<char>,
)
    requires
        full == texts.flatten(),
    ensures
        store_appends(
            relay_actions(
                RelayView::initial(turn_id),
                delta_inputs(texts).push(
                    RelayInputView::Event(GenerationEventView::Completed(full)),
                ),
            ),
        ) == seq![(turn_id, texts.flatten())],
{
    let inputs = delta_inputs(texts).push(
        RelayInputView::Event(GenerationEventView::Completed(full)),
    );
    law_store_append_exactly_on_completion(
        RelayView::initial(turn_id),
        inputs,
        texts.len() as int,
    );
}

/// Two fragments rendered from the same text, incremental both or final both,
/// are the same, character for character.
pub proof fn law_rendering_is_repeatable(first: Fragment, second: Fragment, text: Seq<char>)
    requires
        first@ == append_fragment(text) && second@ == append_fragment(text)
            || first@ == replace_fragment(text) && second@ == replace_fragment(text),
    ensures
        first@ == second@,
        first.body@ == second.body@,
{
}

} // verus!
