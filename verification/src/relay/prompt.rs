//! What the provider is asked: the turns so far as a list of messages.

use vstd::prelude::*;
use crate::model::model::ChatMessagePair;

verus! {

/// Who wrote a message.
#[derive(Debug, Clone, Copy, PartialEq, Eq, Structural)]
pub enum Role {
    User,
    Assistant,
}

/// One message of the history that is sent to the provider.
#[derive(Debug, Clone, PartialEq, Eq)]
pub struct PromptMessage {
    pub role: Role,
    pub content: String,
}

/// A [`PromptMessage`] with its content as a sequence of characters.
pub struct PromptMessageView {
    pub role: Role,
    pub content: Seq<char>,
}

impl View for PromptMessage {
    type V = PromptMessageView;

    open spec fn view(&self) -> PromptMessageView {
        PromptMessageView { role: self.role, content: self.content@ }
    }
}

/// The messages of one turn: what the human wrote and, where the turn has
/// been answered, the answer.
pub open spec fn turn_messages(turn: ChatMessagePair) -> Seq<PromptMessageView> {
    let asked = PromptMessageView { role: Role::User, content: turn.human_message@ };
    match turn.ai_message {
        Some(answer) => seq![asked, PromptMessageView { role: Role::Assistant, content: answer@ }],
        None => seq![asked],
    }
}

/// The messages of all turns, in the order of the turns.
pub open spec fn prompt(turns: Seq<ChatMessagePair>) -> Seq<PromptMessageView>
    decreases turns.len(),
{
    if turns.len() == 0 {
        Seq::empty()
    } else {
        prompt(turns.drop_last()) + turn_messages(turns.last())
    }
}

/// Messages as mathematical values.
pub open spec fn messages_view(messages: Seq<PromptMessage>) -> Seq<PromptMessageView> {
    Seq::new(messages.len(), |i: int| messages[i]@)
}

/// Lists the messages of a conversation for the provider.
pub fn prompt_of(turns: &Vec<ChatMessagePair>) -> (messages: Vec<PromptMessage>)
    ensures
        messages_view(messages@) == prompt(turns@),
{
    let mut messages: Vec<PromptMessage> = Vec::new();
    let mut i: usize = 0;
    assert(messages_view(messages@) =~= prompt(turns@.take(0)));
    while i < turns.len()
        invariant
            i <= turns@.len(),
            messages_view(messages@) == prompt(turns@.take(i as int)),
        decreases turns@.len() - i,
    {
        let turn = &turns[i];
        let ghost before = messages@;
        messages.push(PromptMessage { role: Role::User, content: turn.human_message.clone() });
        match &turn.ai_message {
            Some(answer) => {
                messages.push(PromptMessage { role: Role::Assistant, content: answer.clone() });
            },
            None => {},
        }
        proof {
            let upto = turns@.take(i as int + 1);
            assert(upto.drop_last() =~= turns@.take(i as int));
            assert(upto.last() == turns@[i as int]);
            assert(messages_view(messages@) =~= messages_view(before) + turn_messages(
                turns@[i as int],
            ));
        }
        i += 1;
    }
    assert(turns@.take(i as int) =~= turns@);
    messages
}

} // verus!
