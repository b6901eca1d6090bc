//! Conversations: the models on offer, how a turn is shown, and what a
//! request for a generation needs before it may start.

use vstd::prelude::*;
use vstd::string::StringExecFns;
use crate::model::model::ChatMessagePair;
use crate::model::text::{same_text, signed_decimal, signed_decimal_text};
use crate::model::user_dto::UserDTO;
use crate::relay::producer::CHANNEL_CAPACITY;
use crate::relay::render::{markdown_html, markdown_to_html};

verus! {

#[derive(Debug, Clone, Copy, PartialEq, Eq, Structural)]
pub enum ChatError {
    Other,
    InvalidAPIKey,
    EmptyKey,
    NoneObject,
}

impl ChatError {
    /// The status code of each error.
    pub open spec fn status(self) -> u16 {
        match self {
            ChatError::Other => 400,
            _ => 401,
        }
    }

    /// What each error tells the caller.
    pub open spec fn text(self) -> Seq<char> {
        match self {
            ChatError::Other => "Chat Error"@,
            ChatError::InvalidAPIKey => "Chat Error"@,
            ChatError::EmptyKey => "None Key Chat Error"@,
            ChatError::NoneObject => "None Object Chat Error"@,
        }
    }

    /// The status code that this error answers with.
    pub fn status_code(&self) -> (code: u16)
        ensures
            code == self.status(),
    {
        match self {
            ChatError::Other => 400,
            _ => 401,
        }
    }

    /// What this error tells the caller.
    pub fn message(&self) -> (message: &'static str)
        ensures
            message@ == self.text(),
    {
        match self {
            ChatError::Other => "Chat Error",
            ChatError::InvalidAPIKey => "Chat Error",
            ChatError::EmptyKey => "None Key Chat Error",
            ChatError::NoneObject => "None Object Chat Error",
        }
    }
}

/// A model on offer: the name shown, the identifier sent to the provider,
/// and a description.
#[derive(Debug, Clone, Copy, PartialEq, Eq)]
pub struct ModelInfo {
    pub name: &'static str,
    pub id: &'static str,
    pub description: &'static str,
}

/// A [`ModelInfo`] over sequences of characters.
pub struct ModelInfoView {
    pub name: Seq<char>,
    pub id: Seq<char>,
    pub description: Seq<char>,
}

impl View for ModelInfo {
    type V = ModelInfoView;

    open spec fn view(&self) -> ModelInfoView {
        ModelInfoView { name: self.name@, id: self.id@, description: self.description@ }
    }
}

/// How many models are on offer.
pub const MODEL_COUNT: usize = 5;

/// The model at each place of the list.
pub open spec fn catalog(index: int) -> ModelInfoView {
    if index == 0 {
        ModelInfoView {
            name: "GPT-4-Preview"@,
            id: "gpt-4-1106-preview"@,
            description: "This is the preview version of the GPT-4 model."@,
        }
    } else if index == 1 {
        ModelInfoView {
            name: "GPT-4"@,
            id: "gpt-4"@,
            description: "Latest generation GPT-4 model."@,
        }
    } else if index == 2 {
        ModelInfoView {
            name: "GPT-3.5-16K"@,
            id: "gpt-3.5-turbo-16k"@,
            description: "An enhanced GPT-3.5 model with 16K token limit."@,
        }
    } else if index == 3 {
        ModelInfoView {
            name: "GPT-3.5"@,
            id: "gpt-3.5-turbo"@,
            description: "Standard GPT-3.5 model with turbo features."@,
        }
    } else {
        ModelInfoView {
            name: "Ollama"@,
            id: "qwen2.5-coder"@,
            description: "Qwen coder were to define tokens?"@,
        }
    }
}

/// The place of the model that a new conversation starts with.
pub const DEFAULT_MODEL: usize = 4;

/// Whether `index` is the first place of the list whose model has the
/// identifier `id`.
pub open spec fn is_first_with_id(index: int, id: Seq<char>) -> bool {
    &&& 0 <= index < MODEL_COUNT
    &&& catalog(index).id == id
    &&& forall|j: int| 0 <= j < index ==> catalog(j).id != id
}

fn entry(name: &'static str, id: &'static str, description: &'static str) -> (model: Option<
    ModelInfo,
>)
    ensures
        model matches Some(m) && m@ == (ModelInfoView {
            name: name@,
            id: id@,
            description: description@,
        }),
{
    Some(ModelInfo { name, id, description })
}

/// The model at a place of the list; none beyond its end.
pub fn model_at(index: usize) -> (model: Option<ModelInfo>)
    ensures
        match model {
            Some(found) => index < MODEL_COUNT && found@ == catalog(index as int),
            None => index >= MODEL_COUNT,
        },
{
    if index == 0 {
        entry(
            "GPT-4-Preview",
            "gpt-4-1106-preview",
            "This is the preview version of the GPT-4 model.",
        )
    } else if index == 1 {
        entry("GPT-4", "gpt-4", "Latest generation GPT-4 model.")
    } else if index == 2 {
        entry(
            "GPT-3.5-16K",
            "gpt-3.5-turbo-16k",
            "An enhanced GPT-3.5 model with 16K token limit.",
        )
    } else if index == 3 {
        entry("GPT-3.5", "gpt-3.5-turbo", "Standard GPT-3.5 model with turbo features.")
    } else if index == 4 {
        entry("Ollama", "qwen2.5-coder", "Qwen coder were to define tokens?")
    } else {
        None
    }
}

/// The first model of the list with the given identifier, if there is one.
pub fn find_model(id: &str) -> (found: Option<ModelInfo>)
    ensures
        match found {
            Some(model) => exists|i: int| is_first_with_id(i, id@) && model@ == catalog(i),
            None => forall|i: int| 0 <= i < MODEL_COUNT ==> catalog(i).id != id@,
        },
{
    let mut index: usize = 0;
    while index < MODEL_COUNT
        invariant
            index <= MODEL_COUNT,
            forall|j: int| 0 <= j < index ==> catalog(j).id != id@,
        decreases MODEL_COUNT - index,
    {
        match model_at(index) {
            Some(model) => {
                if same_text(model.id, id) {
                    assert(is_first_with_id(index as int, id@));
                    return Some(model);
                }
            },
            None => {},
        }
        index += 1;
    }
    None
}

/// The model that a new conversation starts with.
pub fn default_model() -> (model: ModelInfo)
    ensures
        model@ == catalog(DEFAULT_MODEL as int),
{
    ModelInfo {
        name: "Ollama",
        id: "qwen2.5-coder",
        description: "Qwen coder were to define tokens?",
    }
}

/// The form that opens a conversation.
#[derive(Debug, Clone, PartialEq, Eq)]
pub struct NewChat {
    pub message: String,
    pub model: String,
}

/// The form that adds a message to a conversation.
#[derive(Debug, Clone, PartialEq, Eq)]
pub struct ChatAddMessage {
    pub message: String,
}

/// Where the browser is sent after a conversation was opened.
pub fn new_chat(chat_id: i64) -> (to: String)
    ensures
        to@ == "/chat/"@ + signed_decimal(chat_id as int),
{
    let mut to = String::from_str("/chat/");
    let id = signed_decimal_text(chat_id);
    to.append(id.as_str());
    to
}

/// A turn with both of its messages rendered for display.
#[derive(Debug, Clone, PartialEq, Eq)]
pub struct ParsedMessagePair {
    pub pair: ChatMessagePair,
    pub human_message_html: String,
    pub ai_message_html: String,
}

/// The generated text of a turn, empty while there is none.
pub open spec fn generated_text(pair: ChatMessagePair) -> Seq<char> {
    match pair.ai_message {
        Some(text) => text@,
        None => Seq::empty(),
    }
}

/// Renders both messages of a turn. A turn without generated text shows the
/// rendering of the empty text.
pub fn parse_pair(pair: ChatMessagePair) -> (parsed: ParsedMessagePair)
    ensures
        parsed.pair == pair,
        parsed.human_message_html@ == markdown_html(pair.human_message@),
        parsed.ai_message_html@ == markdown_html(generated_text(pair)),
{
    let human_message_html = markdown_to_html(pair.human_message.as_str());
    let ai_message_html = match &pair.ai_message {
        Some(text) => markdown_to_html(text.as_str()),
        None => markdown_to_html(""),
    };
    proof {
        reveal_strlit("");
        assert(""@ =~= Seq::<char>::empty());
    }
    ParsedMessagePair { pair, human_message_html, ai_message_html }
}

/// The credential to probe and to generate with: the user's provider key.
/// A request without a user, or from a user without a key, is refused
/// before any call to the provider.
pub fn credential(current_user: Option<&UserDTO>) -> (key: Result<String, ChatError>)
    ensures
        match current_user {
            None => key == Err::<String, ChatError>(ChatError::NoneObject),
            Some(user) => match user.openai_api_key {
                None => key == Err::<String, ChatError>(ChatError::EmptyKey),
                Some(stored) => key matches Ok(k) && k@ == stored@,
            },
        },
{
    match current_user {
        None => Err(ChatError::NoneObject),
        Some(user) => match &user.openai_api_key {
            None => Err(ChatError::EmptyKey),
            Some(stored) => Ok(stored.clone()),
        },
    }
}

/// What a generation is started with.
#[derive(Debug, Clone, PartialEq, Eq)]
pub struct GenerationPlan {
    /// The turn that the generated text is stored for: the last one.
    pub turn_id: i64,
    /// The model to generate with: that of the first turn.
    pub model: String,
    /// The capacity of the channel between producer and relay.
    pub capacity: usize,
}

/// Decides whether a generation may start, after the probe of the
/// credential and with the turns of the conversation. A probe that did not
/// pass is refused as an invalid key, whatever the turns; a conversation
/// without turns has nothing to generate for.
pub fn generate_chat(probe_passed: bool, turns: &Vec<ChatMessagePair>) -> (plan: Result<
    GenerationPlan,
    ChatError,
>)
    ensures
        !probe_passed ==> plan == Err::<GenerationPlan, ChatError>(ChatError::InvalidAPIKey),
        probe_passed && turns@.len() == 0 ==> plan == Err::<GenerationPlan, ChatError>(
            ChatError::Other,
        ),
        probe_passed && turns@.len() > 0 ==> (plan matches Ok(p) && p.turn_id
            == turns@.last().id && p.model@ == turns@[0].model@ && p.capacity
            == CHANNEL_CAPACITY),
{
    if !probe_passed {
        return Err(ChatError::InvalidAPIKey);
    }
    if turns.len() == 0 {
        return Err(ChatError::Other);
    }
    let last = &turns[turns.len() - 1];
    Ok(GenerationPlan { turn_id: last.id, model: turns[0].model.clone(), capacity: CHANNEL_CAPACITY })
}

} // verus!
