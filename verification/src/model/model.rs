//! Conversations and their turns.

use vstd::prelude::*;

verus! {

/// A conversation.
#[derive(Debug, Clone, PartialEq, Eq)]
pub struct Chat {
    pub id: i64,
    pub name: String,
    pub user_id: i64,
}

/// One turn of a conversation: what the human wrote and, once the generation
/// has completed, what was generated in answer.
#[derive(Debug, Clone, PartialEq, Eq)]
pub struct ChatMessagePair {
    pub id: i64,
    pub model: String,
    pub message_block_id: i64,
    pub chat_id: i64,
    pub human_message: String,
    /// Absent until the generation for this turn has completed.
    pub ai_message: Option<String>,
    pub block_rank: i64,
    pub block_size: i64,
}

} // verus!
