//! The conversation log's data model: one record per turn.

use vstd::prelude::*;

use crate::SentimentClassification;

verus! {

/// Who produced a turn of the conversation.
#[derive(Clone, Copy, Debug, PartialEq, Eq, Structural)]
pub enum MessageRole {
    User,
    Assistant,
}

/// One conversational turn.  A sentiment classification is attached only to
/// `User` turns, at most once, shortly after the turn is recorded; a record
/// is otherwise never changed and never removed for the life of the session.
#[derive(Clone, Debug)]
pub struct Message {
    pub role: MessageRole,
    pub content: String,
    pub timestamp: i64,
    pub emotion: Option<SentimentClassification>,
}

} // verus!
