//! The messages of a conversation and the context handed to the model.
use vstd::prelude::*;
use crate::time::Timestamp;

verus! {

/// A stored message with the metadata that the context needs.
#[derive(Clone, Debug)]
pub struct ChatMessage {
    /// Identifier of the message within its chat.
    pub message_id: i64,
    /// The message this one answers, if any.
    pub reply_to_id: Option<i64>,
    /// The quoted part of the answered message, if any.
    pub quote: Option<String>,
    /// Name of the user or chat the message was forwarded from, if any.
    pub forward_from: Option<String>,
    /// Identifier of the author (0 where the author is unknown).
    pub user_id: i64,
    /// User name of the author.
    pub user_name: String,
    /// The text of the message.
    pub content: String,
    /// When the message was stored.
    pub timestamp: Timestamp,
}

/// The context of one thread: the summary of its older part and the messages not yet in it.
#[derive(Debug)]
pub struct ChatContext {
    /// Summary of the messages already condensed (empty if there is none).
    pub summary: String,
    /// Messages that the summary does not cover, oldest first.
    pub messages: Vec<ChatMessage>,
}

/// A copy of an optional string.
pub fn clone_opt_string(s: &Option<String>) -> (r: Option<String>)
    ensures
        r == *s,
{
    match s {
        Some(t) => Some(t.clone()),
        None => None,
    }
}

/// A copy of a message, equal to it field by field.
pub fn clone_message(m: &ChatMessage) -> (r: ChatMessage)
    ensures
        r == *m,
{
    ChatMessage {
        message_id: m.message_id,
        reply_to_id: m.reply_to_id,
        quote: clone_opt_string(&m.quote),
        forward_from: clone_opt_string(&m.forward_from),
        user_id: m.user_id,
        user_name: m.user_name.clone(),
        content: m.content.clone(),
        timestamp: m.timestamp,
    }
}

/// A copy of the messages `msgs[from..to]`.
pub fn clone_messages(msgs: &Vec<ChatMessage>, from: usize, to: usize) -> (r: Vec<ChatMessage>)
    requires
        from <= to <= msgs@.len(),
    ensures
        r@ == msgs@.subrange(from as int, to as int),
{
    let mut out: Vec<ChatMessage> = Vec::new();
    let mut i = from;
    while i < to
        invariant
            from <= i <= to <= msgs@.len(),
            out@ == msgs@.subrange(from as int, i as int),
        decreases to - i,
    {
        out.push(clone_message(&msgs[i]));
        assert(out@ =~= msgs@.subrange(from as int, i + 1));
        i = i + 1;
    }
    out
}

} // verus!
