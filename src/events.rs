use vstd::prelude::*;

verus! {

/// Token counts reported when a turn succeeds.
#[derive(Debug, Clone, Copy, PartialEq, Eq, Structural)]
pub struct Usage {
    pub input_tokens: i64,
    pub cached_input_tokens: i64,
    pub output_tokens: i64,
}

/// What a content item of a turn holds.
#[derive(Debug)]
pub enum ThreadItemDetails {
    /// A message of the assistant.
    AgentMessage { text: String },
    /// A fragment of the assistant's reasoning.
    Reasoning { text: String },
    /// Any other kind of item, by kind name, with its payload as JSON text.
    Other { kind: String, payload: String },
}

/// One content item of a turn.
#[derive(Debug)]
pub struct ThreadItem {
    pub id: String,
    pub details: ThreadItemDetails,
}

/// A normalised event of a turn, as handed to consumers.
#[derive(Debug)]
pub enum ThreadEvent {
    ThreadStarted { thread_id: String },
    TurnStarted,
    /// The turn succeeded.
    TurnCompleted { usage: Usage },
    /// The turn failed.
    TurnFailed { message: String },
    ItemStarted { item: ThreadItem },
    ItemUpdated { item: ThreadItem },
    ItemCompleted { item: ThreadItem },
    /// An error notice that does not end the turn.
    Error { message: String },
}

/// Whether an event ends the turn: a success or a failure marker.
pub open spec fn is_turn_marker(e: ThreadEvent) -> bool {
    e is TurnCompleted || e is TurnFailed
}

/// The item that an event completes or updates, if any.
pub open spec fn captured_item(e: ThreadEvent) -> Option<ThreadItem> {
    match e {
        ThreadEvent::ItemCompleted { item } => Some(item),
        ThreadEvent::ItemUpdated { item } => Some(item),
        _ => None,
    }
}

/// The assistant message that an event carries, if any.
pub open spec fn agent_text(e: ThreadEvent) -> Option<Seq<char>> {
    match captured_item(e) {
        Some(item) => match item.details {
            ThreadItemDetails::AgentMessage { text } => Some(text@),
            _ => None,
        },
        None => None,
    }
}

/// The reasoning fragment that an event carries, if any.
pub open spec fn reasoning_text(e: ThreadEvent) -> Option<Seq<char>> {
    match captured_item(e) {
        Some(item) => match item.details {
            ThreadItemDetails::Reasoning { text } => Some(text@),
            _ => None,
        },
        None => None,
    }
}

/// The error text that an event records, if any.
pub open spec fn error_text(e: ThreadEvent) -> Option<Seq<char>> {
    match e {
        ThreadEvent::TurnFailed { message } => Some(message@),
        ThreadEvent::Error { message } => Some(message@),
        _ => None,
    }
}

} // verus!
