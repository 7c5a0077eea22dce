//! Requests from the interface to the service and the service's responses.
use crate::chat::{ChatEvent, ChatSession};
use vstd::prelude::*;

verus! {

/// A request to the service.
#[derive(Debug)]
pub enum ServiceReq {
    /// Sends user message.
    ChatMessage(ChatEvent),
    /// Fetches session by session_id.
    GetSession(String),
    /// Deletes session by session_id.
    DeleteSession(String),
}

/// A response of the service.
#[derive(Debug)]
pub enum ServiceResp {
    ChatEvent(ChatEvent),
    Sessions(Vec<ChatSession>),
    /// Summary for one session to update title async.
    SessionSummary(ChatSession),
    /// Fetch full session data when navigating to new session.
    Session(ChatSession),
    Error(String),
}

} // verus!
