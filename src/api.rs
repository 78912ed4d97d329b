//! The records the relay's HTTP endpoints take.
use vstd::prelude::*;

verus! {

/// The token a viewer or producer presents in its query string.
#[derive(Clone, Debug)]
pub struct TokenQuery {
    pub token: String,
}

/// Input a viewer sends to one terminal session.
#[derive(Clone, Debug)]
pub struct InputRequest {
    pub token: String,
    pub session_id: String,
    pub content: String,
}

/// A prompt a viewer sends to the chat listener.
#[derive(Clone, Debug)]
pub struct ChatInputRequest {
    pub token: String,
    pub chat_session_id: Option<String>,
    pub app_root: String,
    pub content: String,
}

/// A viewer's request that the listener announce its apps again.
#[derive(Clone, Debug)]
pub struct RefreshAppsRequest {
    pub token: String,
}

} // verus!
