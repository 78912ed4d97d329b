//! The two closed message unions that travel over the relay: terminal
//! traffic and chat traffic. Timestamps are milliseconds since the epoch.
use vstd::prelude::*;
use crate::clock::now_millis;
use crate::text::owned;

verus! {

/// A session as viewers list it.
#[derive(Clone, Debug)]
pub struct SessionBasicInfo {
    pub id: String,
    pub name: Option<String>,
}

/// A terminal session's details.
#[derive(Clone, Debug)]
pub struct SessionInfo {
    pub id: String,
    pub command: String,
    pub name: Option<String>,
    pub started_at: i64,
    pub last_activity: i64,
}

/// Terminal traffic between wrappers, the relay and viewers.
#[derive(Clone, Debug)]
pub enum TerminalMessage {
    /// Wrapper to viewers: terminal output.
    Output { session_id: String, content: String, timestamp: i64 },
    /// Viewer to one wrapper: typed input.
    Input { session_id: String, content: String },
    /// Wrapper to viewers: a session began.
    SessionStart { session_id: String, command: String, name: Option<String>, timestamp: i64 },
    /// Wrapper (or the relay on its behalf) to viewers: a session ended.
    SessionEnd { session_id: String, timestamp: i64 },
    /// Relay to viewers: the sessions that are live.
    ActiveSessions { sessions: Vec<SessionBasicInfo> },
}

/// The session a terminal message concerns; empty for a session listing.
pub open spec fn terminal_session_id(m: TerminalMessage) -> Seq<char> {
    match m {
        TerminalMessage::Output { session_id, .. } => session_id@,
        TerminalMessage::Input { session_id, .. } => session_id@,
        TerminalMessage::SessionStart { session_id, .. } => session_id@,
        TerminalMessage::SessionEnd { session_id, .. } => session_id@,
        TerminalMessage::ActiveSessions { .. } => Seq::empty(),
    }
}

impl TerminalMessage {
    /// Terminal output of a session, stamped now.
    pub fn output(session_id: &str, content: &str) -> (r: TerminalMessage)
        ensures
            r matches TerminalMessage::Output { session_id: s, content: c, .. }
                && s@ == session_id@ && c@ == content@,
    {
        TerminalMessage::Output {
            session_id: owned(session_id),
            content: owned(content),
            timestamp: now_millis(),
        }
    }

    /// Input addressed to a session.
    pub fn input(session_id: &str, content: &str) -> (r: TerminalMessage)
        ensures
            r matches TerminalMessage::Input { session_id: s, content: c }
                && s@ == session_id@ && c@ == content@,
    {
        TerminalMessage::Input { session_id: owned(session_id), content: owned(content) }
    }

    /// The start of a session running `command`, stamped now.
    pub fn session_start(session_id: &str, command: &str, name: Option<String>) -> (r: TerminalMessage)
        ensures
            r matches TerminalMessage::SessionStart { session_id: s, command: c, name: n, .. }
                && s@ == session_id@ && c@ == command@ && n == name,
    {
        TerminalMessage::SessionStart {
            session_id: owned(session_id),
            command: owned(command),
            name,
            timestamp: now_millis(),
        }
    }

    /// The end of a session, stamped now.
    pub fn session_end(session_id: &str) -> (r: TerminalMessage)
        ensures
            r matches TerminalMessage::SessionEnd { session_id: s, .. } && s@ == session_id@,
    {
        TerminalMessage::SessionEnd { session_id: owned(session_id), timestamp: now_millis() }
    }

    /// The session this message concerns; empty for a session listing.
    pub fn session_id(&self) -> (r: &str)
        ensures
            r@ == terminal_session_id(*self),
    {
        match self {
            TerminalMessage::Output { session_id, .. } => session_id.as_str(),
            TerminalMessage::Input { session_id, .. } => session_id.as_str(),
            TerminalMessage::SessionStart { session_id, .. } => session_id.as_str(),
            TerminalMessage::SessionEnd { session_id, .. } => session_id.as_str(),
            TerminalMessage::ActiveSessions { .. } => {
                proof {
                    reveal_strlit("");
                }
                ""
            },
        }
    }

    /// A listing of the live sessions.
    pub fn active_sessions(sessions: Vec<SessionBasicInfo>) -> (r: TerminalMessage)
        ensures
            r == (TerminalMessage::ActiveSessions { sessions }),
    {
        TerminalMessage::ActiveSessions { sessions }
    }
}

/// A project root that a chat listener serves.
#[derive(Clone, Debug)]
pub struct AppInfo {
    pub root: String,
    pub name: String,
}

impl AppInfo {
    /// A copy holding the same root and name.
    pub fn copy(&self) -> (r: AppInfo)
        ensures
            r.root@ == self.root@,
            r.name@ == self.name@,
    {
        AppInfo { root: self.root.clone(), name: self.name.clone() }
    }
}

/// The two lists hold apps with the same roots and names, in the same order.
pub open spec fn same_apps(a: Seq<AppInfo>, b: Seq<AppInfo>) -> bool {
    a.len() == b.len() && forall|i: int|
        0 <= i < a.len() ==> (#[trigger] a[i]).root@ == b[i].root@ && a[i].name@ == b[i].name@
}

/// A copy of a list of apps.
pub fn copy_apps(apps: &Vec<AppInfo>) -> (r: Vec<AppInfo>)
    ensures
        same_apps(r@, apps@),
{
    let mut r: Vec<AppInfo> = Vec::new();
    let mut i: usize = 0;
    while i < apps.len()
        invariant
            i <= apps@.len(),
            r@.len() == i,
            forall|k: int| 0 <= k < i ==> (#[trigger] r@[k]).root@ == apps@[k].root@ && r@[k].name@ == apps@[k].name@,
        decreases apps@.len() - i,
    {
        r.push(apps[i].copy());
        i = i + 1;
    }
    r
}

/// A chat session as viewers list it.
#[derive(Clone, Debug)]
pub struct ChatSessionInfo {
    pub id: String,
    pub name: String,
    pub app_root: String,
}

/// Chat traffic between the listener, the relay and viewers.
#[derive(Clone, Debug)]
pub enum ChatMessage {
    /// Listener to relay: the listener is up and serves these apps.
    ListenerReady { apps: Vec<AppInfo> },
    /// Viewer to listener: a prompt, for an existing chat session or a new one.
    ChatInput { chat_session_id: Option<String>, app_root: String, content: String },
    /// Listener to viewers: one line of the agent's output.
    ChatOutput { chat_session_id: String, content: String, timestamp: i64 },
    /// Listener to viewers: the agent finished.
    ChatDone { chat_session_id: String, timestamp: i64 },
    /// Listener to viewers: the agent failed.
    ChatError { chat_session_id: String, error: String, timestamp: i64 },
    /// Listener to viewers: a new chat session was created.
    ChatSessionCreated { chat_session_id: String, app_root: String, name: String, timestamp: i64 },
    /// Relay to listener: reload the configuration and announce the apps again.
    ResyncApps,
}

impl ChatMessage {
    /// One line of agent output, stamped now.
    pub fn chat_output(chat_session_id: &str, content: &str) -> (r: ChatMessage)
        ensures
            r matches ChatMessage::ChatOutput { chat_session_id: s, content: c, .. }
                && s@ == chat_session_id@ && c@ == content@,
    {
        ChatMessage::ChatOutput {
            chat_session_id: owned(chat_session_id),
            content: owned(content),
            timestamp: now_millis(),
        }
    }

    /// The agent finished, stamped now.
    pub fn chat_done(chat_session_id: &str) -> (r: ChatMessage)
        ensures
            r matches ChatMessage::ChatDone { chat_session_id: s, .. } && s@ == chat_session_id@,
    {
        ChatMessage::ChatDone { chat_session_id: owned(chat_session_id), timestamp: now_millis() }
    }

    /// The agent failed with `error`, stamped now.
    pub fn chat_error(chat_session_id: &str, error: &str) -> (r: ChatMessage)
        ensures
            r matches ChatMessage::ChatError { chat_session_id: s, error: e, .. }
                && s@ == chat_session_id@ && e@ == error@,
    {
        ChatMessage::ChatError {
            chat_session_id: owned(chat_session_id),
            error: owned(error),
            timestamp: now_millis(),
        }
    }

    /// A new chat session, stamped now.
    pub fn chat_session_created(chat_session_id: &str, app_root: &str, name: &str) -> (r: ChatMessage)
        ensures
            r matches ChatMessage::ChatSessionCreated { chat_session_id: s, app_root: a, name: n, .. }
                && s@ == chat_session_id@ && a@ == app_root@ && n@ == name@,
    {
        ChatMessage::ChatSessionCreated {
            chat_session_id: owned(chat_session_id),
            app_root: owned(app_root),
            name: owned(name),
            timestamp: now_millis(),
        }
    }
}

} // verus!
