//! Decisions of the relay's connection handlers: which frame establishes a
//! producer's identity, and what a viewer's frame asks for.
use vstd::prelude::*;
use crate::hub::{SessionConnection, TerminalTokenState};
use crate::message::{terminal_session_id, AppInfo, ChatMessage, TerminalMessage};
use crate::text::owned;

verus! {

/// The session name a frame declares: a session start's name, else none.
pub open spec fn declared_name(m: TerminalMessage) -> Option<String> {
    match m {
        TerminalMessage::SessionStart { name, .. } => name,
        _ => None,
    }
}

/// A terminal wrapper's connection, seen from the relay: the session id
/// its first parsed frame established, if any yet.
pub struct ProducerSession {
    pub session_id: Option<String>,
}

impl ProducerSession {
    /// A connection that has not sent a parsed frame yet.
    pub fn new() -> (r: Self)
        ensures
            r.session_id is None,
    {
        ProducerSession { session_id: None }
    }

    /// Takes note of a parsed frame. The first one establishes the session:
    /// its id and declared name are returned, to be registered. Later frames
    /// return nothing and change nothing.
    pub fn claim(&mut self, msg: &TerminalMessage) -> (r: Option<(String, Option<String>)>)
        ensures
            match old(self).session_id {
                None => r matches Some((id, name)) && id@ == terminal_session_id(*msg)
                    && name == declared_name(*msg)
                    && (final(self).session_id matches Some(s) && s@ == id@),
                Some(_) => r is None && final(self).session_id == old(self).session_id,
            },
    {
        if self.session_id.is_some() {
            return None;
        }
        let id = owned(msg.session_id());
        let name = match msg {
            TerminalMessage::SessionStart { name: Some(n), .. } => Some(n.clone()),
            _ => None,
        };
        self.session_id = Some(id.clone());
        Some((id, name))
    }

    /// Handles one parsed frame of the connection: the first one registers
    /// the connection's wrapper under the session id it names, with `sender`
    /// as its delivery handle; every frame is then broadcast to the hub's
    /// viewers.
    pub fn on_frame<S>(&mut self, hub: &mut TerminalTokenState<S>, msg: TerminalMessage, sender: S)
        requires
            old(hub).wf(),
        ensures
            final(hub).wf(),
            match old(self).session_id {
                None => final(hub).sessions() == old(hub).sessions().insert(
                    terminal_session_id(msg),
                    (SessionConnection { sender, name: declared_name(msg) }),
                ) && (final(self).session_id matches Some(s) && s@ == terminal_session_id(msg)),
                Some(_) => final(hub).sessions() == old(hub).sessions() && final(self).session_id
                    == old(self).session_id,
            },
            final(hub).sent@ == old(hub).sent@.push(msg),
    {
        let ghost m = msg;
        match self.claim(&msg) {
            Some((id, name)) => hub.register_producer(id, sender, name),
            None => {},
        }
        hub.broadcast(msg);
        assert(hub.sent@ == old(hub).sent@.push(m));
    }

    /// Ends the connection: the session it established, if any, is
    /// unregistered, and viewers are told that it ended.
    pub fn on_close<S>(&self, hub: &mut TerminalTokenState<S>)
        requires
            old(hub).wf(),
        ensures
            final(hub).wf(),
            match self.session_id {
                Some(s) => final(hub).sessions() == old(hub).sessions().remove(s@)
                    && final(hub).sent@.len() == old(hub).sent@.len() + 1
                    && final(hub).sent@.drop_last() == old(hub).sent@
                    && (final(hub).sent@.last() matches TerminalMessage::SessionEnd { session_id: e, .. } && e@ == s@),
                None => final(hub).sessions() == old(hub).sessions() && final(hub).sent@ == old(hub).sent@,
            },
    {
        match &self.session_id {
            Some(id) => hub.unregister(id.as_str()),
            None => {},
        }
    }

    /// The session to unregister when the connection ends, if one was
    /// established.
    pub fn release(&self) -> (r: Option<&String>)
        ensures
            match self.session_id {
                Some(s) => r matches Some(t) && *t == s,
                None => r is None,
            },
    {
        self.session_id.as_ref()
    }
}

/// The apps a listener announces, if `msg` is its ready frame. Any other
/// frame leaves the listener waiting.
pub fn ready_apps(msg: ChatMessage) -> (r: Option<Vec<AppInfo>>)
    ensures
        match msg {
            ChatMessage::ListenerReady { apps } => r == Some(apps),
            _ => r is None,
        },
{
    match msg {
        ChatMessage::ListenerReady { apps } => Some(apps),
        _ => None,
    }
}

/// What the chat listener is asked to do by a frame from the relay.
pub enum ListenerRequest {
    /// Run the agent on a prompt.
    Chat { chat_session_id: Option<String>, app_root: String, content: String },
    /// Reload the configuration and announce the apps again.
    Resync,
    /// Nothing: the frame is not addressed to the listener.
    Ignore,
}

/// The request a frame from the relay makes of the listener.
pub fn listener_request(msg: ChatMessage) -> (r: ListenerRequest)
    ensures
        match msg {
            ChatMessage::ChatInput { chat_session_id, app_root, content } => r == (ListenerRequest::Chat {
                chat_session_id,
                app_root,
                content,
            }),
            ChatMessage::ResyncApps => r is Resync,
            _ => r is Ignore,
        },
{
    match msg {
        ChatMessage::ChatInput { chat_session_id, app_root, content } => ListenerRequest::Chat {
            chat_session_id,
            app_root,
            content,
        },
        ChatMessage::ResyncApps => ListenerRequest::Resync,
        _ => ListenerRequest::Ignore,
    }
}

/// What a viewer's frame asks the relay to do: route input to a session, or
/// nothing (viewers do not broadcast).
pub fn viewer_input(msg: &TerminalMessage) -> (r: Option<(&String, &String)>)
    ensures
        match *msg {
            TerminalMessage::Input { session_id, content } => r matches Some((s, c)) && *s == session_id && *c == content,
            _ => r is None,
        },
{
    match msg {
        TerminalMessage::Input { session_id, content } => Some((session_id, content)),
        _ => None,
    }
}

} // verus!
