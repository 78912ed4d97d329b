//! Per-token hubs: a broadcast channel to viewers, plus the terminal
//! sessions (or the chat listener) that currently produce under the token.
use vstd::prelude::*;
use tokio::sync::broadcast;
use crate::error::ApiError;
use crate::message::{copy_apps, same_apps, AppInfo, ChatMessage, SessionBasicInfo, TerminalMessage};
use crate::keyed::KeyedTable;

verus! {

#[verifier::external_type_specification]
#[verifier::external_body]
#[verifier::reject_recursive_types(T)]
pub struct ExBroadcastSender<T>(broadcast::Sender<T>);

#[verifier::external_type_specification]
#[verifier::external_body]
#[verifier::reject_recursive_types(T)]
pub struct ExBroadcastReceiver<T>(broadcast::Receiver<T>);

/// The buffer each hub asks for: a viewer may fall at least this many
/// messages behind before it loses the oldest (the channel rounds the
/// capacity up to a power of two).
pub const BROADCAST_CAPACITY: usize = 1000;

/// The capacity a terminal viewers' channel was made with.
pub uninterp spec fn terminal_channel_capacity(tx: broadcast::Sender<TerminalMessage>) -> nat;

/// The capacity a chat viewers' channel was made with.
pub uninterp spec fn chat_channel_capacity(tx: broadcast::Sender<ChatMessage>) -> nat;

/// Relies on `tokio::sync::broadcast::Sender::new`: a channel made with
/// `capacity` and no receiver. It panics on a capacity of zero or above
/// `usize::MAX / 2`.
#[verifier::external_body]
fn new_terminal_channel(capacity: usize) -> (r: broadcast::Sender<TerminalMessage>)
    requires
        1 <= capacity <= usize::MAX / 2,
    ensures
        terminal_channel_capacity(r) == capacity,
{
    broadcast::Sender::new(capacity)
}

/// Relies on `tokio::sync::broadcast::Sender::new`: a channel made with
/// `capacity` and no receiver. It panics on a capacity of zero or above
/// `usize::MAX / 2`.
#[verifier::external_body]
fn new_chat_channel(capacity: usize) -> (r: broadcast::Sender<ChatMessage>)
    requires
        1 <= capacity <= usize::MAX / 2,
    ensures
        chat_channel_capacity(r) == capacity,
{
    broadcast::Sender::new(capacity)
}

/// Relies on `tokio::sync::broadcast::Sender::send`: it never waits, and on
/// success reports how many receivers (at least one) were subscribed. It fails
/// only when none is.
#[verifier::external_body]
fn broadcast_send<T>(tx: &broadcast::Sender<T>, value: T) -> (r: Option<usize>)
    ensures
        r matches Some(n) ==> n >= 1,
{
    tx.send(value).ok()
}

/// Relies on `tokio::sync::broadcast::Sender::subscribe`: a receiver of every
/// value sent after this call.
#[verifier::external_body]
fn broadcast_subscribe<T>(tx: &broadcast::Sender<T>) -> (r: broadcast::Receiver<T>) {
    tx.subscribe()
}

/// A terminal wrapper registered under a session id: the handle that delivers
/// input to it, and its display name.
pub struct SessionConnection<S> {
    pub sender: S,
    pub name: Option<String>,
}

/// The hub of one terminal token: viewers' broadcast channel and the
/// registered wrappers, at most one per session id.
pub struct TerminalTokenState<S> {
    pub ui_tx: broadcast::Sender<TerminalMessage>,
    pub wrappers: KeyedTable<SessionConnection<S>>,
    /// Every message handed to the viewers so far, in order.
    pub sent: Ghost<Seq<TerminalMessage>>,
}

impl<S> TerminalTokenState<S> {
    pub open spec fn wf(&self) -> bool {
        self.wrappers.wf()
    }

    /// The registered wrappers, by session id.
    pub open spec fn sessions(&self) -> Map<Seq<char>, SessionConnection<S>> {
        self.wrappers.view()
    }

    /// An empty hub whose viewers may lag up to the broadcast capacity.
    pub fn new() -> (r: Self)
        ensures
            r.wf(),
            r.sessions() == Map::<Seq<char>, SessionConnection<S>>::empty(),
            terminal_channel_capacity(r.ui_tx) == BROADCAST_CAPACITY,
            r.sent@ == Seq::<TerminalMessage>::empty(),
    {
        TerminalTokenState {
            ui_tx: new_terminal_channel(BROADCAST_CAPACITY),
            wrappers: KeyedTable::new(),
            sent: Ghost(Seq::empty()),
        }
    }

    /// Registers the wrapper of `session_id`; a wrapper already registered
    /// under that id is replaced.
    pub fn register_producer(&mut self, session_id: String, sender: S, name: Option<String>)
        requires
            old(self).wf(),
        ensures
            final(self).wf(),
            final(self).sessions() == old(self).sessions().insert(
                session_id@,
                (SessionConnection { sender, name }),
            ),
            final(self).sent@ == old(self).sent@,
            final(self).ui_tx == old(self).ui_tx,
    {
        self.wrappers.insert(session_id, SessionConnection { sender, name });
    }

    /// Removes the wrapper of `session_id`, if any, and tells viewers that
    /// the session ended.
    pub fn unregister(&mut self, session_id: &str)
        requires
            old(self).wf(),
        ensures
            final(self).wf(),
            final(self).sessions() == old(self).sessions().remove(session_id@),
            final(self).ui_tx == old(self).ui_tx,
            final(self).sent@.len() == old(self).sent@.len() + 1,
            final(self).sent@.drop_last() == old(self).sent@,
            final(self).sent@.last() matches TerminalMessage::SessionEnd { session_id: s, .. } && s@ == session_id@,
    {
        self.wrappers.remove(session_id);
        self.broadcast(TerminalMessage::session_end(session_id));
        assert(self.sent@.drop_last() =~= old(self).sent@);
    }

    /// Hands `msg` to every current viewer without waiting; a hub with no
    /// viewer drops it.
    pub fn broadcast(&mut self, msg: TerminalMessage)
        ensures
            final(self).sent@ == old(self).sent@.push(msg),
            final(self).wrappers == old(self).wrappers,
            final(self).ui_tx == old(self).ui_tx,
    {
        let ghost m = msg;
        let _ = broadcast_send(&self.ui_tx, msg);
        let ghost log = self.sent@.push(m);
        self.sent = Ghost(log);
    }

    /// A new viewer, which receives every message broadcast from now on.
    pub fn subscribe(&self) -> broadcast::Receiver<TerminalMessage> {
        broadcast_subscribe(&self.ui_tx)
    }

    /// Where input for `session_id` goes: the wrapper's delivery handle and the
    /// `Input` message to hand it, or `NotFound` when no wrapper is registered
    /// under that id.
    pub fn route_input(&self, session_id: &str, content: &str) -> (r: Result<(&S, TerminalMessage), ApiError>)
        requires
            self.wf(),
        ensures
            match r {
                Ok((s, m)) => self.sessions().contains_key(session_id@)
                    && *s == self.sessions()[session_id@].sender
                    && (m matches TerminalMessage::Input { session_id: i, content: c }
                    && i@ == session_id@ && c@ == content@),
                Err(e) => e == ApiError::NotFound && !self.sessions().contains_key(session_id@),
            },
    {
        match self.wrappers.get(session_id) {
            Some(conn) => Ok((&conn.sender, TerminalMessage::input(session_id, content))),
            None => Err(ApiError::NotFound),
        }
    }

    /// The registered sessions, in registration order, as viewers list them.
    pub fn active_sessions(&self) -> (r: TerminalMessage)
        ensures
            r matches TerminalMessage::ActiveSessions { sessions }
                && sessions@.len() == self.wrappers.entries@.len()
                && forall|i: int| 0 <= i < sessions@.len() ==> {
                    let e = #[trigger] self.wrappers.entries@[i];
                    sessions@[i].id@ == e.0@ && sessions@[i].name == e.1.name
                },
    {
        let mut sessions: Vec<SessionBasicInfo> = Vec::new();
        let mut i: usize = 0;
        while i < self.wrappers.entries.len()
            invariant
                i <= self.wrappers.entries@.len(),
                sessions@.len() == i,
                forall|k: int| 0 <= k < i ==> {
                    let e = #[trigger] self.wrappers.entries@[k];
                    sessions@[k].id@ == e.0@ && sessions@[k].name == e.1.name
                },
            decreases self.wrappers.entries@.len() - i,
        {
            let e = &self.wrappers.entries[i];
            let name = match &e.1.name {
                Some(n) => Some(n.clone()),
                None => None,
            };
            sessions.push(SessionBasicInfo { id: e.0.clone(), name });
            i = i + 1;
        }
        TerminalMessage::ActiveSessions { sessions }
    }

    /// How many wrappers are registered.
    pub fn session_count(&self) -> (r: usize)
        ensures
            r == self.wrappers.entries@.len(),
    {
        self.wrappers.len()
    }
}

/// The chat listener registered under a token: the handle that delivers
/// requests to it, and the apps it announced.
pub struct ListenerConnection<S> {
    pub sender: S,
    pub apps: Vec<AppInfo>,
}

/// What the chat status endpoint reports.
#[derive(Clone, Debug)]
pub struct ChatStatusResponse {
    pub listener_connected: bool,
    pub apps: Vec<String>,
}

/// The hub of one chat token: viewers' broadcast channel and the listener,
/// if one is connected.
pub struct ChatTokenState<S> {
    pub tx: broadcast::Sender<ChatMessage>,
    pub listener: Option<ListenerConnection<S>>,
    /// Every message handed to the viewers so far, in order.
    pub sent: Ghost<Seq<ChatMessage>>,
}

impl<S> ChatTokenState<S> {
    /// A hub with no listener.
    pub fn new() -> (r: Self)
        ensures
            r.listener is None,
            chat_channel_capacity(r.tx) == BROADCAST_CAPACITY,
            r.sent@ == Seq::<ChatMessage>::empty(),
    {
        ChatTokenState { tx: new_chat_channel(BROADCAST_CAPACITY), listener: None, sent: Ghost(Seq::empty()) }
    }

    /// Makes this the token's listener, replacing any earlier one.
    pub fn set_listener(&mut self, sender: S, apps: Vec<AppInfo>)
        ensures
            final(self).listener == Some(ListenerConnection { sender, apps }),
            final(self).sent == old(self).sent,
            final(self).tx == old(self).tx,
    {
        self.listener = Some(ListenerConnection { sender, apps });
    }

    /// Registers the listener that announced `apps`, replacing any earlier
    /// one, and tells viewers which apps it serves.
    pub fn register_listener(&mut self, sender: S, apps: Vec<AppInfo>)
        ensures
            final(self).listener == Some(ListenerConnection { sender, apps }),
            final(self).tx == old(self).tx,
            final(self).sent@.len() == old(self).sent@.len() + 1,
            final(self).sent@.drop_last() == old(self).sent@,
            final(self).sent@.last() matches ChatMessage::ListenerReady { apps: a } && same_apps(a@, apps@),
    {
        let announced = copy_apps(&apps);
        self.set_listener(sender, apps);
        self.broadcast(ChatMessage::ListenerReady { apps: announced });
        assert(self.sent@.drop_last() =~= old(self).sent@);
    }

    /// Forgets the listener.
    pub fn clear_listener(&mut self)
        ensures
            final(self).listener is None,
            final(self).sent == old(self).sent,
            final(self).tx == old(self).tx,
    {
        self.listener = None;
    }

    /// Hands `msg` to every current viewer without waiting.
    pub fn broadcast(&mut self, msg: ChatMessage)
        ensures
            final(self).sent@ == old(self).sent@.push(msg),
            final(self).listener == old(self).listener,
            final(self).tx == old(self).tx,
    {
        let ghost m = msg;
        let _ = broadcast_send(&self.tx, msg);
        let ghost log = self.sent@.push(m);
        self.sent = Ghost(log);
    }

    /// A new viewer, which receives every message broadcast from now on.
    pub fn subscribe(&self) -> broadcast::Receiver<ChatMessage> {
        broadcast_subscribe(&self.tx)
    }

    /// Where a chat prompt goes: the listener's delivery handle and the
    /// `ChatInput` to hand it, or `Unavailable` when no listener is connected.
    pub fn route_chat_input(&self, chat_session_id: Option<String>, app_root: String, content: String) -> (r: Result<
        (&S, ChatMessage),
        ApiError,
    >)
        ensures
            match r {
                Ok((s, m)) => self.listener matches Some(l) && *s == l.sender
                    && m == (ChatMessage::ChatInput { chat_session_id, app_root, content }),
                Err(e) => e == ApiError::Unavailable && self.listener is None,
            },
    {
        match &self.listener {
            Some(l) => Ok((&l.sender, ChatMessage::ChatInput { chat_session_id, app_root, content })),
            None => Err(ApiError::Unavailable),
        }
    }

    /// Where a request to announce the apps again goes, or `Unavailable`.
    pub fn route_resync(&self) -> (r: Result<(&S, ChatMessage), ApiError>)
        ensures
            match r {
                Ok((s, m)) => self.listener matches Some(l) && *s == l.sender && m == ChatMessage::ResyncApps,
                Err(e) => e == ApiError::Unavailable && self.listener is None,
            },
    {
        match &self.listener {
            Some(l) => Ok((&l.sender, ChatMessage::ResyncApps)),
            None => Err(ApiError::Unavailable),
        }
    }

    /// The event a new viewer sees first: the connected listener's apps.
    pub fn initial_event(&self) -> (r: Option<ChatMessage>)
        ensures
            match self.listener {
                Some(l) => r matches Some(ChatMessage::ListenerReady { apps }) && same_apps(apps@, l.apps@),
                None => r is None,
            },
    {
        match &self.listener {
            Some(l) => Some(ChatMessage::ListenerReady { apps: copy_apps(&l.apps) }),
            None => None,
        }
    }

    /// Whether a listener is connected, and the roots of its apps.
    pub fn status(&self) -> (r: ChatStatusResponse)
        ensures
            r.listener_connected == self.listener is Some,
            match self.listener {
                Some(l) => r.apps@.len() == l.apps@.len()
                    && forall|i: int| 0 <= i < r.apps@.len() ==> (#[trigger] r.apps@[i])@ == l.apps@[i].root@,
                None => r.apps@.len() == 0,
            },
    {
        match &self.listener {
            Some(l) => {
                let mut roots: Vec<String> = Vec::new();
                let mut i: usize = 0;
                while i < l.apps.len()
                    invariant
                        i <= l.apps@.len(),
                        roots@.len() == i,
                        forall|k: int| 0 <= k < i ==> (#[trigger] roots@[k])@ == l.apps@[k].root@,
                    decreases l.apps@.len() - i,
                {
                    roots.push(l.apps[i].root.clone());
                    i = i + 1;
                }
                ChatStatusResponse { listener_connected: true, apps: roots }
            },
            None => ChatStatusResponse { listener_connected: false, apps: Vec::new() },
        }
    }
}

} // verus!
