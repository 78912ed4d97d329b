//! The chat runner's decisions: one agent invocation per prompt, its
//! arguments, the events it emits and how its completion is judged.
use vstd::prelude::*;
use vstd::string::*;
use crate::config::ChatSession;
use crate::message::ChatMessage;
use crate::text::{opt_str_view, owned, spec_trim, str_eq, trim};

verus! {

/// The text of the string member `key` of the JSON object that `text` holds,
/// as `serde_json` reads it.
pub uninterp spec fn json_str_member(text: Seq<char>, key: Seq<char>) -> Option<Seq<char>>;

/// The boolean member `key` of the JSON object that `text` holds, as
/// `serde_json` reads it.
pub uninterp spec fn json_bool_member(text: Seq<char>, key: Seq<char>) -> Option<bool>;

/// Relies on `serde_json::from_str` into a `serde_json::Value`, then
/// `Value::get` and `Value::as_str`: the text of the member when the line is
/// JSON and the member is a string; nothing otherwise. It depends on the two
/// texts alone.
#[verifier::external_body]
fn json_str_field(text: &str, key: &str) -> (r: Option<String>)
    ensures
        match r {
            Some(s) => json_str_member(text@, key@) == Some(s@),
            None => json_str_member(text@, key@) is None,
        },
{
    let v: serde_json::Value = match serde_json::from_str(text) {
        Ok(v) => v,
        Err(_) => return None,
    };
    match v.get(key).and_then(serde_json::Value::as_str) {
        Some(s) => Some(s.to_string()),
        None => None,
    }
}

/// Relies on `serde_json::from_str` into a `serde_json::Value`, then
/// `Value::get` and `Value::as_bool`: the member's value when the line is JSON
/// and the member is a boolean; nothing otherwise.
#[verifier::external_body]
fn json_bool_field(text: &str, key: &str) -> (r: Option<bool>)
    ensures
        r == json_bool_member(text@, key@),
{
    let v: serde_json::Value = match serde_json::from_str(text) {
        Ok(v) => v,
        Err(_) => return None,
    };
    v.get(key).and_then(serde_json::Value::as_bool)
}

/// The application-level outcome a line reports: the error flag of a record
/// whose `type` is `result`, and nothing for any other line.
pub open spec fn spec_result_flag(type_tag: Option<Seq<char>>, is_error: Option<bool>) -> Option<bool> {
    match (type_tag, is_error) {
        (Some(t), Some(e)) => if t == "result"@ { Some(e) } else { None },
        _ => None,
    }
}

/// The application-level outcome a line reports, from its `type` and
/// `is_error` members.
pub fn result_flag(type_tag: Option<&str>, is_error: Option<bool>) -> (r: Option<bool>)
    ensures
        r == spec_result_flag(opt_str_view(type_tag), is_error),
{
    proof {
        reveal_strlit("result");
    }
    match (type_tag, is_error) {
        (Some(t), Some(e)) => if str_eq(t, "result") {
            Some(e)
        } else {
            None
        },
        _ => None,
    }
}

/// Reads one line of the agent's structured output: the error flag when the
/// line is a JSON `result` record that carries one.
pub fn check_result_event(line: &str) -> (r: Option<bool>)
    ensures
        r == spec_result_flag(json_str_member(line@, "type"@), json_bool_member(line@, "is_error"@)),
{
    let type_tag = json_str_field(line, "type");
    let is_error = json_bool_field(line, "is_error");
    match type_tag {
        Some(t) => result_flag(Some(t.as_str()), is_error),
        None => result_flag(None, is_error),
    }
}

/// How many characters of the prompt name a new chat session.
pub const SESSION_NAME_LEN: usize = 50;

/// The first 50 characters of a prompt.
pub open spec fn spec_session_name(content: Seq<char>) -> Seq<char> {
    if content.len() <= SESSION_NAME_LEN {
        content
    } else {
        content.subrange(0, SESSION_NAME_LEN as int)
    }
}

/// The name of a chat session started by `content`: its first 50 characters.
pub fn session_name(content: &str) -> (r: String)
    ensures
        r@ == spec_session_name(content@),
{
    let n = content.unicode_len();
    if n <= SESSION_NAME_LEN {
        owned(content)
    } else {
        owned(content.substring_char(0, SESSION_NAME_LEN))
    }
}

/// How an agent invocation ended.
pub enum AgentOutcome {
    /// The process could not be started.
    SpawnFailed { error: String },
    /// The process exited; `status` describes its exit status and `stderr`
    /// holds what it wrote to standard error.
    Exited { success: bool, status: String, stderr: String },
    /// Waiting for the process failed.
    WaitFailed { error: String },
}

/// The error text of an invocation of `program` that did not succeed: the
/// spawn or wait error as it is, or `<program> exited with status <status>`
/// followed by `: ` and the trimmed standard error when there was any.
pub open spec fn spec_failure_text(program: Seq<char>, outcome: AgentOutcome) -> Seq<char> {
    match outcome {
        AgentOutcome::SpawnFailed { error } => error@,
        AgentOutcome::WaitFailed { error } => error@,
        AgentOutcome::Exited { status, stderr, .. } => if stderr@.len() == 0 {
            program + " exited with status "@ + status@
        } else {
            program + " exited with status "@ + status@ + ": "@ + spec_trim(stderr@)
        },
    }
}

/// The chat session an event concerns.
pub open spec fn chat_event_session(m: ChatMessage) -> Seq<char> {
    match m {
        ChatMessage::ChatOutput { chat_session_id, .. } => chat_session_id@,
        ChatMessage::ChatDone { chat_session_id, .. } => chat_session_id@,
        ChatMessage::ChatError { chat_session_id, .. } => chat_session_id@,
        ChatMessage::ChatSessionCreated { chat_session_id, .. } => chat_session_id@,
        ChatMessage::ChatInput { chat_session_id: Some(id), .. } => id@,
        _ => Seq::empty(),
    }
}

/// The events of a run for a new chat session: one creation, then output
/// lines, then exactly one of done or error.
pub open spec fn is_fresh_transcript(events: Seq<ChatMessage>) -> bool {
    &&& events.len() >= 2
    &&& events[0] is ChatSessionCreated
    &&& forall|i: int| 1 <= i < events.len() - 1 ==> #[trigger] events[i] is ChatOutput
    &&& (events.last() is ChatDone || events.last() is ChatError)
}

/// One agent invocation, from the prompt to its final event.
pub struct ChatRun {
    /// The agent program that runs.
    pub program: String,
    pub session_id: String,
    pub app_root: String,
    pub is_new: bool,
    pub got_result_error: bool,
    pub finished: bool,
    /// The events emitted so far.
    pub events: Ghost<Seq<ChatMessage>>,
    /// The output lines read so far.
    pub lines: Ghost<Seq<Seq<char>>>,
}

impl ChatRun {
    /// The events so far have the shape of a run: a creation first exactly
    /// when the session is new, then output lines, then, once finished, one
    /// done or error.
    pub open spec fn wf(&self) -> bool {
        let ev = self.events@;
        let start: int = if self.is_new { 1 } else { 0 };
        let end: int = if self.finished { ev.len() - 1 } else { ev.len() as int };
        &&& start <= end
        &&& (self.is_new ==> ev[0] is ChatSessionCreated)
        &&& forall|i: int| start <= i < end ==> #[trigger] ev[i] is ChatOutput
        &&& self.lines@.len() == end - start
        &&& forall|i: int| start <= i < end ==> (#[trigger] ev[i] matches ChatMessage::ChatOutput { content: c, .. }
            && c@ == self.lines@[i - start])
        &&& (self.finished ==> (ev.last() is ChatDone || ev.last() is ChatError))
        &&& forall|i: int| 0 <= i < ev.len() ==> chat_event_session(#[trigger] ev[i]) == self.session_id@
    }

    /// Starts a run for a prompt. Without a chat session id, the run opens a
    /// new session under `fresh_id` and announces it (the announcement is
    /// returned, to be sent before the agent starts); with one, it resumes it.
    pub fn start(program: &str, chat_session_id: Option<String>, fresh_id: String, app_root: &str, content: &str) -> (r: (
        ChatRun,
        Option<ChatMessage>,
    ))
        ensures
            r.0.wf(),
            !r.0.finished,
            !r.0.got_result_error,
            r.0.is_new == chat_session_id is None,
            r.0.program@ == program@,
            r.0.app_root@ == app_root@,
            r.0.session_id == match chat_session_id {
                Some(id) => id,
                None => fresh_id,
            },
            match chat_session_id {
                Some(_) => r.1 is None && r.0.events@ == Seq::<ChatMessage>::empty(),
                None => r.1 matches Some(m) && r.0.events@ == seq![m]
                    && (m matches ChatMessage::ChatSessionCreated { chat_session_id: s, app_root: a, name: n, .. }
                    && s@ == fresh_id@ && a@ == app_root@ && n@ == spec_session_name(content@)),
            },
    {
        match chat_session_id {
            Some(id) => (
                ChatRun {
                    program: owned(program),
                    session_id: id,
                    app_root: owned(app_root),
                    is_new: false,
                    got_result_error: false,
                    finished: false,
                    events: Ghost(Seq::empty()),
                    lines: Ghost(Seq::empty()),
                },
                None,
            ),
            None => {
                let name = session_name(content);
                let created = ChatMessage::chat_session_created(fresh_id.as_str(), app_root, name.as_str());
                let ghost ev = seq![created];
                (
                    ChatRun {
                        program: owned(program),
                        session_id: fresh_id,
                        app_root: owned(app_root),
                        is_new: true,
                        got_result_error: false,
                        finished: false,
                        events: Ghost(ev),
                        lines: Ghost(Seq::empty()),
                    },
                    Some(created),
                )
            },
        }
    }

    /// The record that persists a new chat session created at `now`: its id,
    /// its name (the prompt's first 50 characters) and `now` as both its
    /// creation and last activity. A resumed session gets none.
    pub fn session_record(&self, content: &str, now: i64) -> (r: Option<ChatSession>)
        ensures
            match r {
                Some(rec) => self.is_new && rec.id == self.session_id && rec.name@ == spec_session_name(content@)
                    && rec.created_at == now && rec.last_active == now,
                None => !self.is_new,
            },
    {
        if self.is_new {
            Some(ChatSession {
                id: self.session_id.clone(),
                name: session_name(content),
                created_at: now,
                last_active: now,
            })
        } else {
            None
        }
    }

    /// The agent's arguments: the prompt, streamed line-delimited JSON output,
    /// and the session to create or to resume.
    pub fn agent_args(&self, content: &str) -> (r: Vec<String>)
        ensures
            r@.len() == 7,
            r@[0]@ == "-p"@,
            r@[1]@ == content@,
            r@[2]@ == "--output-format"@,
            r@[3]@ == "stream-json"@,
            r@[4]@ == "--verbose"@,
            r@[5]@ == if self.is_new { "--session-id"@ } else { "-r"@ },
            r@[6]@ == self.session_id@,
    {
        let mut r: Vec<String> = Vec::new();
        r.push(owned("-p"));
        r.push(owned(content));
        r.push(owned("--output-format"));
        r.push(owned("stream-json"));
        r.push(owned("--verbose"));
        if self.is_new {
            r.push(owned("--session-id"));
        } else {
            r.push(owned("-r"));
        }
        r.push(self.session_id.clone());
        r
    }

    /// Forwards one line of output as it is read. `result_flag` is what the
    /// line reports about the outcome; the last report counts.
    pub fn on_line(&mut self, line: &str, result_flag: Option<bool>) -> (r: ChatMessage)
        requires
            old(self).wf(),
            !old(self).finished,
        ensures
            final(self).wf(),
            !final(self).finished,
            final(self).is_new == old(self).is_new,
            final(self).session_id == old(self).session_id,
            final(self).program == old(self).program,
            final(self).app_root == old(self).app_root,
            final(self).got_result_error == match result_flag {
                Some(e) => e,
                None => old(self).got_result_error,
            },
            final(self).events@ == old(self).events@.push(r),
            final(self).lines@ == old(self).lines@.push(line@),
            r matches ChatMessage::ChatOutput { chat_session_id: s, content: c, .. }
                && s@ == old(self).session_id@ && c@ == line@,
    {
        match result_flag {
            Some(e) => {
                self.got_result_error = e;
            },
            None => {},
        }
        let out = ChatMessage::chat_output(self.session_id.as_str(), line);
        let ghost ev = self.events@.push(out);
        self.events = Ghost(ev);
        let ghost ls = self.lines@.push(line@);
        self.lines = Ghost(ls);
        out
    }

    /// Whether the run succeeded: the process exited successfully and no line
    /// reported an application-level error.
    pub open spec fn succeeded(&self, outcome: AgentOutcome) -> bool {
        outcome matches AgentOutcome::Exited { success, .. } && success && !self.got_result_error
    }

    /// The run's final event: done when it succeeded, else an error carrying
    /// the standard-error text or the failing status.
    pub fn finish(&mut self, outcome: AgentOutcome) -> (r: ChatMessage)
        requires
            old(self).wf(),
            !old(self).finished,
        ensures
            final(self).wf(),
            final(self).finished,
            final(self).is_new == old(self).is_new,
            final(self).session_id == old(self).session_id,
            final(self).program == old(self).program,
            final(self).app_root == old(self).app_root,
            final(self).got_result_error == old(self).got_result_error,
            final(self).events@ == old(self).events@.push(r),
            final(self).lines == old(self).lines,
            if old(self).succeeded(outcome) {
                r matches ChatMessage::ChatDone { chat_session_id: s, .. } && s@ == old(self).session_id@
            } else {
                r matches ChatMessage::ChatError { chat_session_id: s, error: e, .. }
                    && s@ == old(self).session_id@ && e@ == spec_failure_text(old(self).program@, outcome)
            },
    {
        proof {
            reveal_strlit(" exited with status ");
            reveal_strlit(": ");
        }
        let ghost o = outcome;
        let ghost ok = self.succeeded(outcome);
        let r = match outcome {
            AgentOutcome::SpawnFailed { error } => ChatMessage::chat_error(self.session_id.as_str(), error.as_str()),
            AgentOutcome::WaitFailed { error } => ChatMessage::chat_error(self.session_id.as_str(), error.as_str()),
            AgentOutcome::Exited { success, status, stderr } => {
                if success && !self.got_result_error {
                    ChatMessage::chat_done(self.session_id.as_str())
                } else {
                    let mut text = owned(self.program.as_str());
                    text.append(" exited with status ");
                    text.append(status.as_str());
                    if stderr.as_str().unicode_len() != 0 {
                        text.append(": ");
                        text.append(trim(stderr.as_str()));
                    }
                    ChatMessage::chat_error(self.session_id.as_str(), text.as_str())
                }
            },
        };
        let ghost ev = self.events@.push(r);
        self.events = Ghost(ev);
        self.finished = true;
        r
    }
}

/// A run for a new chat session, once finished, has emitted exactly one
/// creation first, then one output per line read, carrying the lines in the
/// order they were read, then exactly one of done or error, all about the
/// run's session.
pub proof fn lemma_fresh_run_transcript(run: ChatRun)
    requires
        run.wf(),
        run.is_new,
        run.finished,
    ensures
        is_fresh_transcript(run.events@),
        forall|i: int| 0 <= i < run.events@.len() ==> chat_event_session(#[trigger] run.events@[i]) == run.session_id@,
        run.events@.len() == run.lines@.len() + 2,
        forall|i: int| 0 <= i < run.lines@.len() ==> (#[trigger] run.events@[i + 1] matches ChatMessage::ChatOutput {
            content: c,
            ..
        } && c@ == run.lines@[i]),
{
    assert forall|i: int| 0 <= i < run.lines@.len() implies (#[trigger] run.events@[i + 1] matches ChatMessage::ChatOutput {
        content: c,
        ..
    } && c@ == run.lines@[i]) by {
        assert(1 <= i + 1 < run.events@.len() - 1);
    }
}

} // verus!
