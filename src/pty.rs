//! The terminal wrapper's decisions: the pseudo-terminal's size, the command
//! line it announces, how remote input becomes keystrokes, what reaches the
//! local terminal and the relay for each chunk of output, and its exit code.
use vstd::prelude::*;
use vstd::string::*;
use vstd::utf8::*;
use vstd::slice::slice_to_vec;
use tokio::sync::mpsc;
use crate::message::{terminal_session_id, TerminalMessage};
use crate::text::owned;

verus! {

#[verifier::external_type_specification]
#[verifier::external_body]
#[verifier::reject_recursive_types(T)]
pub struct ExMpscSender<T>(mpsc::Sender<T>);

#[verifier::external_type_specification]
#[verifier::external_body]
#[verifier::reject_recursive_types(T)]
pub struct ExMpscReceiver<T>(mpsc::Receiver<T>);

/// Relies on `tokio::sync::mpsc::Sender::try_send`: it never waits; it fails
/// when the channel is full or closed. Nothing is promised of which.
#[verifier::external_body]
fn try_send<T>(tx: &mpsc::Sender<T>, value: T) -> (r: bool) {
    tx.try_send(value).is_ok()
}

/// What `String::from_utf8_lossy` makes of a byte string.
pub uninterp spec fn lossy_text(b: Seq<u8>) -> Seq<char>;

/// Relies on `String::from_utf8_lossy`: valid UTF-8 is decoded as it is;
/// other bytes become replacement characters.
#[verifier::external_body]
fn utf8_lossy(b: &[u8]) -> (r: String)
    ensures
        r@ == lossy_text(b@),
        valid_utf8(b@) ==> r@ == decode_utf8(b@),
{
    String::from_utf8_lossy(b).into_owned()
}

/// Rows and columns of the pseudo-terminal.
#[derive(Clone, Copy, Debug, PartialEq, Eq, Structural)]
pub struct TermSize {
    pub rows: u16,
    pub cols: u16,
}

/// The size used when the local terminal's cannot be read.
pub const DEFAULT_ROWS: u16 = 24;
pub const DEFAULT_COLS: u16 = 80;

/// The pseudo-terminal's size from the local terminal's `(columns, rows)`,
/// if known; 80 by 24 otherwise.
pub fn terminal_size(dims: Option<(usize, usize)>) -> (r: TermSize)
    ensures
        match dims {
            Some((c, w)) => r.cols == c as u16 && r.rows == w as u16,
            None => r.rows == DEFAULT_ROWS && r.cols == DEFAULT_COLS,
        },
{
    match dims {
        Some((cols, rows)) => TermSize { rows: rows as u16, cols: cols as u16 },
        None => TermSize { rows: DEFAULT_ROWS, cols: DEFAULT_COLS },
    }
}

/// The command and its arguments, separated by single spaces.
pub open spec fn spec_command_line(command: Seq<char>, args: Seq<String>) -> Seq<char>
    decreases args.len(),
{
    if args.len() == 0 {
        command
    } else {
        spec_command_line(command, args.drop_last()) + " "@ + args.last()@
    }
}

/// The command line a session announces: the command and its arguments,
/// separated by single spaces.
pub fn full_command_line(command: &str, args: &Vec<String>) -> (r: String)
    ensures
        r@ == spec_command_line(command@, args@),
{
    let mut line = owned(command);
    let mut i: usize = 0;
    while i < args.len()
        invariant
            i <= args@.len(),
            line@ == spec_command_line(command@, args@.subrange(0, i as int)),
        decreases args@.len() - i,
    {
        proof {
            assert(args@.subrange(0, i + 1).drop_last() =~= args@.subrange(0, i as int));
        }
        line.append(" ");
        line.append(args[i].as_str());
        i = i + 1;
    }
    proof {
        assert(args@.subrange(0, args@.len() as int) =~= args@);
    }
    line
}

/// `s` without its trailing line feeds and carriage returns.
pub open spec fn trim_line_ends(s: Seq<char>) -> Seq<char>
    decreases s.len(),
{
    if s.len() > 0 && (s.last() == '\n' || s.last() == '\r') {
        trim_line_ends(s.drop_last())
    } else {
        s
    }
}

/// The byte that stands for pressing Enter.
pub const ENTER: u8 = 13;

/// The bytes that remote input types into the terminal before Enter is
/// pressed: its text without trailing line ends, in UTF-8.
pub fn remote_input_bytes(content: &str) -> (r: Vec<u8>)
    ensures
        r@ == encode_utf8(trim_line_ends(content@)),
{
    let mut end = content.unicode_len();
    assert(content@.subrange(0, end as int) =~= content@);
    while end > 0 && (content.get_char(end - 1) == '\n' || content.get_char(end - 1) == '\r')
        invariant
            end <= content@.len(),
            trim_line_ends(content@.subrange(0, end as int)) == trim_line_ends(content@),
        decreases end,
    {
        assert(content@.subrange(0, end as int).drop_last() =~= content@.subrange(0, end - 1));
        end = end - 1;
    }
    let kept = content.substring_char(0, end);
    kept.as_bytes_vec()
}

/// Whether a message from the relay is input for this wrapper's session.
pub fn accepts_input(msg: &TerminalMessage, session_id: &str) -> (r: bool)
    ensures
        r == (msg is Input && terminal_session_id(*msg) == session_id@),
{
    match msg {
        TerminalMessage::Input { session_id: s, .. } => crate::text::str_eq(s.as_str(), session_id),
        _ => false,
    }
}

/// What becomes of one chunk of the child's output: the bytes written to the
/// local terminal, first and always, and the message offered to the relay.
pub struct OutputPlan {
    pub local: Vec<u8>,
    pub remote: TerminalMessage,
}

/// Plans one chunk of output. The local part is the chunk itself, whatever
/// the state of the relay.
pub fn plan_output(session_id: &str, data: &[u8]) -> (r: OutputPlan)
    ensures
        r.local@ == data@,
        r.remote matches TerminalMessage::Output { session_id: s, content: c, .. }
            && s@ == session_id@ && c@ == lossy_text(data@),
{
    let content = utf8_lossy(data);
    OutputPlan { local: slice_to_vec(data), remote: TerminalMessage::output(session_id, content.as_str()) }
}

/// The chunks one after the other.
pub open spec fn concat_chunks(chunks: Seq<Seq<u8>>) -> Seq<u8>
    decreases chunks.len(),
{
    if chunks.len() == 0 {
        Seq::empty()
    } else {
        concat_chunks(chunks.drop_last()) + chunks.last()
    }
}

/// The local terminal receives every byte the child writes, in order: the
/// local parts of the plans of a run of chunks, written one after the other,
/// are those chunks one after the other.
pub proof fn lemma_local_output_complete(chunks: Seq<Seq<u8>>, plans: Seq<OutputPlan>)
    requires
        plans.len() == chunks.len(),
        forall|i: int| 0 <= i < chunks.len() ==> (#[trigger] plans[i]).local@ == chunks[i],
    ensures
        concat_chunks(plans.map_values(|p: OutputPlan| p.local@)) == concat_chunks(chunks),
{
    assert(plans.map_values(|p: OutputPlan| p.local@) =~= chunks);
}

/// The wrapper's exit code for the child's: the same when it fits, 1 otherwise.
pub fn exit_code(child_code: u32) -> (r: i32)
    ensures
        r == if child_code <= i32::MAX as u32 { child_code as i32 } else { 1i32 },
{
    if child_code <= i32::MAX as u32 {
        child_code as i32
    } else {
        1
    }
}

/// A live connection to the relay: the queue of outbound messages and the
/// queue of input for this session.
pub struct WsClient {
    pub output_tx: mpsc::Sender<TerminalMessage>,
    pub input_rx: mpsc::Receiver<TerminalMessage>,
}

/// The relay connection if one was made. Sending never waits and never fails:
/// without a connection, or with a full queue, the message is dropped.
pub struct OptionalWs {
    pub tx: Option<mpsc::Sender<TerminalMessage>>,
}

impl OptionalWs {
    /// Splits a connection, if any, into the fire-and-forget sender and the
    /// queue of remote input.
    pub fn new(client: Option<WsClient>) -> (r: (OptionalWs, Option<mpsc::Receiver<TerminalMessage>>))
        ensures
            r.0.tx is Some == client is Some,
            r.1 is Some == client is Some,
    {
        match client {
            Some(c) => (OptionalWs { tx: Some(c.output_tx) }, Some(c.input_rx)),
            None => (OptionalWs { tx: None }, None),
        }
    }

    /// Offers `msg` to the relay once, without waiting.
    pub fn send(&self, msg: TerminalMessage) {
        match &self.tx {
            Some(tx) => {
                let _ = try_send(tx, msg);
            },
            None => {},
        }
    }
}

} // verus!
