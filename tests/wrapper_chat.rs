use teeclaude::chat::{check_result_event, result_flag, session_name, AgentOutcome, ChatRun};
use teeclaude::message::ChatMessage;
use teeclaude::pty::{
    accepts_input, exit_code, full_command_line, plan_output, remote_input_bytes, terminal_size, OptionalWs, ENTER,
};
use teeclaude::message::TerminalMessage;

#[test]
fn exit_code_follows_child() {
    assert_eq!(exit_code(7), 7);
    assert_eq!(exit_code(0), 0);
    assert_eq!(exit_code(i32::MAX as u32), i32::MAX);
    assert_eq!(exit_code(u32::MAX), 1);
}

#[test]
fn terminal_size_defaults_and_truncates() {
    let d = terminal_size(None);
    assert_eq!((d.rows, d.cols), (24, 80));
    let s = terminal_size(Some((132, 43)));
    assert_eq!((s.rows, s.cols), (43, 132));
    let big = terminal_size(Some((65536 + 10, 65536 + 3)));
    assert_eq!((big.rows, big.cols), (3, 10));
}

#[test]
fn command_line_joins_with_spaces() {
    assert_eq!(full_command_line("bash", &vec![]), "bash");
    let args = vec!["-c".to_string(), "echo hi".to_string()];
    assert_eq!(full_command_line("bash", &args), "bash -c echo hi");
}

#[test]
fn remote_input_strips_trailing_line_ends() {
    assert_eq!(remote_input_bytes("ls -la\r\n\n"), b"ls -la".to_vec());
    assert_eq!(remote_input_bytes("a\nb\n"), b"a\nb".to_vec());
    assert_eq!(remote_input_bytes("\n\r"), Vec::<u8>::new());
    assert_eq!(remote_input_bytes("héllo\n"), "héllo".as_bytes().to_vec());
    assert_eq!(ENTER, b'\r');
}

#[test]
fn output_goes_local_first_even_without_relay() {
    let (ws, input) = OptionalWs::new(None);
    assert!(input.is_none());
    let chunks: Vec<Vec<u8>> = vec![b"hello ".to_vec(), vec![0xff, b'x'], b"world\n".to_vec()];
    let mut local: Vec<u8> = Vec::new();
    for c in &chunks {
        let plan = plan_output("s1", c);
        local.extend_from_slice(&plan.local);
        ws.send(plan.remote);
    }
    assert_eq!(local, chunks.concat());
}

#[test]
fn output_message_decodes_lossily() {
    let plan = plan_output("s1", &[b'o', b'k', 0xff]);
    match plan.remote {
        TerminalMessage::Output { session_id, content, .. } => {
            assert_eq!(session_id, "s1");
            assert_eq!(content, "ok\u{FFFD}");
        }
        _ => panic!("expected output"),
    }
}

#[test]
fn wrapper_accepts_only_its_input() {
    assert!(accepts_input(&TerminalMessage::input("s1", "x"), "s1"));
    assert!(!accepts_input(&TerminalMessage::input("s2", "x"), "s1"));
    assert!(!accepts_input(&TerminalMessage::output("s1", "x"), "s1"));
}

#[test]
fn session_name_is_first_fifty_chars() {
    assert_eq!(session_name("short"), "short");
    let long: String = "é".repeat(60);
    assert_eq!(session_name(&long), "é".repeat(50));
}

#[test]
fn result_lines_are_recognised() {
    assert_eq!(check_result_event(r#"{"type":"result","is_error":true}"#), Some(true));
    assert_eq!(check_result_event(r#"{"type":"result","is_error":false,"x":1}"#), Some(false));
    assert_eq!(check_result_event(r#"{"type":"assistant","is_error":true}"#), None);
    assert_eq!(check_result_event(r#"{"type":"result"}"#), None);
    assert_eq!(check_result_event("not json"), None);
    assert_eq!(result_flag(Some("result"), Some(true)), Some(true));
    assert_eq!(result_flag(Some("other"), Some(true)), None);
    assert_eq!(result_flag(None, Some(false)), None);
}

#[test]
fn fresh_prompt_event_sequence() {
    let (mut run, created) = ChatRun::start("bot", None, "new-id".to_string(), "/w/app", "hello there");
    let mut events: Vec<ChatMessage> = vec![created.unwrap()];
    events.push(run.on_line("{\"type\":\"assistant\"}", None));
    events.push(run.on_line("{\"type\":\"result\",\"is_error\":false}", Some(false)));
    events.push(run.finish(AgentOutcome::Exited { success: true, status: "exit status: 0".to_string(), stderr: String::new() }));
    assert!(matches!(&events[0], ChatMessage::ChatSessionCreated { chat_session_id, app_root, name, .. }
        if chat_session_id == "new-id" && app_root == "/w/app" && name == "hello there"));
    assert!(matches!(&events[1], ChatMessage::ChatOutput { .. }));
    assert!(matches!(&events[2], ChatMessage::ChatOutput { content, .. } if content.contains("result")));
    assert!(matches!(&events[3], ChatMessage::ChatDone { chat_session_id, .. } if chat_session_id == "new-id"));
    assert_eq!(events.len(), 4);
}

#[test]
fn result_error_flag_turns_success_into_error() {
    let (mut run, created) = ChatRun::start("bot", Some("c1".to_string()), "unused".to_string(), "/w", "hi");
    assert!(created.is_none());
    run.on_line("{\"type\":\"result\",\"is_error\":true}", Some(true));
    let last = run.finish(AgentOutcome::Exited {
        success: true,
        status: "exit status: 0".to_string(),
        stderr: "  boom \n".to_string(),
    });
    match last {
        ChatMessage::ChatError { chat_session_id, error, .. } => {
            assert_eq!(chat_session_id, "c1");
            assert_eq!(error, "bot exited with status exit status: 0: boom");
        }
        _ => panic!("expected an error"),
    }
}

#[test]
fn failed_exit_without_stderr_reports_status() {
    let (mut run, _) = ChatRun::start("bot", Some("c2".to_string()), "x".to_string(), "/w", "hi");
    match run.finish(AgentOutcome::Exited { success: false, status: "exit status: 2".to_string(), stderr: String::new() }) {
        ChatMessage::ChatError { error, .. } => assert_eq!(error, "bot exited with status exit status: 2"),
        _ => panic!("expected an error"),
    }
}

#[test]
fn spawn_failure_is_an_error_event() {
    let (mut run, created) = ChatRun::start("bot", None, "n1".to_string(), "/w", "hi");
    assert!(created.is_some());
    match run.finish(AgentOutcome::SpawnFailed { error: "No such file".to_string() }) {
        ChatMessage::ChatError { chat_session_id, error, .. } => {
            assert_eq!(chat_session_id, "n1");
            assert_eq!(error, "No such file");
        }
        _ => panic!("expected an error"),
    }
}

#[test]
fn agent_args_for_new_and_resumed_sessions() {
    let (run, _) = ChatRun::start("bot", None, "n1".to_string(), "/w", "do it");
    assert_eq!(run.agent_args("do it"), vec!["-p", "do it", "--output-format", "stream-json", "--verbose", "--session-id", "n1"]);
    let (run, _) = ChatRun::start("bot", Some("old".to_string()), "n2".to_string(), "/w", "again");
    assert_eq!(run.agent_args("again"), vec!["-p", "again", "--output-format", "stream-json", "--verbose", "-r", "old"]);
}

#[test]
fn new_sessions_get_a_record_resumed_ones_do_not() {
    let (run, _) = ChatRun::start("bot", None, "n1".to_string(), "/w", "a prompt");
    let rec = run.session_record("a prompt", 42).unwrap();
    assert_eq!(rec.id, "n1");
    assert_eq!(rec.name, "a prompt");
    assert_eq!((rec.created_at, rec.last_active), (42, 42));
    let (run, _) = ChatRun::start("bot", Some("old".to_string()), "n2".to_string(), "/w", "again");
    assert!(run.session_record("again", 42).is_none());
}
