use teeclaude::error::{status_of, ApiError};
use teeclaude::hub::{ChatTokenState, TerminalTokenState, BROADCAST_CAPACITY};
use teeclaude::message::{AppInfo, ChatMessage, TerminalMessage};
use teeclaude::registry::{token_response, TokenRegistry};
use teeclaude::relay::{listener_request, ready_apps, viewer_input, ListenerRequest, ProducerSession};
use teeclaude::token::{Token, TOKEN_TTL_MILLIS};
use std::cell::RefCell;
use tokio::sync::broadcast::error::TryRecvError;

fn content_of(m: &TerminalMessage) -> Option<String> {
    match m {
        TerminalMessage::Output { content, .. } => Some(content.clone()),
        _ => None,
    }
}

#[test]
fn route_input_to_unknown_session_is_not_found() {
    let hub: TerminalTokenState<u32> = TerminalTokenState::new();
    let r = hub.route_input("nope", "ls\n");
    assert!(matches!(r, Err(ApiError::NotFound)));
    assert_eq!(status_of(Err(ApiError::NotFound)), 404);
}

#[test]
fn route_input_reaches_registered_session() {
    let mut hub: TerminalTokenState<u32> = TerminalTokenState::new();
    hub.register_producer("s1".to_string(), 11, Some("main".to_string()));
    hub.register_producer("s2".to_string(), 22, None);
    match hub.route_input("s2", "pwd") {
        Ok((sender, TerminalMessage::Input { session_id, content })) => {
            assert_eq!(*sender, 22);
            assert_eq!(session_id, "s2");
            assert_eq!(content, "pwd");
        }
        _ => panic!("expected a route to s2"),
    }
}

#[test]
fn register_same_session_replaces_previous() {
    let mut hub: TerminalTokenState<u32> = TerminalTokenState::new();
    hub.register_producer("s1".to_string(), 1, None);
    hub.register_producer("s1".to_string(), 2, Some("second".to_string()));
    assert_eq!(hub.session_count(), 1);
    match hub.route_input("s1", "x") {
        Ok((sender, _)) => assert_eq!(*sender, 2),
        Err(_) => panic!("s1 must be registered"),
    }
}

#[test]
fn unregister_removes_session_and_announces_end() {
    let mut hub: TerminalTokenState<u32> = TerminalTokenState::new();
    let mut rx = hub.subscribe();
    hub.register_producer("s1".to_string(), 1, None);
    hub.unregister("s1");
    assert_eq!(hub.session_count(), 0);
    assert!(matches!(hub.route_input("s1", "x"), Err(ApiError::NotFound)));
    match rx.try_recv() {
        Ok(TerminalMessage::SessionEnd { session_id, .. }) => assert_eq!(session_id, "s1"),
        _ => panic!("expected a session end"),
    }
}

#[test]
fn broadcast_with_no_subscriber_returns() {
    let mut hub: TerminalTokenState<u32> = TerminalTokenState::new();
    for i in 0..3000 {
        hub.broadcast(TerminalMessage::output("s1", &format!("{}", i)));
    }
    let mut chat: ChatTokenState<u32> = ChatTokenState::new();
    chat.broadcast(ChatMessage::ResyncApps);
}

#[test]
fn lagging_subscriber_loses_only_oldest() {
    let mut hub: TerminalTokenState<u32> = TerminalTokenState::new();
    let mut slow = hub.subscribe();
    let total = 1500usize;
    for i in 0..total {
        hub.broadcast(TerminalMessage::output("s1", &format!("{}", i)));
    }
    let mut missed = 0u64;
    let mut got: Vec<usize> = Vec::new();
    loop {
        match slow.try_recv() {
            Ok(m) => got.push(content_of(&m).unwrap().parse().unwrap()),
            Err(TryRecvError::Lagged(n)) => missed += n,
            Err(TryRecvError::Empty) => break,
            Err(e) => panic!("unexpected {:?}", e),
        }
    }
    assert!(got.len() >= BROADCAST_CAPACITY);
    assert_eq!(missed as usize + got.len(), total);
    let first = got[0];
    assert_eq!(first, missed as usize);
    for (k, v) in got.iter().enumerate() {
        assert_eq!(*v, first + k);
    }
    assert_eq!(*got.last().unwrap(), total - 1);
}

#[test]
fn two_subscribers_are_independent() {
    let mut hub: TerminalTokenState<u32> = TerminalTokenState::new();
    let mut a = hub.subscribe();
    let mut b = hub.subscribe();
    hub.broadcast(TerminalMessage::output("s1", "one"));
    assert_eq!(content_of(&a.try_recv().unwrap()).unwrap(), "one");
    hub.broadcast(TerminalMessage::output("s1", "two"));
    assert_eq!(content_of(&a.try_recv().unwrap()).unwrap(), "two");
    assert_eq!(content_of(&b.try_recv().unwrap()).unwrap(), "one");
    assert_eq!(content_of(&b.try_recv().unwrap()).unwrap(), "two");
}

#[test]
fn producer_first_frame_establishes_session() {
    let mut p = ProducerSession::new();
    assert!(p.release().is_none());
    let start = TerminalMessage::session_start("s1", "bash", Some("dev".to_string()));
    let claimed = p.claim(&start).unwrap();
    assert_eq!(claimed.0, "s1");
    assert_eq!(claimed.1, Some("dev".to_string()));
    let later = TerminalMessage::session_start("s9", "zsh", None);
    assert!(p.claim(&later).is_none());
    assert_eq!(p.release().unwrap(), "s1");
}

#[test]
fn producer_first_frame_without_name() {
    let mut p = ProducerSession::new();
    let out = TerminalMessage::output("s4", "hello");
    let claimed = p.claim(&out).unwrap();
    assert_eq!(claimed.0, "s4");
    assert_eq!(claimed.1, None);
}

#[test]
fn listener_waits_for_ready_frame() {
    assert!(ready_apps(ChatMessage::ResyncApps).is_none());
    assert!(ready_apps(ChatMessage::chat_done("c1")).is_none());
    let apps = vec![AppInfo { root: "/w/app".to_string(), name: "app".to_string() }];
    let got = ready_apps(ChatMessage::ListenerReady { apps }).unwrap();
    assert_eq!(got.len(), 1);
    assert_eq!(got[0].root, "/w/app");
}

#[test]
fn viewer_frames_route_only_input() {
    let input = TerminalMessage::input("s1", "ls");
    let (s, c) = viewer_input(&input).unwrap();
    assert_eq!(s, "s1");
    assert_eq!(c, "ls");
    assert!(viewer_input(&TerminalMessage::output("s1", "ls")).is_none());
}

#[test]
fn chat_hub_without_listener_is_unavailable() {
    let hub: ChatTokenState<u32> = ChatTokenState::new();
    let r = hub.route_chat_input(None, "/w".to_string(), "hi".to_string());
    assert!(matches!(r, Err(ApiError::Unavailable)));
    assert!(matches!(hub.route_resync(), Err(ApiError::Unavailable)));
    assert!(hub.initial_event().is_none());
    let st = hub.status();
    assert!(!st.listener_connected);
    assert!(st.apps.is_empty());
    assert_eq!(ApiError::Unavailable.status_code(), 503);
}

#[test]
fn chat_hub_routes_to_listener() {
    let mut hub: ChatTokenState<u32> = ChatTokenState::new();
    let apps = vec![
        AppInfo { root: "/w/a".to_string(), name: "a".to_string() },
        AppInfo { root: "/w/b".to_string(), name: "b".to_string() },
    ];
    hub.set_listener(5, apps);
    match hub.route_chat_input(Some("c1".to_string()), "/w/a".to_string(), "hi".to_string()) {
        Ok((s, ChatMessage::ChatInput { chat_session_id, app_root, content })) => {
            assert_eq!(*s, 5);
            assert_eq!(chat_session_id, Some("c1".to_string()));
            assert_eq!(app_root, "/w/a");
            assert_eq!(content, "hi");
        }
        _ => panic!("expected a route"),
    }
    assert!(matches!(hub.route_resync(), Ok((_, ChatMessage::ResyncApps))));
    match hub.initial_event() {
        Some(ChatMessage::ListenerReady { apps }) => {
            assert_eq!(apps.len(), 2);
            assert_eq!(apps[1].name, "b");
        }
        _ => panic!("expected the listener's apps"),
    }
    let st = hub.status();
    assert!(st.listener_connected);
    assert_eq!(st.apps, vec!["/w/a".to_string(), "/w/b".to_string()]);
    hub.clear_listener();
    assert!(hub.initial_event().is_none());
}

#[test]
fn end_to_end_viewer_sees_only_its_token() {
    let mut registry: TokenRegistry<RefCell<TerminalTokenState<u32>>> = TokenRegistry::new();
    let t1 = registry.create_token(RefCell::new(TerminalTokenState::new()));
    let t2 = Token::issue("other-token".to_string(), t1.expires_at - TOKEN_TTL_MILLIS);
    registry.add(&t2, RefCell::new(TerminalTokenState::new()));
    let now = t1.expires_at - 1;

    let hub1 = registry.get_valid(&t1.value, now).ok().unwrap();
    let hub2 = registry.get_valid(&t2.value, now).ok().unwrap();

    let mut producer = ProducerSession::new();
    let start = TerminalMessage::session_start("s1", "bash", None);
    if let Some((id, name)) = producer.claim(&start) {
        hub1.borrow_mut().register_producer(id, 7, name);
    }
    hub1.borrow_mut().broadcast(start);

    let mut viewer = hub1.borrow().subscribe();
    let mut other_viewer = hub2.borrow().subscribe();

    let out = TerminalMessage::output("s1", "hi");
    assert!(producer.claim(&out).is_none());
    hub1.borrow_mut().broadcast(out);
    hub2.borrow_mut().broadcast(TerminalMessage::output("s2", "elsewhere"));

    let mut seen = Vec::new();
    while let Ok(m) = viewer.try_recv() {
        seen.push(m);
    }
    assert_eq!(seen.len(), 1);
    assert_eq!(content_of(&seen[0]).unwrap(), "hi");
    let mut other = Vec::new();
    while let Ok(m) = other_viewer.try_recv() {
        other.push(m);
    }
    assert_eq!(other.len(), 1);
    assert_eq!(content_of(&other[0]).unwrap(), "elsewhere");
}

#[test]
fn token_response_names_endpoint_and_command() {
    let t = Token::issue("abc12345".to_string(), 0);
    let r = token_response("https://relay.example", &t, "/ws/wrapper", "<command>");
    assert_eq!(r.token, "abc12345");
    assert_eq!(r.expires_at, TOKEN_TTL_MILLIS);
    assert_eq!(r.ws_url, "https://relay.example/ws/wrapper?token=abc12345");
    assert_eq!(r.command_hint, "teeclaude --server=https://relay.example --token=abc12345 <command>");
}

#[test]
fn listener_acts_on_prompts_and_resync_only() {
    let req = listener_request(ChatMessage::ChatInput {
        chat_session_id: None,
        app_root: "/w".to_string(),
        content: "hi".to_string(),
    });
    match req {
        ListenerRequest::Chat { chat_session_id, app_root, content } => {
            assert_eq!(chat_session_id, None);
            assert_eq!(app_root, "/w");
            assert_eq!(content, "hi");
        }
        _ => panic!("expected a prompt"),
    }
    assert!(matches!(listener_request(ChatMessage::ResyncApps), ListenerRequest::Resync));
    assert!(matches!(listener_request(ChatMessage::chat_done("c")), ListenerRequest::Ignore));
}

#[test]
fn producer_frames_register_then_close_unregisters() {
    let mut hub: TerminalTokenState<u32> = TerminalTokenState::new();
    let mut viewer = hub.subscribe();
    let mut p = ProducerSession::new();
    p.on_frame(&mut hub, TerminalMessage::session_start("s1", "bash", Some("dev".to_string())), 4);
    p.on_frame(&mut hub, TerminalMessage::output("s1", "hi"), 5);
    assert_eq!(hub.session_count(), 1);
    match hub.route_input("s1", "x") {
        Ok((sender, _)) => assert_eq!(*sender, 4),
        Err(_) => panic!("s1 must be registered"),
    }
    assert!(matches!(viewer.try_recv(), Ok(TerminalMessage::SessionStart { .. })));
    assert_eq!(content_of(&viewer.try_recv().unwrap()).unwrap(), "hi");
    p.on_close(&mut hub);
    assert_eq!(hub.session_count(), 0);
    assert!(matches!(viewer.try_recv(), Ok(TerminalMessage::SessionEnd { .. })));
}

#[test]
fn close_without_frames_changes_nothing() {
    let mut hub: TerminalTokenState<u32> = TerminalTokenState::new();
    hub.register_producer("other".to_string(), 1, None);
    let mut viewer = hub.subscribe();
    let p = ProducerSession::new();
    p.on_close(&mut hub);
    assert_eq!(hub.session_count(), 1);
    assert!(viewer.try_recv().is_err());
}

#[test]
fn listener_registration_is_announced() {
    let mut hub: ChatTokenState<u32> = ChatTokenState::new();
    let mut viewer = hub.subscribe();
    hub.register_listener(8, vec![AppInfo { root: "/w/x".to_string(), name: "x".to_string() }]);
    match viewer.try_recv() {
        Ok(ChatMessage::ListenerReady { apps }) => assert_eq!(apps[0].root, "/w/x"),
        _ => panic!("expected the announcement"),
    }
    assert!(matches!(hub.route_resync(), Ok((s, _)) if *s == 8));
}

#[test]
fn active_sessions_lists_registered_wrappers() {
    let mut hub: TerminalTokenState<u32> = TerminalTokenState::new();
    assert!(matches!(hub.active_sessions(), TerminalMessage::ActiveSessions { sessions } if sessions.is_empty()));
    hub.register_producer("s1".to_string(), 1, Some("dev".to_string()));
    hub.register_producer("s2".to_string(), 2, None);
    match hub.active_sessions() {
        TerminalMessage::ActiveSessions { sessions } => {
            assert_eq!(sessions.len(), 2);
            assert_eq!(sessions[0].id, "s1");
            assert_eq!(sessions[0].name, Some("dev".to_string()));
            assert_eq!(sessions[1].id, "s2");
            assert_eq!(sessions[1].name, None);
        }
        _ => panic!("expected a listing"),
    }
}

#[test]
fn issued_token_response_matches_registry() {
    let mut reg: TokenRegistry<u8> = TokenRegistry::new();
    let r = reg.issue_token(6, "http://h:4111", "/ws/listener", "start");
    assert_eq!(r.token.len(), 8);
    assert_eq!(*reg.get(&r.token).unwrap(), 6);
    assert_eq!(r.ws_url, format!("http://h:4111/ws/listener?token={}", r.token));
    assert_eq!(r.command_hint, format!("teeclaude --server=http://h:4111 --token={} start", r.token));
    assert!(reg.validate(&r.token, r.expires_at - 1).valid);
}
