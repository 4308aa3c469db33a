use woz_dispatch::state::{DispatchReply, Notice, PollReply, WaitOutcome, WizardState};
use woz_dispatch::tool::{ResponseMode, ToolCallRequest, ToolResponse};

fn args(text: &str) -> serde_json::Value {
    serde_json::from_str(text).unwrap()
}

fn call(name: &str, arguments: &str) -> ToolCallRequest {
    ToolCallRequest { name: name.to_string(), arguments: args(arguments), call_id: None }
}

fn answer(call_id: &str, response: &str, use_model: bool, skip_ai: bool) -> ToolResponse {
    ToolResponse {
        call_id: call_id.to_string(),
        response: response.to_string(),
        use_model,
        skip_ai,
        delegate: false,
        timestamp: String::new(),
    }
}

fn is_v4_uuid_text(s: &str) -> bool {
    let cs: Vec<char> = s.chars().collect();
    if cs.len() != 36 {
        return false;
    }
    for (i, c) in cs.iter().enumerate() {
        let ok = if i == 8 || i == 13 || i == 18 || i == 23 {
            *c == '-'
        } else {
            c.is_ascii_digit() || ('a'..='f').contains(c)
        };
        if !ok {
            return false;
        }
    }
    cs[14] == '4' && "89ab".contains(cs[19])
}

#[test]
fn test_wizard_dispatch_endpoint() {
    let mut state: WizardState<u32> = WizardState::new();
    assert_eq!(state.status().pending_calls.len(), 0);

    let (call_id, notice) =
        state.begin_dispatch(call("get_weather", r#"{"location": "Prague"}"#), 1).unwrap();
    assert!(is_v4_uuid_text(&call_id));
    match notice {
        Notice::ToolCall { call_id: id, name, arguments } => {
            assert_eq!(id, call_id);
            assert_eq!(name, "get_weather");
            assert_eq!(arguments["location"], "Prague");
        }
        other => panic!("unexpected notice {:?}", other),
    }
    let status = state.status();
    assert_eq!(status.pending_calls.len(), 1);
    assert_eq!(status.pending_calls[0].call_id.as_deref(), Some(call_id.as_str()));
    assert_eq!(status.active_sessions, 1);

    // No answer reaches the blocked dispatch: it replies pending with the id.
    let reply = state.finish_dispatch(&call_id, WaitOutcome::TimedOut);
    assert_eq!(reply, DispatchReply::Pending { call_id: call_id.clone() });
    assert_eq!(state.status().pending_calls.len(), 1);

    assert_eq!(state.poll(&call_id), PollReply::Waiting);

    let ack = state.respond(answer(
        &call_id,
        "{\"temperature\": 20, \"condition\": \"sunny\"}",
        false,
        false,
    ));
    assert_eq!(ack.mode, ResponseMode::AnswerAsTool);
    assert!(ack.delivery.is_none());

    match state.poll(&call_id) {
        PollReply::Ready { content, completed } => {
            assert!(content.contains("temperature"));
            assert_eq!(
                completed,
                Notice::ResponseComplete {
                    call_id: call_id.clone(),
                    response: "{\"temperature\": 20, \"condition\": \"sunny\"}".to_string(),
                }
            );
        }
        other => panic!("{}: {:?}", "the answer should be ready", other),
    }
    assert_eq!(state.status().pending_calls.len(), 0);
}

#[test]
fn test_wizard_dispatch_format_validation() {
    let mut state: WizardState<u32> = WizardState::new();
    let (call_id, _) =
        state.begin_dispatch(call("search_web", r#"{"query": "rust testing"}"#), 5).unwrap();
    let reply = state.finish_dispatch(&call_id, WaitOutcome::TimedOut);
    assert_eq!(reply, DispatchReply::Pending { call_id: call_id.clone() });
    let status = state.status();
    assert_eq!(status.pending_calls.len(), 1);
    assert_eq!(status.pending_calls[0].name, "search_web");
    assert_eq!(status.pending_calls[0].arguments["query"], "rust testing");
    assert_eq!(state.poll(&call_id), PollReply::Waiting);
}

#[test]
fn fresh_ids_differ_and_have_uuid_shape() {
    let mut state: WizardState<u32> = WizardState::new();
    let (a, _) = state.begin_dispatch(call("t", "{}"), 1).unwrap();
    let (b, _) = state.begin_dispatch(call("t", "{}"), 2).unwrap();
    assert!(is_v4_uuid_text(&a));
    assert!(is_v4_uuid_text(&b));
    assert_ne!(a, b);
    assert_eq!(state.status().pending_calls.len(), 2);
}

#[test]
fn register_call_sets_the_id() {
    let mut state: WizardState<u32> = WizardState::new();
    let notice = state.try_register("c1".to_string(), call("tree", r#"{"path": "/tmp"}"#), 9).unwrap();
    assert_eq!(
        notice,
        Notice::ToolCall {
            call_id: "c1".to_string(),
            name: "tree".to_string(),
            arguments: args(r#"{"path": "/tmp"}"#),
        }
    );
    let status = state.status();
    assert_eq!(status.pending_calls[0].call_id, Some("c1".to_string()));
}

#[test]
fn blocked_dispatch_receives_answer_as_tool() {
    let mut state: WizardState<u32> = WizardState::new();
    state.try_register("c1".to_string(), call("tree", "{}"), 9).unwrap();
    let ack = state.respond(answer("c1", "src/\n  main.rs\n", false, false));
    let (waiter, delivered) = ack.delivery.expect("a dispatcher waits on c1");
    assert_eq!(waiter, 9);
    assert_eq!(delivered.response, "src/\n  main.rs\n");
    assert_eq!(
        ack.notice,
        Notice::ResponseReady {
            call_id: "c1".to_string(),
            response: "src/\n  main.rs\n".to_string(),
            mode: ResponseMode::AnswerAsTool,
        }
    );
    let reply = state.finish_dispatch(&"c1".to_string(), WaitOutcome::Answered(delivered));
    assert_eq!(
        reply,
        DispatchReply::Content { content: "src/\n  main.rs\n".to_string(), complete: false }
    );
    assert_eq!(state.status().pending_calls.len(), 0);
    // The answer stays stored after the blocked dispatch, until it is polled.
    assert!(matches!(state.poll(&"c1".to_string()), PollReply::Ready { .. }));
}

#[test]
fn skip_ai_completes_the_loop() {
    let mut state: WizardState<u32> = WizardState::new();
    state.try_register("c2".to_string(), call("t", "{}"), 1).unwrap();
    let ack = state.respond(answer("c2", "final answer", false, true));
    assert_eq!(ack.mode, ResponseMode::SkipAi);
    let (_, r) = ack.delivery.unwrap();
    let reply = state.finish_dispatch(&"c2".to_string(), WaitOutcome::Answered(r));
    assert_eq!(
        reply,
        DispatchReply::Content { content: "final answer".to_string(), complete: true }
    );
}

#[test]
fn let_model_answer_gives_use_model_content() {
    let mut state: WizardState<u32> = WizardState::new();
    state.try_register("c3".to_string(), call("t", "{}"), 1).unwrap();
    let ack = state.respond(answer("c3", "{\"use_model\":true}", true, false));
    assert_eq!(ack.mode, ResponseMode::LetAiAnswer);
    let (_, r) = ack.delivery.unwrap();
    let reply = state.finish_dispatch(&"c3".to_string(), WaitOutcome::Answered(r));
    assert_eq!(
        reply,
        DispatchReply::Content { content: "{\"use_model\": true}".to_string(), complete: false }
    );
    match state.poll(&"c3".to_string()) {
        PollReply::Ready { content, .. } => assert_eq!(content, "{\"use_model\": true}"),
        other => panic!("{}: {:?}", "answer expected", other),
    }
}

#[test]
fn forwarded_context_loses_the_marker() {
    let mut state: WizardState<u32> = WizardState::new();
    state.try_register("c4".to_string(), call("t", "{}"), 1).unwrap();
    let ack = state.respond(answer("c4", "user prefers celsius\n\n__FORWARD_TO_AI__", false, false));
    assert_eq!(ack.mode, ResponseMode::AddContextAndForward);
    let (_, r) = ack.delivery.unwrap();
    let reply = state.finish_dispatch(&"c4".to_string(), WaitOutcome::Answered(r));
    assert_eq!(
        reply,
        DispatchReply::Content { content: "user prefers celsius\n\n".to_string(), complete: false }
    );
    // A poll hands the text back as it was written.
    match state.poll(&"c4".to_string()) {
        PollReply::Ready { content, .. } => {
            assert_eq!(content, "user prefers celsius\n\n__FORWARD_TO_AI__")
        }
        other => panic!("{}: {:?}", "answer expected", other),
    }
}

#[test]
fn timeout_keeps_the_call_pending() {
    let mut state: WizardState<u32> = WizardState::new();
    state.try_register("c5".to_string(), call("t", "{}"), 1).unwrap();
    state.try_register("c6".to_string(), call("u", "{}"), 2).unwrap();
    let reply = state.finish_dispatch(&"c5".to_string(), WaitOutcome::TimedOut);
    assert_eq!(reply, DispatchReply::Pending { call_id: "c5".to_string() });
    assert_eq!(state.status().pending_calls.len(), 2);
    // The dispatcher of c5 is gone: an answer now finds nobody waiting,
    // but it is stored, and a poll collects it and drops the call.
    let ack = state.respond(answer("c5", "late", false, false));
    assert!(ack.delivery.is_none());
    match state.poll(&"c5".to_string()) {
        PollReply::Ready { content, .. } => assert_eq!(content, "late"),
        other => panic!("answer expected, got {:?}", other),
    }
    let status = state.status();
    assert_eq!(status.pending_calls.len(), 1);
    assert_eq!(status.pending_calls[0].call_id, Some("c6".to_string()));
}

#[test]
fn delegation_hands_the_call_back() {
    let mut state: WizardState<u32> = WizardState::new();
    state.try_register("d1".to_string(), call("tree", "{}"), 4).unwrap();
    let mut r = answer("d1", "{\"delegate\":true}", false, false);
    r.delegate = true;
    let ack = state.respond(r);
    assert_eq!(ack.mode, ResponseMode::DelegateToAgent);
    assert_eq!(ack.mode.label(), "delegate_to_agent");
    let (_, delivered) = ack.delivery.unwrap();
    let reply = state.finish_dispatch(&"d1".to_string(), WaitOutcome::Answered(delivered));
    assert_eq!(reply, DispatchReply::Delegate);
    assert_eq!(state.status().pending_calls.len(), 0);
    match state.poll(&"d1".to_string()) {
        PollReply::Delegate { completed } => assert_eq!(
            completed,
            Notice::ResponseComplete {
                call_id: "d1".to_string(),
                response: "{\"delegate\":true}".to_string(),
            }
        ),
        other => panic!("delegation expected, got {:?}", other),
    }
}

#[test]
fn skip_wins_over_delegation() {
    let mut state: WizardState<u32> = WizardState::new();
    state.try_register("d2".to_string(), call("t", "{}"), 1).unwrap();
    let mut r = answer("d2", "final", false, true);
    r.delegate = true;
    let ack = state.respond(r);
    assert_eq!(ack.mode, ResponseMode::SkipAi);
    let (_, delivered) = ack.delivery.unwrap();
    let reply = state.finish_dispatch(&"d2".to_string(), WaitOutcome::Answered(delivered));
    assert_eq!(reply, DispatchReply::Content { content: "final".to_string(), complete: true });
}

#[test]
fn dispatch_ids_are_not_in_use() {
    let mut state: WizardState<u32> = WizardState::new();
    let mut ids: Vec<String> = Vec::new();
    for w in 0..20u32 {
        let (id, _) = state.begin_dispatch(call("t", "{}"), w).unwrap();
        assert!(!ids.contains(&id));
        ids.push(id);
    }
    for id in ids.iter() {
        assert!(state.uses_id(id));
    }
    assert!(!state.uses_id(&"unused".to_string()));
}

#[test]
fn closed_channel_reports_and_keeps_the_call() {
    let mut state: WizardState<u32> = WizardState::new();
    state.try_register("c7".to_string(), call("t", "{}"), 1).unwrap();
    let reply = state.finish_dispatch(
        &"c7".to_string(),
        WaitOutcome::ChannelClosed("channel closed".to_string()),
    );
    assert_eq!(
        reply,
        DispatchReply::ChannelError { error: "Channel error: channel closed".to_string() }
    );
    assert_eq!(state.status().pending_calls.len(), 1);
    let ack = state.respond(answer("c7", "x", false, false));
    assert!(matches!(ack.delivery, Some((1, _))));
}

#[test]
fn answer_without_dispatcher_is_still_stored() {
    let mut state: WizardState<u32> = WizardState::new();
    let ack = state.respond(answer("nobody", "hello", false, false));
    assert!(ack.delivery.is_none());
    match state.poll(&"nobody".to_string()) {
        PollReply::Ready { content, .. } => assert_eq!(content, "hello"),
        other => panic!("{}: {:?}", "answer expected", other),
    }
}

#[test]
fn poll_consumes_the_answer() {
    let mut state: WizardState<u32> = WizardState::new();
    state.respond(answer("c8", "once", false, false));
    assert!(matches!(state.poll(&"c8".to_string()), PollReply::Ready { .. }));
    assert_eq!(state.poll(&"c8".to_string()), PollReply::Waiting);
}

#[test]
fn poll_for_unknown_call_changes_nothing() {
    let mut state: WizardState<u32> = WizardState::new();
    state.try_register("c9".to_string(), call("t", "{}"), 1).unwrap();
    assert_eq!(state.poll(&"other".to_string()), PollReply::Waiting);
    assert_eq!(state.status().pending_calls.len(), 1);
}

#[test]
fn latest_answer_wins() {
    let mut state: WizardState<u32> = WizardState::new();
    state.respond(answer("c10", "first", false, false));
    state.respond(answer("c10", "second", false, false));
    match state.poll(&"c10".to_string()) {
        PollReply::Ready { content, .. } => assert_eq!(content, "second"),
        other => panic!("{}: {:?}", "answer expected", other),
    }
}

#[test]
fn registering_an_id_in_use_is_refused() {
    let mut state: WizardState<u32> = WizardState::new();
    state.try_register("dup".to_string(), call("a", "{}"), 1).unwrap();
    state.try_register("keep".to_string(), call("b", "{}"), 2).unwrap();
    match state.try_register("dup".to_string(), call("c", "{}"), 3) {
        Err((c, w)) => {
            assert_eq!(c.name, "c");
            assert_eq!(w, 3);
        }
        Ok(n) => panic!("id in use, got {:?}", n),
    }
    assert_eq!(state.status().pending_calls.len(), 2);
    // The waiting dispatcher of "dup" is still the first one.
    let ack = state.respond(answer("dup", "r", false, false));
    assert!(matches!(ack.delivery, Some((1, _))));
    // Once answered and polled, the id is free again.
    assert!(matches!(state.poll(&"dup".to_string()), PollReply::Ready { .. }));
    assert!(!state.uses_id(&"dup".to_string()));
    assert!(state.try_register("dup".to_string(), call("d", "{}"), 4).is_ok());
}

#[test]
fn timed_out_id_stays_in_use() {
    let mut state: WizardState<u32> = WizardState::new();
    state.try_register("t1".to_string(), call("a", "{}"), 1).unwrap();
    state.finish_dispatch(&"t1".to_string(), WaitOutcome::TimedOut);
    assert!(state.uses_id(&"t1".to_string()));
    assert!(state.try_register("t1".to_string(), call("a", "{}"), 2).is_err());
}

#[test]
fn status_lists_each_id_once() {
    let mut state: WizardState<u32> = WizardState::new();
    for w in 0..5u32 {
        state.begin_dispatch(call("t", "{}"), w).unwrap();
    }
    let status = state.status();
    let ids: Vec<String> = status.pending_calls.iter().map(|c| c.call_id.clone().unwrap()).collect();
    for (i, a) in ids.iter().enumerate() {
        for (j, b) in ids.iter().enumerate() {
            assert_eq!(i == j, a == b);
        }
    }
}
