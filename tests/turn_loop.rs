use cleon::approval::{ApprovalDetails, ApprovalKind, ApprovalRequest, RiskAssessment};
use cleon::decision::Decision;
use cleon::events::{ThreadEvent, ThreadItem, ThreadItemDetails, Usage};
use cleon::turn::{IncomingEvent, SessionInfo, Submission, Turn, TurnInput};
use cleon::turn_result::TurnResult;

fn exec_request(id: &str) -> ApprovalRequest {
    ApprovalRequest {
        id: id.to_string(),
        details: ApprovalDetails::Exec {
            command: vec!["rm".to_string(), "-rf".to_string(), "build".to_string()],
            cwd: "/work".to_string(),
            reason: Some("clean up".to_string()),
            risk: Some(RiskAssessment {
                description: "deletes files".to_string(),
                risk_level: "medium".to_string(),
            }),
        },
    }
}

fn patch_request(id: &str) -> ApprovalRequest {
    ApprovalRequest {
        id: id.to_string(),
        details: ApprovalDetails::Patch {
            reason: None,
            grant_root: Some("/work".to_string()),
            files: vec!["src/a.rs".to_string()],
        },
    }
}

fn empty_session() -> SessionInfo {
    SessionInfo { session_id: None, rollout_path: None }
}

fn request_event(request: ApprovalRequest) -> TurnInput {
    TurnInput::Event { event: IncomingEvent::ApprovalRequest { request }, normalized: vec![] }
}

fn other_event(normalized: Vec<ThreadEvent>) -> TurnInput {
    TurnInput::Event { event: IncomingEvent::Other, normalized }
}

fn line(text: &str) -> TurnInput {
    TurnInput::Line { line: text.to_string() }
}

fn usage() -> Usage {
    Usage { input_tokens: 10, cached_input_tokens: 2, output_tokens: 7 }
}

fn item(details: ThreadItemDetails) -> ThreadItem {
    ThreadItem { id: "item_0".to_string(), details }
}

fn agent(text: &str) -> ThreadEvent {
    ThreadEvent::ItemCompleted { item: item(ThreadItemDetails::AgentMessage { text: text.to_string() }) }
}

fn reasoning(text: &str) -> ThreadEvent {
    ThreadEvent::ItemUpdated { item: item(ThreadItemDetails::Reasoning { text: text.to_string() }) }
}

fn pending_ids(turn: &Turn) -> Vec<String> {
    turn.pending().iter().map(|r| r.id.clone()).collect()
}

#[test]
fn answers_go_to_requests_in_arrival_order() {
    let mut session = empty_session();
    let mut turn = Turn::start(vec![]);
    let out = turn.handle(&mut session, request_event(exec_request("1")));
    assert!(out.announce);
    let out = turn.handle(&mut session, request_event(patch_request("2")));
    assert!(out.announce);
    assert_eq!(pending_ids(&turn), vec!["1".to_string(), "2".to_string()]);

    let first = turn.handle(&mut session, line("deny"));
    assert_eq!(
        first.submit,
        Some(Submission::ExecApproval { id: "1".to_string(), decision: Decision::Denied })
    );
    let second = turn.handle(&mut session, line("approve"));
    assert_eq!(
        second.submit,
        Some(Submission::PatchApproval { id: "2".to_string(), decision: Decision::Approved })
    );
    assert!(turn.pending().is_empty());
    assert!(!turn.wants_input());
}

#[test]
fn unparsed_line_keeps_queue() {
    let mut session = empty_session();
    let mut turn = Turn::start(vec![]);
    turn.handle(&mut session, request_event(exec_request("1")));
    turn.handle(&mut session, request_event(patch_request("2")));
    let out = turn.handle(&mut session, line("maybe"));
    assert_eq!(out.submit, None);
    assert!(out.usage_hint);
    assert!(!out.finished);
    assert_eq!(pending_ids(&turn), vec!["1".to_string(), "2".to_string()]);
    let out = turn.handle(&mut session, line("yes"));
    assert_eq!(
        out.submit,
        Some(Submission::ExecApproval { id: "1".to_string(), decision: Decision::Approved })
    );
}

#[test]
fn stray_input_without_pending_has_no_effect() {
    let mut session = empty_session();
    let mut turn = Turn::start(vec![]);
    assert!(!turn.wants_input());
    let out = turn.handle(&mut session, line("approve"));
    assert_eq!(out.submit, None);
    assert!(!out.usage_hint);
    assert!(!out.announce);
    assert!(!out.finished);
    assert!(turn.pending().is_empty());
    assert!(turn.result().errors.is_empty());
    assert!(!turn.is_finished());
}

#[test]
fn cancel_abandons_pending_requests() {
    let mut session = empty_session();
    let mut turn = Turn::start(vec![]);
    turn.handle(&mut session, request_event(exec_request("1")));
    turn.handle(&mut session, request_event(patch_request("2")));
    let out = turn.handle(&mut session, TurnInput::Cancelled);
    assert_eq!(out.submit, Some(Submission::Interrupt));
    assert!(out.finished);
    assert!(turn.is_finished());
    assert!(!turn.wants_input());
    assert_eq!(pending_ids(&turn), vec!["1".to_string(), "2".to_string()]);
    let result = turn.into_result();
    assert_eq!(result.errors, vec!["Interrupted by user".to_string()]);
    assert!(result.turn_complete());
}

#[test]
fn turn_ends_right_after_success_marker() {
    let mut session = empty_session();
    let mut turn = Turn::start(vec![]);
    let out = turn.handle(&mut session, other_event(vec![ThreadEvent::TurnStarted]));
    assert!(!out.finished);
    let out = turn.handle(&mut session, other_event(vec![agent("hi")]));
    assert!(!out.finished);
    assert!(!turn.result().turn_complete());
    let out = turn.handle(&mut session, other_event(vec![ThreadEvent::TurnCompleted { usage: usage() }]));
    assert!(out.finished);
    assert!(turn.result().turn_complete());
    assert_eq!(turn.result().usage, Some(usage()));
    assert_eq!(turn.result().events().len(), 3);
}

#[test]
fn turn_ends_right_after_failure_marker() {
    let mut session = empty_session();
    let mut turn = Turn::start(vec![]);
    let out = turn.handle(&mut session, other_event(vec![ThreadEvent::Error { message: "slow".to_string() }]));
    assert!(!out.finished);
    let out = turn.handle(&mut session, other_event(vec![ThreadEvent::TurnFailed { message: "boom".to_string() }]));
    assert!(out.finished);
    let result = turn.into_result();
    assert_eq!(result.errors, vec!["slow".to_string(), "boom".to_string()]);
    assert!(result.turn_complete());
    assert_eq!(result.usage, None);
}

#[test]
fn events_after_finish_are_ignored() {
    let mut session = empty_session();
    let mut turn = Turn::start(vec![]);
    turn.handle(&mut session, other_event(vec![ThreadEvent::TurnCompleted { usage: usage() }]));
    let out = turn.handle(&mut session, other_event(vec![agent("late")]));
    assert!(out.finished);
    assert_eq!(turn.result().final_message, None);
    assert_eq!(turn.result().events().len(), 1);
}

#[test]
fn reasoning_accumulates_and_final_message_is_latest() {
    let mut result = TurnResult::new();
    result.append_events(vec![reasoning("first"), agent("draft"), reasoning("second")]);
    result.append_events(vec![agent("final"), reasoning("third")]);
    assert_eq!(result.reasoning, vec!["first".to_string(), "second".to_string(), "third".to_string()]);
    assert_eq!(result.final_message, Some("final".to_string()));
    assert!(!result.turn_complete());
    assert_eq!(result.events().len(), 5);
}

#[test]
fn other_items_are_ignored_by_result() {
    let mut result = TurnResult::default();
    result.append_events(vec![
        ThreadEvent::ItemStarted { item: item(ThreadItemDetails::AgentMessage { text: "x".to_string() }) },
        ThreadEvent::ItemCompleted {
            item: item(ThreadItemDetails::Other { kind: "command_execution".to_string(), payload: "{}".to_string() }),
        },
        ThreadEvent::ThreadStarted { thread_id: "t".to_string() },
    ]);
    assert_eq!(result.final_message, None);
    assert!(result.reasoning.is_empty());
    assert!(result.errors.is_empty());
    assert_eq!(result.events().len(), 3);
}

#[test]
fn bootstrap_events_are_folded_first() {
    let turn = Turn::start(vec![ThreadEvent::ThreadStarted { thread_id: "abc".to_string() }]);
    assert_eq!(turn.result().events().len(), 1);
    assert!(!turn.is_finished());
}

#[test]
fn session_configured_updates_session() {
    let mut session = empty_session();
    let mut turn = Turn::start(vec![]);
    let out = turn.handle(
        &mut session,
        TurnInput::Event {
            event: IncomingEvent::SessionConfigured {
                session_id: "s-1".to_string(),
                rollout_path: "/tmp/rollout.jsonl".to_string(),
            },
            normalized: vec![ThreadEvent::ThreadStarted { thread_id: "s-1".to_string() }],
        },
    );
    assert!(!out.announce);
    assert_eq!(session.session_id, Some("s-1".to_string()));
    assert_eq!(session.rollout_path, Some("/tmp/rollout.jsonl".to_string()));
}

#[test]
fn stream_close_ends_turn_without_success() {
    let mut session = empty_session();
    let mut turn = Turn::start(vec![]);
    let out = turn.handle(&mut session, TurnInput::EventStreamClosed);
    assert!(out.finished);
    assert_eq!(out.submit, None);
    assert!(!turn.result().turn_complete());
}

#[test]
fn closed_input_is_never_read_again() {
    let mut session = empty_session();
    let mut turn = Turn::start(vec![]);
    turn.handle(&mut session, request_event(exec_request("7")));
    assert!(turn.wants_input());
    let out = turn.handle(&mut session, TurnInput::InputClosed);
    assert!(!out.finished);
    assert!(!turn.wants_input());
    assert_eq!(pending_ids(&turn), vec!["7".to_string()]);
}

#[test]
fn resolve_without_decision_keeps_front() {
    let mut session = empty_session();
    let mut turn = Turn::start(vec![]);
    turn.handle(&mut session, request_event(patch_request("9")));
    let out = turn.resolve(None);
    assert!(out.usage_hint);
    assert_eq!(pending_ids(&turn), vec!["9".to_string()]);
    let out = turn.resolve(Some(Decision::Abort));
    assert_eq!(
        out.submit,
        Some(Submission::PatchApproval { id: "9".to_string(), decision: Decision::Abort })
    );
    assert_eq!(turn.handle_line("yes").submit, None);
}

#[test]
fn request_kind_follows_details() {
    assert_eq!(exec_request("1").kind(), ApprovalKind::Exec);
    assert_eq!(patch_request("2").kind(), ApprovalKind::Patch);
}
