use goose_core::message::Role;
use goose_core::sampling_approval::{
    delivery_result, frame_sse, sampling_message, ApprovalEnd, SamplingApprovalState,
    SamplingMessageContent, SamplingResponse, APPROVAL_TIMEOUT_SECS,
};

fn s(t: &str) -> String {
    t.to_string()
}

fn request(state: &mut SamplingApprovalState) -> String {
    let r = state.request_approval(
        "test-extension".to_string(),
        vec![SamplingMessageContent {
            role: "user".to_string(),
            content: "Test message".to_string(),
        }],
        Some("Test system prompt".to_string()),
        100,
    );
    assert_eq!(r.extension_name, "test-extension");
    assert_eq!(r.messages[0].content, "Test message");
    assert_eq!(r.system_prompt, Some(s("Test system prompt")));
    assert_eq!(r.max_tokens, 100);
    r.request_id
}

#[test]
fn test_sampling_approval_flow() {
    let mut state = SamplingApprovalState::new();
    request(&mut state);
    let request_id = state.pending[0].clone();
    state.submit_response(&request_id).expect("Should submit response");
    let answer = SamplingResponse { request_id: request_id.clone(), approved: true };
    let result = state.finish(&request_id, ApprovalEnd::Answered(answer.approved));
    assert!(result.is_ok());
    assert!(result.unwrap());
}

#[test]
fn test_sampling_approval_timeout() {
    let mut state = SamplingApprovalState::new();
    let id = request(&mut state);
    let result = state.finish(&id, ApprovalEnd::TimedOut);
    assert_eq!(result, Err(s("Approval request timed out")));
    assert!(state.pending.is_empty());
    assert_eq!(APPROVAL_TIMEOUT_SECS, 300);
}

#[test]
fn identifiers_are_fresh_and_answered_once() {
    let mut state = SamplingApprovalState::new();
    let a = request(&mut state);
    let b = request(&mut state);
    assert_ne!(a, b);
    assert!(uuid::Uuid::parse_str(&a).is_ok());
    assert_eq!(state.submit_response(&a), Ok(()));
    assert_eq!(
        state.submit_response(&a),
        Err(s("Request not found or already responded"))
    );
    assert_eq!(state.pending, vec![b]);
    assert_eq!(
        state.finish(&a, ApprovalEnd::ChannelClosed),
        Err(s("Response channel closed"))
    );
}

#[test]
fn a_given_identifier_waits_once() {
    let mut state = SamplingApprovalState::new();
    state.request_approval_as(s("1"), s("e"), vec![], None, 1);
    state.request_approval_as(s("1"), s("e"), vec![], None, 1);
    assert_eq!(state.pending, vec![s("1")]);
    state.subscribe(7);
    assert_eq!(state.subscribers, vec![7]);
}

#[test]
fn events_are_framed() {
    assert_eq!(frame_sse("{\"a\":1}"), "data: {\"a\":1}\n\n");
    assert_eq!(
        sampling_message(Role::User, Some(s("hi")), s("debug")),
        SamplingMessageContent { role: s("user"), content: s("hi") }
    );
    assert_eq!(
        sampling_message(Role::Assistant, None, s("debug")),
        SamplingMessageContent { role: s("assistant"), content: s("debug") }
    );
    assert_eq!(delivery_result(true), Ok(()));
    assert!(delivery_result(false).is_err());
}
