use copilot_sdk::events::{EventKind, PayloadRule, SessionErrorData, SessionIdleData};

#[test]
fn event_type_strings_map_to_kinds() {
    assert_eq!(EventKind::from_event_type("assistant.message"), EventKind::AssistantMessage);
    assert_eq!(EventKind::from_event_type("assistant.message_delta"), EventKind::AssistantMessageDelta);
    assert_eq!(EventKind::from_event_type("session.idle"), EventKind::SessionIdle);
    assert_eq!(EventKind::from_event_type("session.error"), EventKind::SessionError);
    assert_eq!(EventKind::from_event_type("tool.execution_complete"), EventKind::ToolExecutionComplete);
    assert_eq!(EventKind::from_event_type("session.start"), EventKind::SessionStart);
    assert_eq!(EventKind::from_event_type("external_tool.requested"), EventKind::ExternalToolRequested);
    assert_eq!(EventKind::from_event_type("permission.requested"), EventKind::PermissionRequested);
    assert_eq!(EventKind::from_event_type("command.execute"), EventKind::CommandExecute);
    assert_eq!(EventKind::from_event_type("system.message"), EventKind::SystemMessage);
}

#[test]
fn unknown_event_types_keep_their_payload() {
    let kind = EventKind::from_event_type("future.unknown_event");
    assert_eq!(kind, EventKind::Unknown);
    assert_eq!(kind.payload_rule(), PayloadRule::Keep);
    assert_eq!(EventKind::from_event_type("Session.Idle"), EventKind::Unknown);
    assert_eq!(EventKind::from_event_type(""), EventKind::Unknown);
}

#[test]
fn payloadless_kinds_ignore_the_payload() {
    assert_eq!(EventKind::SessionIdle.payload_rule(), PayloadRule::Ignore);
    assert_eq!(EventKind::PendingMessagesModified.payload_rule(), PayloadRule::Ignore);
    assert_eq!(EventKind::AssistantMessage.payload_rule(), PayloadRule::Decode);
    assert_eq!(EventKind::SessionStart.payload_rule(), PayloadRule::Decode);
}

#[test]
fn terminal_kinds_are_idle_and_error() {
    let idle = EventKind::from_event_type("session.idle");
    assert!(idle.is_session_idle());
    assert!(idle.is_terminal());
    let error = EventKind::from_event_type("session.error");
    assert!(error.is_session_error());
    assert!(error.is_terminal());
    let message = EventKind::from_event_type("assistant.message");
    assert!(message.is_assistant_message());
    assert!(!message.is_terminal());
    assert!(message.carries_content());
    let delta = EventKind::from_event_type("assistant.message_delta");
    assert!(delta.is_assistant_message_delta());
    assert!(delta.carries_content());
    assert!(!EventKind::Unknown.carries_content());
}

#[test]
fn plain_payload_types_hold_their_fields() {
    let err = SessionErrorData {
        error_type: "api_error".to_string(),
        message: "Rate limit exceeded".to_string(),
        stack: None,
    };
    assert_eq!(err.error_type, "api_error");
    assert_eq!(err.message, "Rate limit exceeded");
    let _idle = SessionIdleData::default();
}
