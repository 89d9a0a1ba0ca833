use copilot_sdk::error::CopilotError;
use copilot_sdk::session::{
    command_target, hook_to_run, invoke_target, is_permission_extension_key, permission_kind,
    pick_message_list, required_field, tool_call_reply, tool_request_target, user_input_target, CollectStep,
    HandlerRegistry, HookKind, HookPresence, IdleWaiter, Observed, RegisteredTool,
    ResponseCollector, ToolCallReply, WaitStep,
};
use copilot_sdk::table::KeyedTable;

fn no_hooks() -> HookPresence {
    HookPresence {
        pre_tool_use: false,
        post_tool_use: false,
        user_prompt_submitted: false,
        session_start: false,
        session_end: false,
        error_occurred: false,
    }
}

#[test]
fn registered_tool_is_found_by_name() {
    let mut tools: KeyedTable<String, RegisteredTool<&str, u32>> = KeyedTable::new();
    tools.insert("my_tool".to_string(), RegisteredTool { tool: "A test tool", handler: None });
    assert!(tools.contains(&"my_tool".to_string()));
    assert_eq!(tools.get(&"my_tool".to_string()).unwrap().tool, "A test tool");
    assert!(tools.get(&"other".to_string()).is_none());
}

#[test]
fn registering_again_replaces_the_tool() {
    let mut tools: KeyedTable<String, RegisteredTool<&str, u32>> = KeyedTable::new();
    tools.insert("echo".to_string(), RegisteredTool { tool: "first", handler: None });
    tools.insert("echo".to_string(), RegisteredTool { tool: "second", handler: Some(7) });
    assert_eq!(tools.len(), 1);
    assert_eq!(tools.get(&"echo".to_string()).unwrap().tool, "second");
}

#[test]
fn many_tools_register_in_order() {
    let mut tools: KeyedTable<String, u32> = KeyedTable::new();
    tools.insert_many(vec![
        ("a".to_string(), 1),
        ("b".to_string(), 2),
        ("a".to_string(), 3),
    ]);
    assert_eq!(tools.len(), 2);
    assert_eq!(*tools.get(&"a".to_string()).unwrap(), 3);
    assert_eq!(*tools.get(&"b".to_string()).unwrap(), 2);
    let (name, value) = tools.entry_at(1);
    assert_eq!(name, "b");
    assert_eq!(*value, 2);
}

#[test]
fn invoking_an_unknown_tool_fails() {
    let tools: KeyedTable<String, RegisteredTool<&str, u32>> = KeyedTable::new();
    let result = invoke_target(&tools, &"unknown".to_string());
    assert!(matches!(result, Err(CopilotError::ToolNotFound(name)) if name == "unknown"));
}

#[test]
fn invoking_a_tool_without_handler_fails() {
    let mut tools: KeyedTable<String, RegisteredTool<&str, u32>> = KeyedTable::new();
    tools.insert("echo".to_string(), RegisteredTool { tool: "Echo tool", handler: None });
    match invoke_target(&tools, &"echo".to_string()) {
        Err(CopilotError::ToolError(msg)) => assert_eq!(msg, "No handler for tool: echo"),
        other => panic!("unexpected {:?}", other),
    }
}

#[test]
fn invoking_a_tool_with_handler_gives_the_handler() {
    let mut tools: KeyedTable<String, RegisteredTool<&str, u32>> = KeyedTable::new();
    tools.insert("echo".to_string(), RegisteredTool { tool: "Echo tool", handler: Some(42) });
    assert_eq!(*invoke_target(&tools, &"echo".to_string()).unwrap(), 42);
}

#[test]
fn unknown_command_reports_an_error() {
    let mut handlers: KeyedTable<String, u32> = KeyedTable::new();
    handlers.insert("fix".to_string(), 1);
    assert_eq!(*command_target(&handlers, &"fix".to_string()).unwrap(), 1);
    match command_target(&handlers, &"unknown".to_string()) {
        Err(CopilotError::Protocol(msg)) => assert_eq!(msg, "no handler for command /unknown"),
        other => panic!("unexpected {:?}", other),
    }
}

#[test]
fn tool_requests_are_answered_only_for_own_tools() {
    let mut tools: KeyedTable<String, u32> = KeyedTable::new();
    tools.insert("echo".to_string(), 1);
    assert_eq!(
        tool_request_target(&tools, Some("req-tool-1".to_string()), Some("echo".to_string())),
        Some(("req-tool-1".to_string(), "echo".to_string()))
    );
    assert_eq!(tool_request_target(&tools, Some("r".to_string()), Some("other".to_string())), None);
    assert_eq!(tool_request_target(&tools, None, Some("echo".to_string())), None);
    assert_eq!(tool_request_target(&tools, Some("r".to_string()), None), None);
}

#[test]
fn failed_tool_results_are_reported_as_errors() {
    let text = "hello".to_string();
    assert!(matches!(tool_call_reply("success", None, &text), ToolCallReply::Success));
    match tool_call_reply("failure", Some("boom".to_string()), &text) {
        ToolCallReply::Failure(t) => assert_eq!(t, "boom"),
        other => panic!("unexpected {:?}", other),
    }
    match tool_call_reply("error", None, &text) {
        ToolCallReply::Failure(t) => assert_eq!(t, "hello"),
        other => panic!("unexpected {:?}", other),
    }
}

#[test]
fn permission_request_fields() {
    assert_eq!(permission_kind(Some("tool_execution")), "tool_execution");
    assert_eq!(permission_kind(None), "unknown");
    assert!(!is_permission_extension_key("kind"));
    assert!(!is_permission_extension_key("toolCallId"));
    assert!(is_permission_extension_key("toolName"));
    assert!(is_permission_extension_key("command"));
}

#[test]
fn user_input_without_handler_fails() {
    let none: Option<&u32> = None;
    assert!(matches!(user_input_target(none), Err(CopilotError::Protocol(_))));
    assert_eq!(*user_input_target(Some(&5u32)).unwrap(), 5);
}

#[test]
fn handler_ids_are_fresh_and_removable() {
    let mut registry: HandlerRegistry<&str> = HandlerRegistry::new();
    let a = registry.register("a");
    let b = registry.register("b");
    assert_eq!(a, 1);
    assert_eq!(b, 2);
    assert_eq!(registry.len(), 2);
    registry.unregister(a);
    assert_eq!(registry.len(), 1);
    let (id, handler) = registry.handler_at(0);
    assert_eq!(id, b);
    assert_eq!(*handler, "b");
    registry.unregister(a);
    assert_eq!(registry.len(), 1);
}

#[test]
fn collector_concatenates_message_and_delta_text() {
    let mut collector = ResponseCollector::new();
    assert!(matches!(collector.observe(Observed::AssistantMessageDelta("4".to_string())), CollectStep::Continue));
    assert!(matches!(collector.observe(Observed::Other), CollectStep::Continue));
    assert!(matches!(collector.observe(Observed::Lagged), CollectStep::Continue));
    assert!(matches!(collector.observe(Observed::AssistantMessage("2".to_string())), CollectStep::Continue));
    assert!(matches!(collector.observe(Observed::SessionIdle), CollectStep::Finish));
    assert_eq!(collector.into_content(), "42");
}

#[test]
fn collector_fails_on_session_error_and_close() {
    let mut collector = ResponseCollector::new();
    match collector.observe(Observed::SessionError("Rate limit exceeded".to_string())) {
        CollectStep::Fail(CopilotError::Protocol(t)) => assert_eq!(t, "Session error: Rate limit exceeded"),
        other => panic!("unexpected {:?}", other),
    }
    assert!(matches!(collector.observe(Observed::Closed), CollectStep::Fail(CopilotError::ConnectionClosed)));
}

#[test]
fn idle_waiter_keeps_the_last_message() {
    let mut waiter: IdleWaiter<u32> = IdleWaiter::new();
    assert!(matches!(waiter.observe(&Observed::AssistantMessage("a".to_string()), 1), WaitStep::Remember));
    assert!(matches!(waiter.observe(&Observed::AssistantMessageDelta("b".to_string()), 2), WaitStep::Continue));
    assert!(matches!(waiter.observe(&Observed::AssistantMessage("c".to_string()), 3), WaitStep::Remember));
    assert!(matches!(waiter.observe(&Observed::Other, 4), WaitStep::Continue));
    assert!(matches!(waiter.observe(&Observed::SessionIdle, 5), WaitStep::Finish));
    assert_eq!(waiter.into_last(), Some(3));
}

#[test]
fn idle_waiter_without_messages_gives_none() {
    let mut waiter: IdleWaiter<u32> = IdleWaiter::new();
    assert!(matches!(waiter.observe(&Observed::SessionIdle, 1), WaitStep::Finish));
    assert_eq!(waiter.into_last(), None);
}

#[test]
fn hooks_dispatch() {
    assert_eq!(hook_to_run(None, "preToolUse"), None);
    let mut presence = no_hooks();
    assert!(!presence.has_any());
    presence.session_start = true;
    assert!(presence.has_any());
    assert_eq!(hook_to_run(Some(presence), "preToolUse"), None);
    assert_eq!(hook_to_run(Some(presence), "sessionStart"), Some(HookKind::SessionStart));
    assert_eq!(hook_to_run(Some(presence), "unknownHookType"), None);
    match HookKind::PreToolUse.invalid_input("missing field") {
        CopilotError::Protocol(t) => assert_eq!(t, "Invalid preToolUse input: missing field"),
        other => panic!("unexpected {:?}", other),
    }
}

#[test]
fn message_list_prefers_events() {
    assert_eq!(pick_message_list(Some(vec![1]), Some(vec![2])).unwrap(), vec![1]);
    assert_eq!(pick_message_list(None, Some(vec![2])).unwrap(), vec![2]);
    assert!(matches!(pick_message_list::<u32>(None, None), Err(CopilotError::Protocol(_))));
}

#[test]
fn error_messages() {
    assert_eq!(CopilotError::ConnectionClosed.message(), "Connection closed");
    assert_eq!(CopilotError::ToolNotFound("x".to_string()).message(), "Tool not found: x");
    assert_eq!(CopilotError::Protocol("bad".to_string()).message(), "Protocol error: bad");
}

#[test]
fn required_field_returns_present_text() {
    assert_eq!(required_field(Some("test-msg-123"), "messageId").unwrap(), "test-msg-123");
}

#[test]
fn required_field_names_missing_field() {
    match required_field(None, "modelId") {
        Err(CopilotError::Protocol(t)) => assert_eq!(t, "Missing modelId in response"),
        other => panic!("unexpected {:?}", other),
    }
}

#[test]
fn unsubscribing_restores_the_handlers() {
    let mut registry: HandlerRegistry<&str> = HandlerRegistry::new();
    let kept = registry.register("kept");
    let temporary = registry.register("temporary");
    registry.unregister(temporary);
    assert_eq!(registry.len(), 1);
    assert_eq!(registry.handler_at(0), (kept, &"kept"));
}

#[test]
fn handlers_are_listed_in_registration_order() {
    let mut registry: HandlerRegistry<&str> = HandlerRegistry::new();
    let a = registry.register("a");
    let b = registry.register("b");
    let c = registry.register("c");
    registry.unregister(b);
    let listed: Vec<(u64, &str)> = (0..registry.len()).map(|i| {
        let (id, h) = registry.handler_at(i);
        (id, *h)
    }).collect();
    assert_eq!(listed, vec![(a, "a"), (c, "c")]);
}
